//! Paces the progress reports.
//!
//! Times are counts of nanoseconds on a clock that never runs back; reading
//! the clock and printing the report are the caller's.

use vstd::prelude::*;

verus! {

/// When logging started, when the next report is due, and how far apart
/// the reports are.
#[derive(Debug, Clone, Copy, PartialEq, Eq, Structural)]
pub struct LoggingState {
    pub started: u64,
    pub next_log: u64,
    pub logging_frequency: u64,
}

/// What one report says.
#[derive(Debug, Clone, Copy, PartialEq, Eq, Structural)]
pub struct Progress {
    /// Nanoseconds since logging started.
    pub elapsed: u64,
    pub total_samples_read: usize,
    pub total_samples_written: usize,
    pub total_samples_to_write: usize,
}

pub struct Logger {
    pub total_samples_to_write: usize,
    pub logging_state: LoggingState,
}

/// `later - earlier`, or nothing where the clock has not moved on.
pub open spec fn elapsed_between(earlier: u64, later: u64) -> u64 {
    if later >= earlier {
        (later - earlier) as u64
    } else {
        0
    }
}

/// `time + span`, or the end of time where that lies beyond it.
pub open spec fn time_after(time: u64, span: u64) -> u64 {
    if time + span <= u64::MAX {
        (time + span) as u64
    } else {
        u64::MAX
    }
}

impl Logger {
    /// A logger started at `now`, whose first report is due at once.
    pub fn new(logging_frequency: u64, total_samples_to_write: usize, now: u64) -> (logger: Logger)
        ensures
            logger.total_samples_to_write == total_samples_to_write,
            logger.logging_state == (LoggingState {
                started: now,
                next_log: now,
                logging_frequency,
            }),
    {
        Logger {
            total_samples_to_write,
            logging_state: LoggingState { started: now, next_log: now, logging_frequency },
        }
    }

    /// The report to print at `now`, if one is due; the next one is then due
    /// one logging interval after this one was.
    pub fn log_status(
        &mut self,
        now: u64,
        total_samples_read: usize,
        total_samples_written: usize,
    ) -> (report: Option<Progress>)
        ensures
            final(self).total_samples_to_write == old(self).total_samples_to_write,
            final(self).logging_state.started == old(self).logging_state.started,
            final(self).logging_state.logging_frequency == old(
                self,
            ).logging_state.logging_frequency,
            report.is_some() <==> now >= old(self).logging_state.next_log,
            report.is_none() ==> final(self).logging_state.next_log == old(
                self,
            ).logging_state.next_log,
            report matches Some(progress) ==> {
                &&& progress == (Progress {
                    elapsed: elapsed_between(old(self).logging_state.started, now),
                    total_samples_read,
                    total_samples_written,
                    total_samples_to_write: old(self).total_samples_to_write,
                })
                &&& final(self).logging_state.next_log == time_after(
                    old(self).logging_state.next_log,
                    old(self).logging_state.logging_frequency,
                )
            },
    {
        if now < self.logging_state.next_log {
            return None;
        }
        let elapsed = elapsed(self.logging_state.started, now);
        let logging_frequency: u64 = self.logging_state.logging_frequency;
        let next_log: u64 = self.logging_state.next_log;
        self.logging_state.next_log = if next_log <= u64::MAX - logging_frequency {
            next_log + logging_frequency
        } else {
            u64::MAX
        };
        Some(
            Progress {
                elapsed,
                total_samples_read,
                total_samples_written,
                total_samples_to_write: self.total_samples_to_write,
            },
        )
    }

    /// The nanoseconds that the whole run took, for the closing report.
    pub fn finish_logging(&self, now: u64) -> (elapsed: u64)
        ensures
            elapsed == elapsed_between(self.logging_state.started, now),
    {
        elapsed(self.logging_state.started, now)
    }
}

fn elapsed(earlier: u64, later: u64) -> (span: u64)
    ensures
        span == elapsed_between(earlier, later),
{
    if later >= earlier {
        later - earlier
    } else {
        0
    }
}

} // verus!
