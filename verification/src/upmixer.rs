//! The decisions of the orchestrator: which window size to work with, how
//! many workers to run, when a worker is done, and how the stages fit
//! together.

use crate::panner_and_writer::PannerAndWriter;
use crate::panning_averager::{AveragerAction, PanningAverager};
use crate::structs::TransformedWindowAndPans;
use crate::window_sizes::{
    get_ideal_window_size,
    ideal_window_size,
    is_ideal_window_size,
    lemma_window_size_is_even,
    WindowSizeError,
    LARGEST_WINDOW_SIZE,
    SMALLEST_WINDOW_SIZE,
};
use vstd::prelude::*;

verus! {

/// Why the upmix cannot start.
#[derive(Debug, Clone, Copy, PartialEq, Eq, Structural)]
pub enum UpmixError {
    /// No recognised window size reaches the minimum that the lowest
    /// steered frequency asks for.
    NotFound { min_window_size: usize },
    /// The source has fewer samples than one window holds.
    InputTooShort { len_samples: usize, window_size: usize },
}

/// The window size to work with, for a source of `len_samples` samples and
/// a lowest steered frequency that needs `min_window_size` samples: the
/// ideal window size for that minimum, which the source has to fill.
pub open spec fn chosen_window_size(min_window_size: int, len_samples: int) -> Result<
    usize,
    UpmixError,
> {
    if min_window_size > LARGEST_WINDOW_SIZE {
        Err(UpmixError::NotFound { min_window_size: min_window_size as usize })
    } else if len_samples >= ideal_window_size(min_window_size) {
        Ok(ideal_window_size(min_window_size) as usize)
    } else {
        Err(
            UpmixError::InputTooShort {
                len_samples: len_samples as usize,
                window_size: ideal_window_size(min_window_size) as usize,
            },
        )
    }
}

/// Picks the window size: the ideal one for `min_window_size`. A source
/// with fewer samples than that window holds is refused, and so is a
/// minimum that no recognised window size reaches.
pub fn choose_window_size(min_window_size: usize, len_samples: usize) -> (r: Result<
    usize,
    UpmixError,
>)
    ensures
        r == chosen_window_size(min_window_size as int, len_samples as int),
        r matches Ok(window_size) ==> {
            &&& window_size == ideal_window_size(min_window_size as int)
            &&& is_ideal_window_size(min_window_size as int, window_size as int)
            &&& min_window_size <= window_size <= len_samples
            &&& SMALLEST_WINDOW_SIZE <= window_size <= LARGEST_WINDOW_SIZE
            &&& window_size % 2 == 0
        },
        r matches Err(UpmixError::InputTooShort { len_samples: len, window_size }) ==> {
            &&& len == len_samples
            &&& len_samples < window_size
            &&& is_ideal_window_size(min_window_size as int, window_size as int)
        },
{
    match get_ideal_window_size(min_window_size) {
        Err(WindowSizeError::NotFound { min_window_size }) => Err(
            UpmixError::NotFound { min_window_size },
        ),
        Ok(window_size) => {
            proof {
                lemma_window_size_is_even(window_size as int);
            }
            if len_samples >= window_size {
                Ok(window_size)
            } else {
                Err(UpmixError::InputTooShort { len_samples, window_size })
            }
        },
    }
}

/// How many target files a source of `len_samples` samples needs when one
/// file holds at most `max_samples_in_file` of them.
pub open spec fn target_files_needed(len_samples: int, max_samples_in_file: int) -> int {
    if len_samples % max_samples_in_file > 0 {
        len_samples / max_samples_in_file + 1
    } else {
        len_samples / max_samples_in_file
    }
}

/// The least number of files that hold `len_samples` samples between them.
pub fn num_target_files(len_samples: usize, max_samples_in_file: usize) -> (files: usize)
    requires
        max_samples_in_file > 0,
    ensures
        files == target_files_needed(len_samples as int, max_samples_in_file as int),
        (files - 1) * max_samples_in_file < len_samples <= files * max_samples_in_file
            || len_samples == 0 && files == 0,
{
    let mut num_target_files: usize = len_samples / max_samples_in_file;
    proof {
        let q = len_samples as int / max_samples_in_file as int;
        let r = len_samples as int % max_samples_in_file as int;
        assert(len_samples == q * max_samples_in_file + r && 0 <= r < max_samples_in_file) by {
            vstd::arithmetic::div_mod::lemma_fundamental_div_mod(
                len_samples as int,
                max_samples_in_file as int,
            );
            vstd::arithmetic::div_mod::lemma_mod_bound(
                len_samples as int,
                max_samples_in_file as int,
            );
            assert(max_samples_in_file * q == q * max_samples_in_file) by (nonlinear_arith);
        }
        assert(0 <= q <= len_samples) by (nonlinear_arith)
            requires
                len_samples == q * max_samples_in_file + r,
                0 <= r < max_samples_in_file,
        ;
        assert((q + 1) * max_samples_in_file == q * max_samples_in_file + max_samples_in_file)
            by (nonlinear_arith);
        assert((q - 1) * max_samples_in_file == q * max_samples_in_file - max_samples_in_file)
            by (nonlinear_arith);
        assert(q * max_samples_in_file >= q) by (nonlinear_arith)
            requires
                0 <= q,
                1 <= max_samples_in_file,
        ;
    }
    if len_samples % max_samples_in_file > 0 {
        num_target_files += 1;
    }
    num_target_files
}

/// Where an output frame goes when the target is split into files of at
/// most `max_samples_in_file` frames each.
#[derive(Debug, Clone, Copy, PartialEq, Eq, Structural)]
pub struct TargetPosition {
    /// The file, counted from zero.
    pub file_ctr: usize,
    /// The frame's position inside that file.
    pub sample_in_file: usize,
}

/// The file that holds output frame `sample_ctr`, and the frame's place in
/// it: the files are filled one after the other. A frame of a source of
/// `len_samples` samples lands in one of the files counted for it.
pub fn locate_in_target_files(
    sample_ctr: usize,
    len_samples: usize,
    max_samples_in_file: usize,
) -> (position: TargetPosition)
    requires
        max_samples_in_file > 0,
        sample_ctr < len_samples,
    ensures
        position.file_ctr == sample_ctr / max_samples_in_file,
        position.sample_in_file == sample_ctr % max_samples_in_file,
        position.file_ctr * max_samples_in_file + position.sample_in_file == sample_ctr,
        position.sample_in_file < max_samples_in_file,
        position.file_ctr < target_files_needed(len_samples as int, max_samples_in_file as int),
{
    proof {
        let m = max_samples_in_file as int;
        let q = sample_ctr as int / m;
        let r = sample_ctr as int % m;
        let files = target_files_needed(len_samples as int, m);
        vstd::arithmetic::div_mod::lemma_fundamental_div_mod(sample_ctr as int, m);
        vstd::arithmetic::div_mod::lemma_fundamental_div_mod(len_samples as int, m);
        vstd::arithmetic::div_mod::lemma_mod_bound(sample_ctr as int, m);
        vstd::arithmetic::div_mod::lemma_mod_bound(len_samples as int, m);
        assert(m * q == q * m) by (nonlinear_arith);
        assert(files * m >= len_samples) by (nonlinear_arith)
            requires
                len_samples == m * (len_samples as int / m) + (len_samples as int % m),
                0 <= len_samples as int % m < m,
                files == if len_samples as int % m > 0 {
                    len_samples as int / m + 1
                } else {
                    len_samples as int / m
                },
        ;
        assert(q < files) by (nonlinear_arith)
            requires
                sample_ctr == q * m + r,
                0 <= r,
                0 < m,
                sample_ctr < len_samples,
                files * m >= len_samples,
        ;
    }
    TargetPosition {
        file_ctr: sample_ctr / max_samples_in_file,
        sample_in_file: sample_ctr % max_samples_in_file,
    }
}

/// What a worker does about the number of workers before it goes on.
#[derive(Debug, Clone, Copy, PartialEq, Eq, Structural)]
pub enum ThreadAdjustment {
    /// The number of workers stays as it is.
    Keep,
    /// The worker starts one more worker, and waits for it when its own
    /// work is done.
    Spawn,
    /// The worker ends.
    Exit,
}

/// The decision of worker `thread_id` when `num_running_threads` workers
/// run and the host can run `available_parallelism` at once. Only the
/// worker that was started last decides; it ends when too many workers run,
/// unless it is the only one, and starts another when too few run.
pub open spec fn thread_adjustment(
    thread_id: int,
    num_running_threads: int,
    available_parallelism: int,
) -> ThreadAdjustment {
    if thread_id + 1 != num_running_threads {
        ThreadAdjustment::Keep
    } else if available_parallelism < num_running_threads && num_running_threads > 1 {
        ThreadAdjustment::Exit
    } else if available_parallelism > num_running_threads {
        ThreadAdjustment::Spawn
    } else {
        ThreadAdjustment::Keep
    }
}

/// The number of workers after `adjustment`.
pub open spec fn threads_after(num_running_threads: int, adjustment: ThreadAdjustment) -> int {
    match adjustment {
        ThreadAdjustment::Keep => num_running_threads,
        ThreadAdjustment::Spawn => num_running_threads + 1,
        ThreadAdjustment::Exit => num_running_threads - 1,
    }
}

/// What the workers share besides the stages themselves.
pub struct Upmixer {
    pub window_size: usize,
    pub window_midpoint: usize,
    pub total_samples_to_write: usize,
    pub num_running_threads: usize,
}

impl Upmixer {
    pub open spec fn spec_num_running_threads(&self) -> int {
        self.num_running_threads as int
    }

    /// The shared state of an upmix that starts with one worker.
    pub fn new(window_size: usize, total_samples_to_write: usize) -> (upmixer: Self)
        ensures
            upmixer.window_size == window_size,
            upmixer.window_midpoint == window_size / 2,
            upmixer.total_samples_to_write == total_samples_to_write,
            upmixer.spec_num_running_threads() == 1,
    {
        Upmixer {
            window_size,
            window_midpoint: window_size / 2,
            total_samples_to_write,
            num_running_threads: 1,
        }
    }

    pub fn num_running_threads(&self) -> (num_running_threads: usize)
        ensures
            num_running_threads == self.spec_num_running_threads(),
    {
        self.num_running_threads
    }

    /// Decides for worker `thread_id` whether to go on, to start another
    /// worker or to end, and counts the workers accordingly.
    pub fn adjust_threads(&mut self, thread_id: usize, available_parallelism: usize) -> (adjustment:
        ThreadAdjustment)
        ensures
            adjustment == thread_adjustment(
                thread_id as int,
                old(self).spec_num_running_threads(),
                available_parallelism as int,
            ),
            final(self).spec_num_running_threads() == threads_after(
                old(self).spec_num_running_threads(),
                adjustment,
            ),
            final(self).window_size == old(self).window_size,
            final(self).window_midpoint == old(self).window_midpoint,
            final(self).total_samples_to_write == old(self).total_samples_to_write,
    {
        let num_running_threads: usize = self.num_running_threads;
        if thread_id == usize::MAX || thread_id + 1 != num_running_threads {
            ThreadAdjustment::Keep
        } else if available_parallelism < num_running_threads && num_running_threads > 1 {
            self.num_running_threads = num_running_threads - 1;
            ThreadAdjustment::Exit
        } else if available_parallelism > num_running_threads {
            self.num_running_threads = num_running_threads + 1;
            ThreadAdjustment::Spawn
        } else {
            ThreadAdjustment::Keep
        }
    }

    /// Whether a worker that has seen `total_samples_written` frames written
    /// is done: it is once every frame of the output is written.
    pub fn is_finished(&self, total_samples_written: usize) -> (finished: bool)
        ensures
            finished == (total_samples_written >= self.total_samples_to_write),
    {
        total_samples_written >= self.total_samples_to_write
    }
}

/// Whether the pipeline has come to rest with nothing more to write: the
/// averager will hand on no further window, and the panner holds no window
/// and owes no frame.
pub fn nothing_left_to_write(averaging_exhausted: bool, panner_idle: bool) -> (at_rest: bool)
    ensures
        at_rest == (averaging_exhausted && panner_idle),
{
    averaging_exhausted && panner_idle
}

/// A pipeline at rest stays at rest: the averager has no step to take, the
/// panner no window to take off its queue, and every frame that was owed is
/// written.
pub proof fn lemma_at_rest_nothing_moves<S, P: Copy>(
    averager: &PanningAverager<S, P>,
    panner: &PannerAndWriter<S, P>,
)
    requires
        averager.wf(),
        panner.wf(),
        averager.exhausted(),
        panner.queue().len() == 0,
        panner.spec_samples_planned() == panner.spec_total_samples_written(),
    ensures
        averager.due() == AveragerAction::Idle,
        panner.spec_total_samples_written() == panner.spec_samples_planned(),
        panner.spec_total_samples_written() <= panner.spec_total_samples_to_write(),
{
    averager.lemma_exhausted_is_idle();
    panner.lemma_wf_bounds();
}

/// The panner takes the windows in the order in which the averager hands
/// them on: where the panner has so far been given every window that the
/// averager handed on, the window that the averager hands on next, made
/// complete with its averaged steering vectors, is the one that the panner
/// accepts.
pub proof fn lemma_emitted_window_is_accepted<S, P: Copy>(
    averager: &PanningAverager<S, P>,
    panner: &PannerAndWriter<S, P>,
    window: &TransformedWindowAndPans<S, P>,
)
    requires
        averager.wf(),
        panner.wf(),
        averager.due() == AveragerAction::Emit,
        panner.spec_window_size() == averager.spec_window_size(),
        panner.spec_total_samples_to_write() == averager.spec_total_samples_to_write(),
        panner.expected_last_sample_ctr() == averager.spec_window_size()
            + averager.spec_windows_released(),
        window.last_sample_ctr == averager.queue()[averager.spec_window_size() / 2].last_sample_ctr,
        window.is_complete(averager.spec_window_size() / 2),
    ensures
        panner.accepts(window),
{
    averager.lemma_emission_is_in_order();
}

} // verus!
