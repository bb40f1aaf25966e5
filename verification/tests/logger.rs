use soft_matrix::logger::{Logger, LoggingState, Progress};

#[test]
fn first_report_is_due_at_once() {
    let mut logger = Logger::new(100, 1000, 5000);
    assert_eq!(
        LoggingState { started: 5000, next_log: 5000, logging_frequency: 100 },
        logger.logging_state
    );
    assert_eq!(
        Some(Progress {
            elapsed: 0,
            total_samples_read: 11,
            total_samples_written: 0,
            total_samples_to_write: 1000
        }),
        logger.log_status(5000, 11, 0)
    );
    assert_eq!(5100, logger.logging_state.next_log);
}

#[test]
fn no_report_before_the_next_is_due() {
    let mut logger = Logger::new(100, 1000, 5000);
    assert!(logger.log_status(5000, 11, 0).is_some());
    assert_eq!(None, logger.log_status(5099, 50, 20));
    assert_eq!(5100, logger.logging_state.next_log);
    assert_eq!(
        Some(Progress {
            elapsed: 100,
            total_samples_read: 60,
            total_samples_written: 30,
            total_samples_to_write: 1000
        }),
        logger.log_status(5100, 60, 30)
    );
    assert_eq!(5200, logger.logging_state.next_log);
}

#[test]
fn next_report_time_stops_at_the_end_of_time() {
    let mut logger = Logger::new(100, 1000, u64::MAX - 10);
    assert!(logger.log_status(u64::MAX - 10, 0, 0).is_some());
    assert_eq!(u64::MAX, logger.logging_state.next_log);
}

#[test]
fn clock_behind_the_start_counts_as_no_time() {
    let logger = Logger::new(100, 1000, 5000);
    assert_eq!(0, logger.finish_logging(4000));
    assert_eq!(2500, logger.finish_logging(7500));
}
