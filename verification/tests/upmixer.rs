use soft_matrix::panner_and_writer::PannerAndWriter;
use soft_matrix::panning_averager::{AveragerStep, PanningAverager};
use soft_matrix::structs::TransformedWindowAndPans;
use soft_matrix::upmixer::{
    choose_window_size, locate_in_target_files, nothing_left_to_write, num_target_files,
    TargetPosition,
    ThreadAdjustment, UpmixError, Upmixer,
};

#[test]
fn long_source_gets_the_ideal_window_size() {
    assert_eq!(Ok(5184), choose_window_size(4800, 48000));
    assert_eq!(Ok(5184), choose_window_size(4800, 5184));
    assert_eq!(Ok(2304), choose_window_size(2205, 44100));
}

#[test]
fn source_that_just_fills_the_window_is_taken() {
    assert_eq!(Ok(5184), choose_window_size(4800, 5184));
    assert_eq!(Ok(5184), choose_window_size(5184, 5184));
    assert_eq!(Ok(6), choose_window_size(0, 6));
}

#[test]
fn source_between_minimum_and_ideal_is_refused() {
    assert_eq!(
        Err(UpmixError::InputTooShort { len_samples: 5183, window_size: 5184 }),
        choose_window_size(4800, 5183)
    );
    assert_eq!(
        Err(UpmixError::InputTooShort { len_samples: 4800, window_size: 5184 }),
        choose_window_size(4800, 4800)
    );
    assert_eq!(
        Err(UpmixError::InputTooShort { len_samples: 2205, window_size: 2304 }),
        choose_window_size(2205, 2205)
    );
}

#[test]
fn source_shorter_than_the_minimum_is_refused() {
    assert_eq!(
        Err(UpmixError::InputTooShort { len_samples: 4799, window_size: 5184 }),
        choose_window_size(4800, 4799)
    );
    assert_eq!(
        Err(UpmixError::InputTooShort { len_samples: 0, window_size: 5184 }),
        choose_window_size(4800, 0)
    );
}

#[test]
fn chosen_window_size_is_even_and_recognised() {
    for min_window_size in [0usize, 6, 7, 100, 2205, 2400, 4800, 9600, 36864] {
        let window_size = choose_window_size(min_window_size, 1_000_000).unwrap();
        assert_eq!(0, window_size % 2);
        assert!(min_window_size <= window_size);
        let mut rest = window_size;
        while rest % 2 == 0 {
            rest /= 2;
        }
        while rest % 3 == 0 {
            rest /= 3;
        }
        assert_eq!(1, rest);
    }
}

#[test]
fn minimum_beyond_every_window_size_is_not_found() {
    assert_eq!(
        Err(UpmixError::NotFound { min_window_size: 48000 }),
        choose_window_size(48000, 1_000_000)
    );
}

#[test]
fn target_files_are_counted_rounding_up() {
    assert_eq!(0, num_target_files(0, 10));
    assert_eq!(1, num_target_files(1, 10));
    assert_eq!(1, num_target_files(10, 10));
    assert_eq!(2, num_target_files(11, 10));
    assert_eq!(3, num_target_files(150_000_000, 59_652_323));
}

#[test]
fn new_upmixer_runs_one_thread() {
    let upmixer = Upmixer::new(4608, 100_000);
    assert_eq!(4608, upmixer.window_size);
    assert_eq!(2304, upmixer.window_midpoint);
    assert_eq!(100_000, upmixer.total_samples_to_write);
    assert_eq!(1, upmixer.num_running_threads());
}

#[test]
fn newest_thread_spawns_while_parallelism_is_spare() {
    let mut upmixer = Upmixer::new(12, 100);
    assert_eq!(ThreadAdjustment::Spawn, upmixer.adjust_threads(0, 3));
    assert_eq!(2, upmixer.num_running_threads());
    assert_eq!(ThreadAdjustment::Keep, upmixer.adjust_threads(0, 3));
    assert_eq!(ThreadAdjustment::Spawn, upmixer.adjust_threads(1, 3));
    assert_eq!(3, upmixer.num_running_threads());
    assert_eq!(ThreadAdjustment::Keep, upmixer.adjust_threads(2, 3));
    assert_eq!(3, upmixer.num_running_threads());
}

#[test]
fn newest_thread_exits_when_parallelism_drops() {
    let mut upmixer = Upmixer::new(12, 100);
    assert_eq!(ThreadAdjustment::Spawn, upmixer.adjust_threads(0, 2));
    assert_eq!(ThreadAdjustment::Keep, upmixer.adjust_threads(0, 1));
    assert_eq!(ThreadAdjustment::Exit, upmixer.adjust_threads(1, 1));
    assert_eq!(1, upmixer.num_running_threads());
}

#[test]
fn only_thread_never_exits() {
    let mut upmixer = Upmixer::new(12, 100);
    assert_eq!(ThreadAdjustment::Keep, upmixer.adjust_threads(0, 0));
    assert_eq!(ThreadAdjustment::Keep, upmixer.adjust_threads(0, 1));
    assert_eq!(1, upmixer.num_running_threads());
    assert_eq!(ThreadAdjustment::Keep, upmixer.adjust_threads(usize::MAX, 8));
}

#[test]
fn worker_is_finished_once_every_sample_is_written() {
    let upmixer = Upmixer::new(12, 100);
    assert!(!upmixer.is_finished(0));
    assert!(!upmixer.is_finished(98));
    assert!(!upmixer.is_finished(99));
    assert!(upmixer.is_finished(100));
    assert!(upmixer.is_finished(101));
}

#[test]
fn worker_is_finished_once_nothing_is_left_to_write() {
    assert!(nothing_left_to_write(true, true));
    assert!(!nothing_left_to_write(false, true));
    assert!(!nothing_left_to_write(true, false));
    assert!(!nothing_left_to_write(false, false));
}

#[test]
fn frames_fill_the_target_files_one_after_the_other() {
    assert_eq!(
        TargetPosition { file_ctr: 0, sample_in_file: 0 },
        locate_in_target_files(0, 25, 10)
    );
    assert_eq!(
        TargetPosition { file_ctr: 0, sample_in_file: 9 },
        locate_in_target_files(9, 25, 10)
    );
    assert_eq!(
        TargetPosition { file_ctr: 1, sample_in_file: 0 },
        locate_in_target_files(10, 25, 10)
    );
    assert_eq!(
        TargetPosition { file_ctr: 2, sample_in_file: 4 },
        locate_in_target_files(24, 25, 10)
    );
    for sample_ctr in 0..25 {
        assert!(locate_in_target_files(sample_ctr, 25, 10).file_ctr < num_target_files(25, 10));
    }
}

// Runs the two later stages over a whole source; gives the positions written
// and whether the run came to rest before every sample was counted.
fn run_stages(window_size: usize, total_samples_to_write: usize) -> (Vec<usize>, bool) {
    let upmixer = Upmixer::new(window_size, total_samples_to_write);
    let mut averager: PanningAverager<u8, u8> =
        PanningAverager::new(window_size, total_samples_to_write);
    let mut panner: PannerAndWriter<u8, u8> =
        PannerAndWriter::new(window_size, total_samples_to_write);
    let mut written = Vec::new();
    for last_sample_ctr in window_size - 1..total_samples_to_write {
        assert!(!nothing_left_to_write(averager.is_exhausted(), panner.is_idle()));
        assert!(!upmixer.is_finished(panner.get_total_samples_written()));
        averager.enqueue_transformed_window_and_pans(TransformedWindowAndPans {
            last_sample_ctr,
            left_transformed: Some(1),
            right_transformed: Some(2),
            mono_transformed: None,
            frequency_pans: vec![0; window_size / 2],
        });
        loop {
            match averager.enqueue_and_average() {
                AveragerStep::Idle => break,
                AveragerStep::Emit {
                    last_sample_ctr,
                    left_transformed,
                    right_transformed,
                    mono_transformed,
                    ..
                } => {
                    let averaged = TransformedWindowAndPans {
                        last_sample_ctr,
                        left_transformed: Some(left_transformed),
                        right_transformed: Some(right_transformed),
                        mono_transformed,
                        frequency_pans: vec![0; window_size / 2],
                    };
                    assert!(panner.can_enqueue(&averaged));
                    panner.enqueue(averaged);
                    assert!(!nothing_left_to_write(averager.is_exhausted(), panner.is_idle()));
                }
                _ => {}
            }
        }
        while let Some(job) = panner.perform_backwards_transform_and_write_samples() {
            assert!(!nothing_left_to_write(averager.is_exhausted(), panner.is_idle()));
            for offset in 0..job.span.len {
                written.push(job.span.first_sample_ctr + offset);
                panner.sample_written();
            }
        }
    }
    assert_eq!(written.len(), panner.get_total_samples_written());
    assert!(nothing_left_to_write(averager.is_exhausted(), panner.is_idle()));
    (written, !upmixer.is_finished(panner.get_total_samples_written()))
}

#[test]
fn run_comes_to_rest_with_two_positions_unwritten() {
    let (written, short) = run_stages(8, 40);
    let expected: Vec<usize> = (0..40).filter(|position| *position != 4 && *position != 35).collect();
    assert_eq!(expected, written);
    assert!(short);
}

#[test]
fn run_over_a_short_source_comes_to_rest_with_nothing_written() {
    for total_samples_to_write in [8usize, 10, 12] {
        let (written, short) = run_stages(8, total_samples_to_write);
        assert!(written.is_empty());
        assert!(short);
    }
}
