use soft_matrix::panner_and_writer::{
    plan_write_span, set_bin, set_bins, PannerAndWriter, WriteSpan,
};
use soft_matrix::structs::TransformedWindowAndPans;

type Window = TransformedWindowAndPans<Vec<f32>, (f32, f32)>;

fn window(last_sample_ctr: usize, window_size: usize) -> Window {
    TransformedWindowAndPans {
        last_sample_ctr,
        left_transformed: Some(vec![last_sample_ctr as f32; window_size]),
        right_transformed: Some(vec![-(last_sample_ctr as f32); window_size]),
        mono_transformed: None,
        frequency_pans: vec![(0.25, 0.5); window_size / 2],
    }
}

fn written_positions(window_size: usize, total_samples_to_write: usize) -> Vec<usize> {
    let mut positions = Vec::new();
    for last_sample_ctr in window_size..total_samples_to_write {
        let span = plan_write_span(window_size, total_samples_to_write, last_sample_ctr);
        assert!(span.first_sample_in_transform + span.len <= window_size);
        positions.extend(span.first_sample_ctr..span.first_sample_ctr + span.len);
    }
    positions
}

#[test]
fn first_window_gives_the_lower_half_of_its_transform() {
    assert_eq!(
        WriteSpan { first_sample_ctr: 0, first_sample_in_transform: 0, len: 4 },
        plan_write_span(8, 40, 8)
    );
    assert_eq!(
        WriteSpan { first_sample_ctr: 0, first_sample_in_transform: 0, len: 2430 },
        plan_write_span(4860, 48000, 4860)
    );
}

#[test]
fn last_window_gives_the_upper_half_of_its_transform() {
    assert_eq!(
        WriteSpan { first_sample_ctr: 36, first_sample_in_transform: 4, len: 4 },
        plan_write_span(8, 40, 39)
    );
    assert_eq!(
        WriteSpan { first_sample_ctr: 45570, first_sample_in_transform: 2430, len: 2430 },
        plan_write_span(4860, 48000, 47999)
    );
}

#[test]
fn other_windows_give_their_midpoint() {
    assert_eq!(
        WriteSpan { first_sample_ctr: 5, first_sample_in_transform: 4, len: 1 },
        plan_write_span(8, 40, 9)
    );
    assert_eq!(
        WriteSpan { first_sample_ctr: 34, first_sample_in_transform: 4, len: 1 },
        plan_write_span(8, 40, 38)
    );
    assert_eq!(
        WriteSpan { first_sample_ctr: 17570, first_sample_in_transform: 2430, len: 1 },
        plan_write_span(4860, 48000, 20000)
    );
}

#[test]
fn window_that_is_first_and_last_counts_as_first() {
    assert_eq!(
        WriteSpan { first_sample_ctr: 0, first_sample_in_transform: 0, len: 4 },
        plan_write_span(8, 9, 8)
    );
}

#[test]
fn odd_window_size_has_no_opening_half() {
    assert_eq!(
        WriteSpan { first_sample_ctr: 5, first_sample_in_transform: 4, len: 1 },
        plan_write_span(9, 40, 9)
    );
    assert_eq!(
        WriteSpan { first_sample_ctr: 35, first_sample_in_transform: 4, len: 5 },
        plan_write_span(9, 40, 39)
    );
}

#[test]
fn positions_are_written_in_rising_order_and_once() {
    for (window_size, total_samples_to_write) in [(8, 40), (8, 10), (12, 100), (9, 50), (2, 7)] {
        let positions = written_positions(window_size, total_samples_to_write);
        for pair in positions.windows(2) {
            assert!(pair[0] < pair[1]);
        }
        assert!(*positions.last().unwrap() < total_samples_to_write);
    }
}

#[test]
fn every_position_but_two_is_written() {
    for (window_size, total_samples_to_write) in [(8usize, 40usize), (8, 10), (12, 100), (6, 8)] {
        let midpoint = window_size / 2;
        let expected: Vec<usize> = (0..total_samples_to_write)
            .filter(|position| {
                *position != midpoint && *position != total_samples_to_write - 1 - midpoint
            })
            .collect();
        assert_eq!(expected, written_positions(window_size, total_samples_to_write));
    }
}

#[test]
fn new_panner_has_written_nothing() {
    let mut panner: PannerAndWriter<Vec<f32>, (f32, f32)> = PannerAndWriter::new(8, 40);
    assert_eq!(0, panner.get_total_samples_written());
    assert_eq!(0, panner.samples_pending());
    assert!(panner.perform_backwards_transform_and_write_samples().is_none());
}

#[test]
fn panner_accepts_the_windows_in_order_only() {
    let mut panner: PannerAndWriter<Vec<f32>, (f32, f32)> = PannerAndWriter::new(8, 40);
    assert!(!panner.can_enqueue(&window(7, 8)));
    assert!(!panner.can_enqueue(&window(9, 8)));
    assert!(panner.can_enqueue(&window(8, 8)));
    panner.enqueue(window(8, 8));
    assert!(!panner.can_enqueue(&window(8, 8)));
    assert!(panner.can_enqueue(&window(9, 8)));
    let mut incomplete = window(9, 8);
    incomplete.right_transformed = None;
    assert!(!panner.can_enqueue(&incomplete));
    let mut short = window(9, 8);
    short.frequency_pans.pop();
    assert!(!panner.can_enqueue(&short));
}

#[test]
fn panner_refuses_windows_beyond_the_source() {
    let mut panner: PannerAndWriter<Vec<f32>, (f32, f32)> = PannerAndWriter::new(8, 10);
    panner.enqueue(window(8, 8));
    panner.enqueue(window(9, 8));
    assert!(!panner.can_enqueue(&window(10, 8)));
}

#[test]
fn jobs_come_out_in_order_with_their_spans() {
    let mut panner: PannerAndWriter<Vec<f32>, (f32, f32)> = PannerAndWriter::new(8, 12);
    for last_sample_ctr in 8..12 {
        assert!(panner.can_enqueue(&window(last_sample_ctr, 8)));
        panner.enqueue(window(last_sample_ctr, 8));
    }
    let mut written = Vec::new();
    let mut counters = Vec::new();
    while let Some(job) = panner.perform_backwards_transform_and_write_samples() {
        assert_eq!(vec![job.last_sample_ctr as f32; 8], job.left_transformed);
        assert_eq!(vec![-(job.last_sample_ctr as f32); 8], job.right_transformed);
        assert_eq!(None, job.mono_transformed);
        assert_eq!(vec![(0.25, 0.5); 4], job.frequency_pans);
        assert_eq!(job.span, plan_write_span(8, 12, job.last_sample_ctr));
        assert_eq!(job.span.len, panner.samples_pending());
        for sample_ctr in job.span.first_sample_ctr..job.span.first_sample_ctr + job.span.len {
            written.push(sample_ctr);
            panner.sample_written();
        }
        assert_eq!(0, panner.samples_pending());
        assert_eq!(written.len(), panner.get_total_samples_written());
        counters.push(job.last_sample_ctr);
    }
    assert_eq!(vec![8, 9, 10, 11], counters);
    assert_eq!(vec![0, 1, 2, 3, 5, 6, 8, 9, 10, 11], written);
    assert_eq!(10, panner.get_total_samples_written());
}

#[test]
fn bin_below_the_midpoint_is_mirrored() {
    let mut spectrum = vec![(0.0f32, 0.0f32); 8];
    set_bin(&mut spectrum, 1, (1.0, 2.0), (1.0, -2.0));
    set_bin(&mut spectrum, 3, (3.0, 4.0), (3.0, -4.0));
    assert_eq!(
        vec![
            (0.0, 0.0),
            (1.0, 2.0),
            (0.0, 0.0),
            (3.0, 4.0),
            (0.0, 0.0),
            (3.0, -4.0),
            (0.0, 0.0),
            (1.0, -2.0)
        ],
        spectrum
    );
}

#[test]
fn bin_at_the_midpoint_stands_alone() {
    let mut spectrum = vec![(0.0f32, 0.0f32); 8];
    set_bin(&mut spectrum, 4, (5.0, 6.0), (5.0, -6.0));
    let mut expected = vec![(0.0f32, 0.0f32); 8];
    expected[4] = (5.0, 6.0);
    assert_eq!(expected, spectrum);
    let mut odd = vec![0i32; 9];
    set_bin(&mut odd, 4, 7, -7);
    assert_eq!(vec![0, 0, 0, 0, 7, 0, 0, 0, 0], odd);
    set_bin(&mut odd, 3, 5, -5);
    assert_eq!(vec![0, 0, 0, 5, 7, 0, -5, 0, 0], odd);
}

#[test]
fn mirrored_writes_keep_the_spectrum_symmetric() {
    let mut spectrum = vec![(0.0f32, 0.0f32); 12];
    for freq_ctr in 1..=6 {
        let bin = (freq_ctr as f32, 0.5 * freq_ctr as f32);
        set_bin(&mut spectrum, freq_ctr, bin, (bin.0, -bin.1));
        for k in 1..6 {
            assert_eq!(spectrum[12 - k], (spectrum[k].0, -spectrum[k].1));
        }
    }
}

fn conjugate(bin: (f32, f32)) -> (f32, f32) {
    (bin.0, -bin.1)
}

#[test]
fn all_bins_are_written_with_their_mirrors() {
    let mut spectrum = vec![(9.0f32, 9.0f32); 8];
    let bins = vec![(1.0, 2.0), (3.0, 4.0), (5.0, 6.0), (7.0, 8.0)];
    set_bins(&mut spectrum, &bins, conjugate);
    assert_eq!(
        vec![
            (9.0, 9.0),
            (1.0, 2.0),
            (3.0, 4.0),
            (5.0, 6.0),
            (7.0, 8.0),
            (5.0, -6.0),
            (3.0, -4.0),
            (1.0, -2.0)
        ],
        spectrum
    );
}

#[test]
fn spectrum_is_symmetric_after_all_bins_are_written() {
    for window_size in [2usize, 6, 8, 12, 54] {
        let mut spectrum: Vec<(f32, f32)> =
            (0..window_size).map(|k| (100.0 + k as f32, 200.0 - k as f32)).collect();
        let bins: Vec<(f32, f32)> =
            (1..=window_size / 2).map(|k| (k as f32, 0.25 * k as f32)).collect();
        set_bins(&mut spectrum, &bins, |bin: (f32, f32)| (bin.0, -bin.1));
        assert_eq!((100.0, 200.0), spectrum[0]);
        for k in 1..=window_size / 2 {
            assert_eq!(bins[k - 1], spectrum[k]);
        }
        for k in 1..window_size / 2 {
            assert_eq!(spectrum[window_size - k].0, spectrum[k].0);
            assert_eq!(spectrum[window_size - k].1, -spectrum[k].1);
        }
    }
}

#[test]
fn odd_spectrum_keeps_the_bin_above_its_midpoint() {
    let mut spectrum = vec![0i32, 10, 20, 30, 40, 50, 60];
    set_bins(&mut spectrum, &vec![1, 2, 3], |bin: i32| -bin);
    assert_eq!(vec![0, 1, 2, 3, 40, -2, -1], spectrum);
}

#[test]
fn spectrum_without_bins_stays_as_it_is() {
    let mut spectrum = vec![7i32];
    set_bins(&mut spectrum, &Vec::new(), |bin: i32| -bin);
    assert_eq!(vec![7], spectrum);
    let mut empty: Vec<i32> = Vec::new();
    set_bins(&mut empty, &Vec::new(), |bin: i32| -bin);
    assert!(empty.is_empty());
}

#[test]
fn job_lies_inside_its_window_and_the_output() {
    let mut panner: PannerAndWriter<Vec<f32>, (f32, f32)> = PannerAndWriter::new(8, 30);
    for last_sample_ctr in 8..30 {
        panner.enqueue(window(last_sample_ctr, 8));
    }
    while let Some(job) = panner.perform_backwards_transform_and_write_samples() {
        assert!(8 <= job.last_sample_ctr && job.last_sample_ctr < 30);
        assert_eq!(4, job.frequency_pans.len());
        assert!(1 <= job.span.len);
        assert!(job.span.first_sample_in_transform + job.span.len <= 8);
        assert!(job.span.first_sample_ctr + job.span.len <= 30);
    }
}
