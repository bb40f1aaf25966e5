//! The last stage of the pipeline: takes the averaged windows in order and
//! says which output frames each of them produces.
//!
//! Splitting the bins between the channels, the inverse transform and the
//! writing itself are the caller's; this module keeps the order, the
//! counters and the symmetry of the spectra.

use crate::structs::TransformedWindowAndPans;
use std::collections::VecDeque;
use vstd::prelude::*;

verus! {

/// The output frames that one window produces: `len` frames, taken from the
/// inverse transform at `first_sample_in_transform` and the positions after
/// it, written at `first_sample_ctr` and the positions after it.
#[derive(Debug, Clone, Copy, PartialEq, Eq, Structural)]
pub struct WriteSpan {
    pub first_sample_ctr: usize,
    pub first_sample_in_transform: usize,
    pub len: usize,
}

/// The frames owed for the window whose newest sample is `last_sample_ctr`.
///
/// The window that ends one window and a half into the source opens the
/// output with the lower half of its transform; the window that ends with
/// the source closes the output with the upper half of its transform; every
/// other window gives the one frame at its midpoint.
pub open spec fn write_span(
    window_size: int,
    total_samples_to_write: int,
    last_sample_ctr: int,
) -> WriteSpan {
    let midpoint = window_size / 2;
    if last_sample_ctr - midpoint == midpoint {
        WriteSpan { first_sample_ctr: 0, first_sample_in_transform: 0, len: midpoint as usize }
    } else if last_sample_ctr == total_samples_to_write - 1 {
        WriteSpan {
            first_sample_ctr: (total_samples_to_write - window_size + midpoint) as usize,
            first_sample_in_transform: midpoint as usize,
            len: (window_size - midpoint) as usize,
        }
    } else {
        WriteSpan {
            first_sample_ctr: (last_sample_ctr - midpoint) as usize,
            first_sample_in_transform: midpoint as usize,
            len: 1,
        }
    }
}

/// The output position one past the frames of `span`.
pub open spec fn span_end(span: WriteSpan) -> int {
    span.first_sample_ctr + span.len
}

/// `sample_ctr` is one of the output positions of `span`.
pub open spec fn span_holds(span: WriteSpan, sample_ctr: int) -> bool {
    span.first_sample_ctr <= sample_ctr < span_end(span)
}

/// The frames of a window lie inside its transform and inside the output.
pub proof fn lemma_write_span_fits(
    window_size: int,
    total_samples_to_write: int,
    last_sample_ctr: int,
)
    requires
        2 <= window_size <= last_sample_ctr < total_samples_to_write <= usize::MAX,
    ensures
        ({
            let span = write_span(window_size, total_samples_to_write, last_sample_ctr);
            &&& 1 <= span.len
            &&& span.first_sample_in_transform + span.len <= window_size
            &&& span_end(span) <= total_samples_to_write
        }),
{
}

/// Output positions only go up: every frame of a window lies behind every
/// frame of the window before it, so no position is written twice.
pub proof fn lemma_write_spans_ascend(
    window_size: int,
    total_samples_to_write: int,
    last_sample_ctr: int,
)
    requires
        2 <= window_size <= last_sample_ctr,
        last_sample_ctr + 1 < total_samples_to_write <= usize::MAX,
    ensures
        span_end(write_span(window_size, total_samples_to_write, last_sample_ctr)) <= write_span(
            window_size,
            total_samples_to_write,
            last_sample_ctr + 1,
        ).first_sample_ctr,
{
}

/// Which output positions the windows of a whole source produce, for an
/// even window size and a source that gives at least two windows to hand
/// on: every position but the one at the window's midpoint and the one a
/// midpoint and one before the end.
pub proof fn lemma_written_positions(
    window_size: int,
    total_samples_to_write: int,
    sample_ctr: int,
)
    requires
        2 <= window_size,
        window_size % 2 == 0,
        window_size + 2 <= total_samples_to_write <= usize::MAX,
        0 <= sample_ctr < total_samples_to_write,
    ensures
        (exists|last_sample_ctr: int|
            window_size <= last_sample_ctr < total_samples_to_write && span_holds(
                #[trigger] write_span(window_size, total_samples_to_write, last_sample_ctr),
                sample_ctr,
            )) <==> (sample_ctr != window_size / 2 && sample_ctr != total_samples_to_write - 1
            - window_size / 2),
{
    let w = window_size;
    let n = total_samples_to_write;
    let h = w / 2;
    let x = sample_ctr;
    if x != h && x != n - 1 - h {
        let c = if x < h {
            w
        } else if x >= n - h {
            n - 1
        } else {
            x + h
        };
        assert(span_holds(write_span(w, n, c), x));
    } else {
        assert forall|c: int| w <= c < n implies !span_holds(#[trigger] write_span(w, n, c), x) by {}
    }
}

/// One averaged window, taken off the queue, with the frames it owes.
pub struct WriteJob<S, P> {
    pub last_sample_ctr: usize,
    pub left_transformed: S,
    pub right_transformed: S,
    pub mono_transformed: Option<S>,
    /// The averaged steering vector of each bin.
    pub frequency_pans: Vec<P>,
    pub span: WriteSpan,
}

pub struct PannerAndWriter<S, P> {
    window_size: usize,
    window_midpoint: usize,
    total_samples_to_write: usize,
    transformed_window_and_averaged_pans_queue: VecDeque<TransformedWindowAndPans<S, P>>,
    windows_enqueued: usize,
    windows_taken: usize,
    samples_planned: usize,
    next_sample_ctr: usize,
    total_samples_written: usize,
}

impl<S, P> PannerAndWriter<S, P> {
    pub closed spec fn spec_window_size(&self) -> int {
        self.window_size as int
    }

    pub closed spec fn spec_total_samples_to_write(&self) -> int {
        self.total_samples_to_write as int
    }

    /// The averaged windows that wait to be written, oldest first.
    pub closed spec fn queue(&self) -> Seq<TransformedWindowAndPans<S, P>> {
        self.transformed_window_and_averaged_pans_queue@
    }

    /// How many windows were taken off the queue.
    pub closed spec fn spec_windows_taken(&self) -> int {
        self.windows_taken as int
    }

    /// How many frames the windows taken off the queue owe in all.
    pub closed spec fn spec_samples_planned(&self) -> int {
        self.samples_planned as int
    }

    /// The first output position that no window taken so far writes to.
    pub closed spec fn spec_next_sample_ctr(&self) -> int {
        self.next_sample_ctr as int
    }

    pub closed spec fn spec_total_samples_written(&self) -> int {
        self.total_samples_written as int
    }

    /// The sample counter that the next window to enter the queue must have.
    pub open spec fn expected_last_sample_ctr(&self) -> int {
        self.spec_window_size() + self.spec_windows_taken() + self.queue().len()
    }

    /// The panner's invariant.
    pub closed spec fn wf(&self) -> bool {
        let w = self.window_size as int;
        let h = self.window_midpoint as int;
        let n = self.total_samples_to_write as int;
        let q = self.queue();
        &&& 2 <= w <= n
        &&& h == w / 2
        &&& self.windows_enqueued == self.windows_taken + q.len()
        &&& w + self.windows_enqueued <= n
        &&& forall|i: int|
            0 <= i < q.len() ==> (#[trigger] q[i]).last_sample_ctr == w + self.windows_taken + i
                && q[i].is_complete(h)
        &&& self.total_samples_written <= self.samples_planned <= self.next_sample_ctr <= n
        &&& self.next_sample_ctr == if self.windows_taken == 0 {
            0
        } else {
            span_end(write_span(w, n, w + self.windows_taken - 1))
        }
    }

    /// What the invariant says of the counters: a window holds two samples
    /// or more and the output at least one window; the frames written are
    /// among those owed, which lie below the next free position, which lies
    /// inside the output; and the queue holds complete windows with
    /// consecutive counters, from the one that follows the last window
    /// taken, all of them inside the source.
    pub proof fn lemma_wf_bounds(&self)
        requires
            self.wf(),
        ensures
            2 <= self.spec_window_size() <= self.spec_total_samples_to_write() <= usize::MAX,
            0 <= self.spec_windows_taken(),
            0 <= self.spec_total_samples_written() <= self.spec_samples_planned()
                <= self.spec_next_sample_ctr() <= self.spec_total_samples_to_write(),
            self.expected_last_sample_ctr() <= self.spec_total_samples_to_write(),
            forall|i: int|
                0 <= i < self.queue().len() ==> {
                    &&& (#[trigger] self.queue()[i]).last_sample_ctr == self.spec_window_size()
                        + self.spec_windows_taken() + i
                    &&& self.queue()[i].last_sample_ctr < self.spec_total_samples_to_write()
                    &&& self.queue()[i].is_complete(self.spec_window_size() / 2)
                },
    {
    }

    /// A panner for windows of `window_size` samples and an output of
    /// `total_samples_to_write` frames, with nothing queued or written.
    pub fn new(window_size: usize, total_samples_to_write: usize) -> (panner: Self)
        requires
            2 <= window_size <= total_samples_to_write,
        ensures
            panner.wf(),
            panner.spec_window_size() == window_size,
            panner.spec_total_samples_to_write() == total_samples_to_write,
            panner.queue() == Seq::<TransformedWindowAndPans<S, P>>::empty(),
            panner.spec_windows_taken() == 0,
            panner.spec_samples_planned() == 0,
            panner.spec_next_sample_ctr() == 0,
            panner.spec_total_samples_written() == 0,
    {
        PannerAndWriter {
            window_size,
            window_midpoint: window_size / 2,
            total_samples_to_write,
            transformed_window_and_averaged_pans_queue: VecDeque::new(),
            windows_enqueued: 0,
            windows_taken: 0,
            samples_planned: 0,
            next_sample_ctr: 0,
            total_samples_written: 0,
        }
    }

    /// `self` differs from `pre` in its queue at most.
    pub open spec fn same_counters(&self, pre: &Self) -> bool {
        &&& self.spec_window_size() == pre.spec_window_size()
        &&& self.spec_total_samples_to_write() == pre.spec_total_samples_to_write()
        &&& self.spec_windows_taken() == pre.spec_windows_taken()
        &&& self.spec_samples_planned() == pre.spec_samples_planned()
        &&& self.spec_next_sample_ctr() == pre.spec_next_sample_ctr()
        &&& self.spec_total_samples_written() == pre.spec_total_samples_written()
    }

    /// Whether `transformed_window_and_pans` may enter the queue next: it is
    /// complete, it follows the window before it, and the source has a
    /// sample at its counter.
    pub open spec fn accepts(
        &self,
        transformed_window_and_pans: &TransformedWindowAndPans<S, P>,
    ) -> bool {
        &&& transformed_window_and_pans.is_complete(self.spec_window_size() / 2)
        &&& transformed_window_and_pans.last_sample_ctr == self.expected_last_sample_ctr()
        &&& transformed_window_and_pans.last_sample_ctr < self.spec_total_samples_to_write()
    }

    /// Appends an averaged window to the queue.
    pub fn enqueue(&mut self, transformed_window_and_pans: TransformedWindowAndPans<S, P>)
        requires
            old(self).wf(),
            old(self).accepts(&transformed_window_and_pans),
        ensures
            final(self).wf(),
            final(self).same_counters(old(self)),
            final(self).queue() == old(self).queue().push(transformed_window_and_pans),
    {
        self.transformed_window_and_averaged_pans_queue.push_back(transformed_window_and_pans);
        self.windows_enqueued = self.windows_enqueued + 1;
    }

    /// Whether `enqueue` may be called with a window that has this counter
    /// and these parts.
    pub fn can_enqueue(&self, transformed_window_and_pans: &TransformedWindowAndPans<S, P>) -> (ok:
        bool)
        requires
            self.wf(),
        ensures
            ok == self.accepts(transformed_window_and_pans),
    {
        transformed_window_and_pans.left_transformed.is_some()
            && transformed_window_and_pans.right_transformed.is_some()
            && transformed_window_and_pans.frequency_pans.len() == self.window_midpoint
            && transformed_window_and_pans.last_sample_ctr < self.total_samples_to_write
            && transformed_window_and_pans.last_sample_ctr >= self.window_size
            && transformed_window_and_pans.last_sample_ctr - self.window_size
            == self.windows_enqueued
    }

    /// Takes the oldest averaged window off the queue, with the frames that
    /// are owed for it, or `None` if the queue is empty. The frames of each
    /// window lie behind those of every window taken before it.
    pub fn perform_backwards_transform_and_write_samples(&mut self) -> (job: Option<
        WriteJob<S, P>,
    >)
        requires
            old(self).wf(),
        ensures
            final(self).wf(),
            final(self).spec_window_size() == old(self).spec_window_size(),
            final(self).spec_total_samples_to_write() == old(self).spec_total_samples_to_write(),
            final(self).spec_total_samples_written() == old(self).spec_total_samples_written(),
            job.is_none() <==> old(self).queue().len() == 0,
            job.is_none() ==> final(self).same_counters(old(self)) && final(self).queue() == old(
                self,
            ).queue(),
            job matches Some(job) ==> {
                let window = old(self).queue()[0];
                &&& final(self).queue() == old(self).queue().subrange(
                    1,
                    old(self).queue().len() as int,
                )
                &&& final(self).spec_windows_taken() == old(self).spec_windows_taken() + 1
                &&& job.last_sample_ctr == window.last_sample_ctr
                &&& job.last_sample_ctr == old(self).spec_window_size() + old(
                    self,
                ).spec_windows_taken()
                &&& window.left_transformed == Some(job.left_transformed)
                &&& window.right_transformed == Some(job.right_transformed)
                &&& job.mono_transformed == window.mono_transformed
                &&& job.frequency_pans == window.frequency_pans
                &&& job.span == write_span(
                    old(self).spec_window_size(),
                    old(self).spec_total_samples_to_write(),
                    job.last_sample_ctr as int,
                )
                &&& old(self).spec_window_size() <= job.last_sample_ctr < old(
                    self,
                ).spec_total_samples_to_write()
                &&& job.frequency_pans@.len() == old(self).spec_window_size() / 2
                &&& 1 <= job.span.len
                &&& job.span.first_sample_in_transform + job.span.len <= old(
                    self,
                ).spec_window_size()
                &&& span_end(job.span) <= old(self).spec_total_samples_to_write()
                &&& old(self).spec_next_sample_ctr() <= job.span.first_sample_ctr
                &&& final(self).spec_next_sample_ctr() == span_end(job.span)
                &&& final(self).spec_samples_planned() == old(self).spec_samples_planned()
                    + job.span.len
            },
    {
        let taken = self.transformed_window_and_averaged_pans_queue.pop_front();
        match taken {
            None => None,
            Some(window) => {
                let TransformedWindowAndPans {
                    last_sample_ctr,
                    left_transformed,
                    right_transformed,
                    mono_transformed,
                    frequency_pans,
                } = window;
                proof {
                    let w = self.window_size as int;
                    let n = self.total_samples_to_write as int;
                    lemma_write_span_fits(w, n, last_sample_ctr as int);
                    if self.windows_taken > 0 {
                        lemma_write_spans_ascend(w, n, last_sample_ctr - 1);
                    }
                    assert(self.queue() =~= old(self).queue().subrange(
                        1,
                        old(self).queue().len() as int,
                    ));
                }
                let span = plan_write_span(
                    self.window_size,
                    self.total_samples_to_write,
                    last_sample_ctr,
                );
                self.windows_taken = self.windows_taken + 1;
                self.samples_planned = self.samples_planned + span.len;
                self.next_sample_ctr = span.first_sample_ctr + span.len;
                Some(
                    WriteJob {
                        last_sample_ctr,
                        left_transformed: left_transformed.unwrap(),
                        right_transformed: right_transformed.unwrap(),
                        mono_transformed,
                        frequency_pans,
                        span,
                    },
                )
            },
        }
    }

    /// How many of the frames owed by the windows taken so far are not
    /// written yet.
    pub fn samples_pending(&self) -> (pending: usize)
        requires
            self.wf(),
        ensures
            pending == self.spec_samples_planned() - self.spec_total_samples_written(),
    {
        self.samples_planned - self.total_samples_written
    }

    /// Whether nothing is queued and every frame owed so far is written.
    pub fn is_idle(&self) -> (idle: bool)
        ensures
            idle == (self.queue().len() == 0 && self.spec_samples_planned()
                == self.spec_total_samples_written()),
    {
        self.transformed_window_and_averaged_pans_queue.len() == 0 && self.samples_planned
            == self.total_samples_written
    }

    /// Counts one frame as written.
    pub fn sample_written(&mut self)
        requires
            old(self).wf(),
            old(self).spec_total_samples_written() < old(self).spec_samples_planned(),
        ensures
            final(self).wf(),
            final(self).spec_total_samples_written() == old(self).spec_total_samples_written()
                + 1,
            final(self).queue() == old(self).queue(),
            final(self).spec_window_size() == old(self).spec_window_size(),
            final(self).spec_total_samples_to_write() == old(self).spec_total_samples_to_write(),
            final(self).spec_windows_taken() == old(self).spec_windows_taken(),
            final(self).spec_samples_planned() == old(self).spec_samples_planned(),
            final(self).spec_next_sample_ctr() == old(self).spec_next_sample_ctr(),
    {
        self.total_samples_written = self.total_samples_written + 1;
    }

    pub fn get_total_samples_written(&self) -> (total_samples_written: usize)
        ensures
            total_samples_written == self.spec_total_samples_written(),
    {
        self.total_samples_written
    }
}

/// The frames owed for the window whose newest sample is `last_sample_ctr`.
pub fn plan_write_span(
    window_size: usize,
    total_samples_to_write: usize,
    last_sample_ctr: usize,
) -> (span: WriteSpan)
    requires
        2 <= window_size <= last_sample_ctr < total_samples_to_write,
    ensures
        span == write_span(
            window_size as int,
            total_samples_to_write as int,
            last_sample_ctr as int,
        ),
{
    let window_midpoint: usize = window_size / 2;
    let sample_ctr: usize = last_sample_ctr - window_midpoint;
    if sample_ctr == window_midpoint {
        WriteSpan { first_sample_ctr: 0, first_sample_in_transform: 0, len: window_midpoint }
    } else if last_sample_ctr == total_samples_to_write - 1 {
        let first_sample_in_transform: usize = total_samples_to_write - window_size;
        WriteSpan {
            first_sample_ctr: first_sample_in_transform + window_midpoint,
            first_sample_in_transform: window_midpoint,
            len: window_size - window_midpoint,
        }
    } else {
        WriteSpan {
            first_sample_ctr: sample_ctr,
            first_sample_in_transform: window_midpoint,
            len: 1,
        }
    }
}

/// The upper half of `spectrum` mirrors its lower half: for each bin `k`
/// from 1 to just below the midpoint, bin `len - k` is the conjugate of bin
/// `k`.
pub open spec fn is_hermitian<C>(spectrum: Seq<C>, conjugate_of: spec_fn(C) -> C) -> bool {
    forall|k: int|
        1 <= k < spectrum.len() / 2 ==> spectrum[spectrum.len() - k] == conjugate_of(
            #[trigger] spectrum[k],
        )
}

/// `spectrum` with `bin` at `freq_ctr` and, below the midpoint, `conjugate`
/// at the mirrored position.
pub open spec fn with_bin<C>(spectrum: Seq<C>, freq_ctr: int, bin: C, conjugate: C) -> Seq<C> {
    if freq_ctr < spectrum.len() / 2 {
        spectrum.update(freq_ctr, bin).update(spectrum.len() - freq_ctr, conjugate)
    } else {
        spectrum.update(freq_ctr, bin)
    }
}

/// Writes `bin` at `freq_ctr` and, below the midpoint, `conjugate` at the
/// mirrored position.
pub fn set_bin<C>(spectrum: &mut Vec<C>, freq_ctr: usize, bin: C, conjugate: C)
    requires
        1 <= freq_ctr <= old(spectrum)@.len() / 2,
    ensures
        final(spectrum)@ == with_bin(old(spectrum)@, freq_ctr as int, bin, conjugate),
{
    let window_size: usize = spectrum.len();
    spectrum.set(freq_ctr, bin);
    if freq_ctr < window_size / 2 {
        spectrum.set(window_size - freq_ctr, conjugate);
    }
}

/// Writing a bin together with its conjugate keeps a spectrum's symmetry.
pub proof fn lemma_set_bin_keeps_symmetry<C>(
    spectrum: Seq<C>,
    freq_ctr: int,
    bin: C,
    conjugate_of: spec_fn(C) -> C,
)
    requires
        is_hermitian(spectrum, conjugate_of),
        1 <= freq_ctr <= spectrum.len() / 2,
    ensures
        is_hermitian(with_bin(spectrum, freq_ctr, bin, conjugate_of(bin)), conjugate_of),
{
    let written = with_bin(spectrum, freq_ctr, bin, conjugate_of(bin));
    let len = spectrum.len() as int;
    assert forall|k: int| 1 <= k < written.len() / 2 implies written[written.len() - k]
        == conjugate_of(#[trigger] written[k]) by {
        if k != freq_ctr {
            assert(written[k] == spectrum[k]);
            assert(written[len - k] == spectrum[len - k]);
        }
    }
}

/// The upper half of `spectrum` mirrors its lower half under `conjugate`:
/// for each bin `k` from 1 to just below the midpoint, bin `len - k` is
/// what `conjugate` makes of bin `k`.
pub open spec fn mirrors<C, F: Fn(C) -> C>(spectrum: Seq<C>, conjugate: F) -> bool {
    forall|k: int|
        1 <= k < spectrum.len() / 2 ==> call_ensures(
            conjugate,
            (#[trigger] spectrum[k],),
            spectrum[spectrum.len() - k],
        )
}

/// Writes every bin from 1 to the midpoint, `bins` holding them in that
/// order, and below the midpoint the conjugate of each at its mirrored
/// position. Whatever the spectrum held, its upper half then mirrors its
/// lower half; bin 0 stays as it was.
pub fn set_bins<C: Copy, F: Fn(C) -> C>(spectrum: &mut Vec<C>, bins: &Vec<C>, conjugate: F)
    requires
        bins@.len() == old(spectrum)@.len() / 2,
        forall|bin: C| call_requires(conjugate, (bin,)),
    ensures
        final(spectrum)@.len() == old(spectrum)@.len(),
        old(spectrum)@.len() > 0 ==> final(spectrum)@[0] == old(spectrum)@[0],
        forall|k: int| 1 <= k <= bins@.len() ==> #[trigger] final(spectrum)@[k] == bins@[k - 1],
        forall|k: int|
            bins@.len() < k < old(spectrum)@.len() - bins@.len() ==> #[trigger] final(spectrum)@[k]
                == old(spectrum)@[k],
        mirrors(final(spectrum)@, conjugate),
{
    let window_size: usize = spectrum.len();
    let window_midpoint: usize = window_size / 2;
    let mut freq_ctr: usize = 1;
    while freq_ctr <= window_midpoint
        invariant
            1 <= freq_ctr <= window_midpoint + 1,
            window_midpoint == window_size / 2,
            spectrum@.len() == window_size == old(spectrum)@.len(),
            bins@.len() == window_midpoint,
            forall|bin: C| call_requires(conjugate, (bin,)),
            window_size > 0 ==> spectrum@[0] == old(spectrum)@[0],
            forall|k: int| 1 <= k < freq_ctr ==> #[trigger] spectrum@[k] == bins@[k - 1],
            forall|k: int|
                freq_ctr <= k <= window_size - freq_ctr ==> #[trigger] spectrum@[k] == old(
                    spectrum,
                )@[k],
            forall|k: int|
                1 <= k < freq_ctr && k < window_midpoint ==> call_ensures(
                    conjugate,
                    (#[trigger] bins@[k - 1],),
                    spectrum@[window_size - k],
                ),
        decreases window_midpoint + 1 - freq_ctr,
    {
        let bin = bins[freq_ctr - 1];
        let ghost before = spectrum@;
        if freq_ctr < window_midpoint {
            let mirrored = conjugate(bin);
            set_bin(spectrum, freq_ctr, bin, mirrored);
        } else {
            set_bin(spectrum, freq_ctr, bin, bin);
        }
        proof {
            assert forall|k: int| 1 <= k < freq_ctr + 1 && k < window_midpoint implies call_ensures(
                conjugate,
                (#[trigger] bins@[k - 1],),
                spectrum@[window_size - k],
            ) by {
                if k < freq_ctr {
                    assert(spectrum@[window_size - k] == before[window_size - k]);
                }
            }
        }
        freq_ctr += 1;
    }
    proof {
        assert forall|k: int| 1 <= k < spectrum@.len() / 2 implies call_ensures(
            conjugate,
            (#[trigger] spectrum@[k],),
            spectrum@[spectrum@.len() - k],
        ) by {
            assert(spectrum@[k] == bins@[k - 1]);
        }
    }
}

} // verus!
