//! Smooths the steering vectors over time with a moving average whose
//! length, for each bin, is that bin's wavelength in samples.
//!
//! The averager owns the windows on their way from the forward transform to
//! the panner: it puts them back in order, keeps the queue that the averages
//! run over, and says which steering vectors enter and leave each bin's
//! average. The arithmetic on the steering vectors is the caller's.

use crate::structs::TransformedWindowAndPans;
use std::collections::HashMap;
use std::collections::VecDeque;
use vstd::prelude::*;

verus! {

/// The length, in samples, of the averaging window of bin `bin`.
pub open spec fn wavelength(window_size: int, bin: int) -> int {
    window_size / bin
}

/// The first queue position inside the averaging window of bin `bin`.
pub open spec fn average_lower_bound(window_size: int, bin: int) -> int {
    (window_size - wavelength(window_size, bin)) / 2
}

/// The last queue position inside the averaging window of bin `bin`.
pub open spec fn average_upper_bound(window_size: int, bin: int) -> int {
    average_lower_bound(window_size, bin) + wavelength(window_size, bin) - 1
}

/// Every averaging window lies inside the queue's first `window_size`
/// positions and holds the position of the window that is handed on.
pub proof fn lemma_average_bounds(window_size: int, bin: int)
    requires
        1 <= bin <= window_size / 2,
    ensures
        2 <= wavelength(window_size, bin) <= window_size,
        0 <= average_lower_bound(window_size, bin) <= window_size / 2,
        window_size / 2 <= average_upper_bound(window_size, bin) <= window_size - 1,
{
    let l = window_size / bin;
    assert(2 <= l <= window_size) by (nonlinear_arith)
        requires
            1 <= bin,
            2 * bin <= window_size,
            l == window_size / bin,
    ;
}

/// The steering vectors of bin index `b` in the `len` windows of `queue`
/// from position `first` on.
pub open spec fn pans_in<S, P>(
    queue: Seq<TransformedWindowAndPans<S, P>>,
    b: int,
    first: int,
    len: int,
) -> Seq<P> {
    Seq::new(len as nat, |t: int| queue[first + t].frequency_pans@[b])
}

/// The contents of each vector of `spans`.
pub open spec fn views_of<P>(spans: Seq<Vec<P>>) -> Seq<Seq<P>> {
    Seq::new(spans.len(), |b: int| spans[b]@)
}

/// Where the averager stands between two calls.
#[derive(Debug, Clone, Copy, PartialEq, Eq, Structural)]
pub enum AveragingPhase {
    /// The queue is still filling; the averages have not been initialised.
    Filling,
    /// The averages hold every position of their windows but the last.
    Ready,
    /// The averages hold their whole windows; a window is due to be handed on.
    Accumulated,
    /// A window was handed on; the oldest position is due to leave the averages.
    Emitted,
    /// The last window was handed on.
    Complete,
}

/// The kinds of step that the averager takes.
#[derive(Debug, Clone, Copy, PartialEq, Eq, Structural)]
pub enum AveragerAction {
    Idle,
    Enqueue,
    Seed,
    Accumulate,
    Emit,
    Release,
}

/// What one call of `enqueue_and_average` did, with what the caller needs
/// to keep the running averages and to pass the window on.
pub enum AveragerStep<S, P> {
    /// Nothing can be done until more windows are staged.
    Idle,
    /// A staged window entered the queue.
    Enqueued,
    /// The running averages start out as, for each bin, the sum of these
    /// steering vectors, each weighted by one over the bin's wavelength.
    Seed { spans: Vec<Vec<P>> },
    /// For each bin, the steering vector that enters its running average.
    Accumulate { contributions: Vec<P> },
    /// The window that goes to the panner, with the running averages as they
    /// stand. Its spectra were moved out of the queue.
    Emit {
        last_sample_ctr: usize,
        left_transformed: S,
        right_transformed: S,
        mono_transformed: Option<S>,
        is_last: bool,
    },
    /// For each bin, the steering vector that leaves its running average.
    Release { contributions: Vec<P> },
}

pub struct PanningAverager<S, P> {
    window_size: usize,
    window_midpoint: usize,
    total_samples_to_write: usize,
    average_last_sample_ctr_lower_bounds: Vec<usize>,
    average_last_sample_ctr_upper_bounds: Vec<usize>,
    wavelengths: Vec<usize>,
    transformed_window_and_pans_by_sample: HashMap<usize, TransformedWindowAndPans<S, P>>,
    next_last_sample_ctr_to_enqueue: usize,
    transformed_window_and_pans_queue: VecDeque<TransformedWindowAndPans<S, P>>,
    windows_released: usize,
    phase: AveragingPhase,
    accumulated: Ghost<Seq<Seq<P>>>,
}

impl<S, P: Copy> PanningAverager<S, P> {
    pub closed spec fn spec_window_size(&self) -> int {
        self.window_size as int
    }

    pub closed spec fn spec_total_samples_to_write(&self) -> int {
        self.total_samples_to_write as int
    }

    /// The windows that wait to be put in order, by their sample counter.
    pub closed spec fn staged(&self) -> Map<usize, TransformedWindowAndPans<S, P>> {
        self.transformed_window_and_pans_by_sample@
    }

    /// The queue that the averages run over, oldest window first.
    pub closed spec fn queue(&self) -> Seq<TransformedWindowAndPans<S, P>> {
        self.transformed_window_and_pans_queue@
    }

    /// The sample counter of the window that enters the queue next.
    pub closed spec fn spec_next_last_sample_ctr_to_enqueue(&self) -> int {
        self.next_last_sample_ctr_to_enqueue as int
    }

    /// How many windows have left the front of the queue.
    pub closed spec fn spec_windows_released(&self) -> int {
        self.windows_released as int
    }

    pub closed spec fn spec_phase(&self) -> AveragingPhase {
        self.phase
    }

    /// For each bin, the steering vectors that its running average holds,
    /// oldest first.
    pub closed spec fn accumulated(&self) -> Seq<Seq<P>> {
        self.accumulated@
    }

    /// The steering vectors of bin index `b` at `len` queue positions from
    /// `first` on.
    pub open spec fn pans_in_queue(&self, b: int, first: int, len: int) -> Seq<P> {
        pans_in(self.queue(), b, first, len)
    }

    pub open spec fn is_seeded(&self) -> bool {
        self.spec_phase() == AveragingPhase::Ready || self.spec_phase()
            == AveragingPhase::Accumulated || self.spec_phase() == AveragingPhase::Emitted
    }

    spec fn bounds_wf(&self) -> bool {
        let w = self.window_size as int;
        let h = self.window_midpoint as int;
        &&& self.wavelengths@.len() == h
        &&& self.average_last_sample_ctr_lower_bounds@.len() == h
        &&& self.average_last_sample_ctr_upper_bounds@.len() == h
        &&& forall|b: int|
            0 <= b < h ==> (#[trigger] self.wavelengths@[b]) == wavelength(w, b + 1)
        &&& forall|b: int|
            0 <= b < h ==> (#[trigger] self.average_last_sample_ctr_lower_bounds@[b])
                == average_lower_bound(w, b + 1)
        &&& forall|b: int|
            0 <= b < h ==> (#[trigger] self.average_last_sample_ctr_upper_bounds@[b])
                == average_upper_bound(w, b + 1)
    }

    spec fn queue_wf(&self) -> bool {
        let w = self.window_size as int;
        let h = self.window_midpoint as int;
        let n = self.total_samples_to_write as int;
        let next = self.next_last_sample_ctr_to_enqueue as int;
        let r = self.windows_released as int;
        let q = self.queue();
        let taken = if self.phase == AveragingPhase::Emitted {
            w + r + 1
        } else {
            w + r
        };
        if self.phase == AveragingPhase::Complete {
            q.len() == 0
        } else if next == w - 1 {
            q.len() == 0 && r == 0
        } else {
            &&& q.len() + r == (h - 1) + (next - (w - 1)) + (if next == n {
                h
            } else {
                0
            })
            &&& forall|i: int|
                0 <= i < q.len() ==> {
                    &&& (#[trigger] q[i]).frequency_pans@.len() == h
                    &&& (r + i < h - 1 ==> q[i].last_sample_ctr == 0)
                    &&& (r + i >= h - 1 ==> q[i].last_sample_ctr == w - 1 + (r + i - (h - 1)))
                    &&& (r + i >= h - 1 && taken <= q[i].last_sample_ctr < next ==> {
                        &&& q[i].left_transformed.is_some()
                        &&& q[i].right_transformed.is_some()
                    })
                }
        }
    }

    spec fn phase_wf(&self) -> bool {
        let w = self.window_size as int;
        let h = self.window_midpoint as int;
        let n = self.total_samples_to_write as int;
        let next = self.next_last_sample_ctr_to_enqueue as int;
        let r = self.windows_released as int;
        let q = self.queue();
        match self.phase {
            AveragingPhase::Filling => r == 0 && next <= w + h + 1,
            AveragingPhase::Complete => next >= w + h + 1,
            _ => {
                &&& next >= w + h + 1
                &&& w + r <= n - 1
                &&& (self.phase == AveragingPhase::Emitted ==> w + r < n - 1)
                &&& q.len() >= (if self.phase == AveragingPhase::Ready {
                    w - 1
                } else {
                    w
                })
                &&& self.accumulated@.len() == h
                &&& forall|b: int|
                    0 <= b < h ==> (#[trigger] self.accumulated@[b]) == self.pans_in_queue(
                        b,
                        average_lower_bound(w, b + 1),
                        if self.phase == AveragingPhase::Ready {
                            wavelength(w, b + 1) - 1
                        } else {
                            wavelength(w, b + 1)
                        },
                    )
            },
        }
    }

    /// The averager's invariant.
    pub closed spec fn wf(&self) -> bool {
        let w = self.window_size as int;
        let h = self.window_midpoint as int;
        let n = self.total_samples_to_write as int;
        let next = self.next_last_sample_ctr_to_enqueue as int;
        &&& w >= 2
        &&& h == w / 2
        &&& w + w + n <= usize::MAX
        &&& w - 1 <= next
        &&& (next > w - 1 ==> next <= n)
        &&& self.bounds_wf()
        &&& forall|k: usize| #[trigger]
            self.staged().contains_key(k) ==> self.staged()[k].last_sample_ctr == k
                && self.staged()[k].is_complete(h)
        &&& self.queue_wf()
        &&& self.phase_wf()
    }

    /// What the next call of `enqueue_and_average` does.
    pub open spec fn due(&self) -> AveragerAction {
        let w = self.spec_window_size();
        let n = self.spec_total_samples_to_write();
        let next = self.spec_next_last_sample_ctr_to_enqueue();
        let staged_next = next < n && self.staged().contains_key(next as usize);
        match self.spec_phase() {
            AveragingPhase::Complete => AveragerAction::Idle,
            AveragingPhase::Accumulated => AveragerAction::Emit,
            AveragingPhase::Emitted => AveragerAction::Release,
            AveragingPhase::Filling => if next == w + w / 2 + 1 {
                AveragerAction::Seed
            } else if staged_next {
                AveragerAction::Enqueue
            } else {
                AveragerAction::Idle
            },
            AveragingPhase::Ready => if staged_next {
                AveragerAction::Enqueue
            } else if self.queue().len() >= w {
                AveragerAction::Accumulate
            } else {
                AveragerAction::Idle
            },
        }
    }

    /// `self` and `pre` were made for the same window size and source length.
    pub open spec fn same_config(&self, pre: &Self) -> bool {
        &&& self.spec_window_size() == pre.spec_window_size()
        &&& self.spec_total_samples_to_write() == pre.spec_total_samples_to_write()
    }

    /// `self` is `pre` after the staged window whose turn it is has entered
    /// the queue: behind `window_size / 2 - 1` stand-ins if it is the first
    /// window, and before `window_size / 2` stand-ins if it is the last. The
    /// stand-ins carry its steering vectors.
    pub open spec fn enqueued_from(&self, pre: &Self) -> bool {
        let w = pre.spec_window_size();
        let h = w / 2;
        let n = pre.spec_total_samples_to_write();
        let next = pre.spec_next_last_sample_ctr_to_enqueue();
        let window = pre.staged()[next as usize];
        let before = pre.queue().len() as int;
        let leading = if next == w - 1 {
            h - 1
        } else {
            0
        };
        let trailing = if next == n - 1 {
            h
        } else {
            0
        };
        &&& self.same_config(pre)
        &&& self.staged() == pre.staged().remove(next as usize)
        &&& self.spec_next_last_sample_ctr_to_enqueue() == next + 1
        &&& self.spec_windows_released() == pre.spec_windows_released()
        &&& self.spec_phase() == pre.spec_phase()
        &&& self.accumulated() == pre.accumulated()
        &&& self.queue().len() == before + leading + 1 + trailing
        &&& forall|i: int| 0 <= i < before ==> #[trigger] self.queue()[i] == pre.queue()[i]
        &&& forall|i: int|
            before <= i < before + leading ==> (#[trigger] self.queue()[i]).is_placeholder(
                0,
                window.frequency_pans@,
            )
        &&& self.queue()[before + leading] == window
        &&& forall|i: int|
            before + leading < i < self.queue().len() ==> (#[trigger] self.queue()[i]).is_placeholder(
                n + (i - (before + leading + 1)),
                window.frequency_pans@,
            )
    }

    /// `self` is `pre` but for the queue, the phase and the running averages.
    pub open spec fn same_intake(&self, pre: &Self) -> bool {
        &&& self.same_config(pre)
        &&& self.staged() == pre.staged()
        &&& self.spec_next_last_sample_ctr_to_enqueue()
            == pre.spec_next_last_sample_ctr_to_enqueue()
    }

    /// `self` is `pre` after the running averages were started from
    /// `contributions`: for each bin, the steering vectors at the queue
    /// positions from its lower bound up to the one before its upper bound.
    pub open spec fn seeded_from(&self, pre: &Self, contributions: Seq<Seq<P>>) -> bool {
        let w = pre.spec_window_size();
        &&& self.same_intake(pre)
        &&& self.queue() == pre.queue()
        &&& self.spec_windows_released() == pre.spec_windows_released()
        &&& self.spec_phase() == AveragingPhase::Ready
        &&& self.accumulated() == contributions
        &&& contributions.len() == w / 2
        &&& forall|b: int|
            0 <= b < w / 2 ==> (#[trigger] contributions[b]) == pre.pans_in_queue(
                b,
                average_lower_bound(w, b + 1),
                wavelength(w, b + 1) - 1,
            )
    }

    /// `self` is `pre` after each bin's running average took in its
    /// steering vector at the queue position of the bin's upper bound.
    pub open spec fn accumulated_from(&self, pre: &Self, contributions: Seq<P>) -> bool {
        let w = pre.spec_window_size();
        &&& self.same_intake(pre)
        &&& self.queue() == pre.queue()
        &&& self.spec_windows_released() == pre.spec_windows_released()
        &&& self.spec_phase() == AveragingPhase::Accumulated
        &&& contributions.len() == w / 2
        &&& self.accumulated().len() == w / 2
        &&& forall|b: int|
            0 <= b < w / 2 ==> {
                &&& (#[trigger] contributions[b]) == pre.queue()[average_upper_bound(
                    w,
                    b + 1,
                )].frequency_pans@[b]
                &&& self.accumulated()[b] == pre.accumulated()[b].push(contributions[b])
            }
    }

    /// `self` is `pre` after the window in the middle of the queue gave up
    /// its spectra. The last window of the source ends the averaging and
    /// empties the queue.
    pub open spec fn emitted_from(
        &self,
        pre: &Self,
        last_sample_ctr: usize,
        left_transformed: S,
        right_transformed: S,
        mono_transformed: Option<S>,
        is_last: bool,
    ) -> bool {
        let w = pre.spec_window_size();
        let h = w / 2;
        let window = pre.queue()[h];
        &&& self.same_intake(pre)
        &&& self.spec_windows_released() == pre.spec_windows_released()
        &&& self.accumulated() == pre.accumulated()
        &&& last_sample_ctr == window.last_sample_ctr
        &&& last_sample_ctr == w + pre.spec_windows_released()
        &&& window.left_transformed == Some(left_transformed)
        &&& window.right_transformed == Some(right_transformed)
        &&& window.mono_transformed == mono_transformed
        &&& is_last == (last_sample_ctr == pre.spec_total_samples_to_write() - 1)
        &&& if is_last {
            &&& self.spec_phase() == AveragingPhase::Complete
            &&& self.queue().len() == 0
        } else {
            &&& self.spec_phase() == AveragingPhase::Emitted
            &&& self.queue().len() == pre.queue().len()
            &&& forall|i: int|
                0 <= i < pre.queue().len() && i != h ==> #[trigger] self.queue()[i]
                    == pre.queue()[i]
            &&& self.queue()[h].is_placeholder(last_sample_ctr as int, window.frequency_pans@)
        }
    }

    /// `self` is `pre` after each bin's running average gave up its
    /// steering vector at the queue position of the bin's lower bound, and
    /// the oldest window left the queue.
    pub open spec fn released_from(&self, pre: &Self, contributions: Seq<P>) -> bool {
        let w = pre.spec_window_size();
        &&& self.same_intake(pre)
        &&& self.queue() == pre.queue().subrange(1, pre.queue().len() as int)
        &&& self.spec_windows_released() == pre.spec_windows_released() + 1
        &&& self.spec_phase() == AveragingPhase::Ready
        &&& contributions.len() == w / 2
        &&& self.accumulated().len() == w / 2
        &&& forall|b: int|
            0 <= b < w / 2 ==> {
                &&& (#[trigger] contributions[b]) == pre.queue()[average_lower_bound(
                    w,
                    b + 1,
                )].frequency_pans@[b]
                &&& self.accumulated()[b] == pre.accumulated()[b].subrange(
                    1,
                    pre.accumulated()[b].len() as int,
                )
            }
    }

    /// An averager for windows of `window_size` samples over a source of
    /// `total_samples_to_write` samples: nothing staged, nothing queued, and
    /// the first window expected is the one that ends at `window_size - 1`.
    pub fn new(window_size: usize, total_samples_to_write: usize) -> (averager: Self)
        requires
            window_size >= 2,
            window_size + window_size + total_samples_to_write <= usize::MAX,
        ensures
            averager.wf(),
            averager.spec_window_size() == window_size,
            averager.spec_total_samples_to_write() == total_samples_to_write,
            averager.staged() == Map::<usize, TransformedWindowAndPans<S, P>>::empty(),
            averager.queue() == Seq::<TransformedWindowAndPans<S, P>>::empty(),
            averager.spec_next_last_sample_ctr_to_enqueue() == window_size - 1,
            averager.spec_windows_released() == 0,
            averager.spec_phase() == AveragingPhase::Filling,
    {
        let window_midpoint: usize = window_size / 2;
        let mut average_last_sample_ctr_lower_bounds: Vec<usize> = Vec::new();
        let mut average_last_sample_ctr_upper_bounds: Vec<usize> = Vec::new();
        let mut wavelengths: Vec<usize> = Vec::new();
        let mut sub_freq_ctr: usize = 0;
        while sub_freq_ctr < window_midpoint
            invariant
                window_size >= 2,
                window_midpoint == window_size / 2,
                sub_freq_ctr <= window_midpoint,
                wavelengths@.len() == sub_freq_ctr,
                average_last_sample_ctr_lower_bounds@.len() == sub_freq_ctr,
                average_last_sample_ctr_upper_bounds@.len() == sub_freq_ctr,
                forall|b: int|
                    0 <= b < sub_freq_ctr ==> (#[trigger] wavelengths@[b]) == wavelength(
                        window_size as int,
                        b + 1,
                    ),
                forall|b: int|
                    0 <= b < sub_freq_ctr ==> (#[trigger] average_last_sample_ctr_lower_bounds@[b])
                        == average_lower_bound(window_size as int, b + 1),
                forall|b: int|
                    0 <= b < sub_freq_ctr ==> (#[trigger] average_last_sample_ctr_upper_bounds@[b])
                        == average_upper_bound(window_size as int, b + 1),
            decreases window_midpoint - sub_freq_ctr,
        {
            let transform_index: usize = sub_freq_ctr + 1;
            proof {
                lemma_average_bounds(window_size as int, transform_index as int);
            }
            let wavelength: usize = window_size / transform_index;
            let extra_samples: usize = window_size - wavelength;
            let average_last_sample_ctr_lower_bound: usize = extra_samples / 2;
            let average_last_sample_ctr_upper_bound: usize = average_last_sample_ctr_lower_bound
                + wavelength - 1;
            average_last_sample_ctr_lower_bounds.push(average_last_sample_ctr_lower_bound);
            average_last_sample_ctr_upper_bounds.push(average_last_sample_ctr_upper_bound);
            wavelengths.push(wavelength);
            sub_freq_ctr += 1;
        }
        PanningAverager {
            window_size,
            window_midpoint,
            total_samples_to_write,
            average_last_sample_ctr_lower_bounds,
            average_last_sample_ctr_upper_bounds,
            wavelengths,
            transformed_window_and_pans_by_sample: HashMap::new(),
            next_last_sample_ctr_to_enqueue: window_size - 1,
            transformed_window_and_pans_queue: VecDeque::new(),
            windows_released: 0,
            phase: AveragingPhase::Filling,
            accumulated: Ghost(Seq::empty()),
        }
    }

    /// Stages a transformed window until its turn to enter the queue has
    /// come. Windows may be staged in any order; one staged under a counter
    /// that is already taken replaces the earlier one.
    pub fn enqueue_transformed_window_and_pans(
        &mut self,
        transformed_window_and_pans: TransformedWindowAndPans<S, P>,
    )
        requires
            old(self).wf(),
            transformed_window_and_pans.is_complete(old(self).spec_window_size() / 2),
        ensures
            final(self).wf(),
            final(self).staged() == old(self).staged().insert(
                transformed_window_and_pans.last_sample_ctr,
                transformed_window_and_pans,
            ),
            final(self).queue() == old(self).queue(),
            final(self).accumulated() == old(self).accumulated(),
            final(self).spec_phase() == old(self).spec_phase(),
            final(self).spec_next_last_sample_ctr_to_enqueue() == old(
                self,
            ).spec_next_last_sample_ctr_to_enqueue(),
            final(self).spec_windows_released() == old(self).spec_windows_released(),
            final(self).spec_window_size() == old(self).spec_window_size(),
            final(self).spec_total_samples_to_write() == old(self).spec_total_samples_to_write(),
    {
        self.transformed_window_and_pans_by_sample.insert(
            transformed_window_and_pans.last_sample_ctr,
            transformed_window_and_pans,
        );
    }
}

impl<S, P: Copy> PanningAverager<S, P> {
    /// Takes the one step that is due: a staged window enters the queue if
    /// its turn has come, else the averaging moves on by one of its four
    /// actions, else nothing happens. The caller applies what the step
    /// hands back to the running averages and calls again until the step is
    /// `Idle`.
    pub fn enqueue_and_average(&mut self) -> (step: AveragerStep<S, P>)
        requires
            old(self).wf(),
        ensures
            final(self).wf(),
            match old(self).due() {
                AveragerAction::Idle => step is Idle && *final(self) == *old(self),
                AveragerAction::Enqueue => step is Enqueued && final(self).enqueued_from(old(self)),
                AveragerAction::Seed => step matches AveragerStep::Seed { spans }
                    && final(self).seeded_from(old(self), views_of(spans@)),
                AveragerAction::Accumulate => step matches AveragerStep::Accumulate {
                    contributions,
                } && final(self).accumulated_from(old(self), contributions@),
                AveragerAction::Emit => step matches AveragerStep::Emit {
                    last_sample_ctr,
                    left_transformed,
                    right_transformed,
                    mono_transformed,
                    is_last,
                } && final(self).emitted_from(
                    old(self),
                    last_sample_ctr,
                    left_transformed,
                    right_transformed,
                    mono_transformed,
                    is_last,
                ),
                AveragerAction::Release => step matches AveragerStep::Release { contributions }
                    && final(self).released_from(old(self), contributions@),
            },
    {
        let next: usize = self.next_last_sample_ctr_to_enqueue;
        let staged_next: bool = next < self.total_samples_to_write
            && self.transformed_window_and_pans_by_sample.contains_key(&next);
        match self.phase {
            AveragingPhase::Complete => AveragerStep::Idle,
            AveragingPhase::Accumulated => self.emit(),
            AveragingPhase::Emitted => AveragerStep::Release { contributions: self.release() },
            AveragingPhase::Filling => {
                if next == self.window_size + self.window_midpoint + 1 {
                    AveragerStep::Seed { spans: self.seed() }
                } else if staged_next {
                    self.enqueue_next();
                    AveragerStep::Enqueued
                } else {
                    AveragerStep::Idle
                }
            },
            AveragingPhase::Ready => {
                if staged_next {
                    self.enqueue_next();
                    AveragerStep::Enqueued
                } else if self.transformed_window_and_pans_queue.len() >= self.window_size {
                    AveragerStep::Accumulate { contributions: self.accumulate() }
                } else {
                    AveragerStep::Idle
                }
            },
        }
    }

    pub fn window_size(&self) -> (window_size: usize)
        ensures
            window_size == self.spec_window_size(),
    {
        self.window_size
    }

    pub fn total_samples_to_write(&self) -> (total_samples_to_write: usize)
        ensures
            total_samples_to_write == self.spec_total_samples_to_write(),
    {
        self.total_samples_to_write
    }

    pub fn phase(&self) -> (phase: AveragingPhase)
        ensures
            phase == self.spec_phase(),
    {
        self.phase
    }

    pub fn next_last_sample_ctr_to_enqueue(&self) -> (next: usize)
        ensures
            next == self.spec_next_last_sample_ctr_to_enqueue(),
    {
        self.next_last_sample_ctr_to_enqueue
    }

    pub fn windows_released(&self) -> (released: usize)
        ensures
            released == self.spec_windows_released(),
    {
        self.windows_released
    }

    /// How many windows stand in the queue.
    pub fn queue_len(&self) -> (len: usize)
        ensures
            len == self.queue().len(),
    {
        self.transformed_window_and_pans_queue.len()
    }

    /// How many windows wait to be put in order.
    pub fn staged_len(&self) -> (len: usize)
        ensures
            len == self.staged().len(),
    {
        self.transformed_window_and_pans_by_sample.len()
    }

    /// The length of the averaging window of the bin with index `freq_ctr`,
    /// which is bin `freq_ctr + 1` of the transform. One over it is the
    /// weight of each steering vector in the bin's average.
    pub fn wavelength(&self, freq_ctr: usize) -> (len: usize)
        requires
            self.wf(),
            freq_ctr < self.spec_window_size() / 2,
        ensures
            len == wavelength(self.spec_window_size(), freq_ctr + 1),
    {
        self.wavelengths[freq_ctr]
    }

    /// The first queue position in the averaging window of the bin with
    /// index `freq_ctr`.
    pub fn average_last_sample_ctr_lower_bound(&self, freq_ctr: usize) -> (position: usize)
        requires
            self.wf(),
            freq_ctr < self.spec_window_size() / 2,
        ensures
            position == average_lower_bound(self.spec_window_size(), freq_ctr + 1),
    {
        self.average_last_sample_ctr_lower_bounds[freq_ctr]
    }

    /// The last queue position in the averaging window of the bin with
    /// index `freq_ctr`.
    pub fn average_last_sample_ctr_upper_bound(&self, freq_ctr: usize) -> (position: usize)
        requires
            self.wf(),
            freq_ctr < self.spec_window_size() / 2,
        ensures
            position == average_upper_bound(self.spec_window_size(), freq_ctr + 1),
    {
        self.average_last_sample_ctr_upper_bounds[freq_ctr]
    }

    /// Whether the averager will hand on no further window, whatever is
    /// staged from now on: the last window was handed on, or every window
    /// of the source entered the queue without the averages being started.
    pub open spec fn exhausted(&self) -> bool {
        let w = self.spec_window_size();
        let next = self.spec_next_last_sample_ctr_to_enqueue();
        self.spec_phase() == AveragingPhase::Complete || (self.spec_phase()
            == AveragingPhase::Filling && next >= self.spec_total_samples_to_write() && next != w
            + w / 2 + 1)
    }

    /// Whether the averager will hand on no further window.
    pub fn is_exhausted(&self) -> (exhausted: bool)
        requires
            self.wf(),
        ensures
            exhausted == self.exhausted(),
    {
        match self.phase {
            AveragingPhase::Complete => true,
            AveragingPhase::Filling => self.next_last_sample_ctr_to_enqueue
                >= self.total_samples_to_write && self.next_last_sample_ctr_to_enqueue
                != self.window_size + self.window_midpoint + 1,
            _ => false,
        }
    }

    /// An exhausted averager has no step left to take.
    pub proof fn lemma_exhausted_is_idle(&self)
        requires
            self.wf(),
            self.exhausted(),
        ensures
            self.due() == AveragerAction::Idle,
    {
    }

    /// A source that ends before a window and a half have gone by never
    /// starts the averages: once its last window is in the queue, the
    /// averager is exhausted without having handed on a window.
    pub proof fn lemma_short_source_exhausts(&self)
        requires
            self.wf(),
            self.spec_total_samples_to_write() <= self.spec_window_size() + self.spec_window_size()
                / 2,
            self.spec_next_last_sample_ctr_to_enqueue() >= self.spec_total_samples_to_write(),
        ensures
            self.exhausted(),
            self.spec_windows_released() == 0,
    {
    }

    /// What the invariant says of the counters: a window holds two samples
    /// or more, the first window to enter the queue ends where the first
    /// window of the source ends, none enters beyond the source, and every
    /// window in the queue has a steering vector for each bin.
    pub proof fn lemma_wf_bounds(&self)
        requires
            self.wf(),
        ensures
            2 <= self.spec_window_size(),
            self.spec_window_size() + self.spec_window_size() + self.spec_total_samples_to_write()
                <= usize::MAX,
            self.spec_window_size() - 1 <= self.spec_next_last_sample_ctr_to_enqueue(),
            self.spec_next_last_sample_ctr_to_enqueue() > self.spec_window_size() - 1
                ==> self.spec_next_last_sample_ctr_to_enqueue()
                <= self.spec_total_samples_to_write(),
            0 <= self.spec_windows_released(),
            forall|i: int|
                0 <= i < self.queue().len() ==> (#[trigger] self.queue()[i]).frequency_pans@.len()
                    == self.spec_window_size() / 2,
            forall|k: usize|
                (#[trigger] self.staged().contains_key(k)) ==> self.staged()[k].last_sample_ctr
                    == k && self.staged()[k].is_complete(self.spec_window_size() / 2),
    {
    }

    /// When a window is handed on, each bin's running average holds exactly
    /// the steering vectors at the queue positions from the bin's lower
    /// bound to its upper bound: as many as its wavelength counts.
    pub proof fn lemma_emission_averages_whole_windows(&self, b: int)
        requires
            self.wf(),
            self.due() == AveragerAction::Emit,
            0 <= b < self.spec_window_size() / 2,
        ensures
            self.accumulated()[b] == self.pans_in_queue(
                b,
                average_lower_bound(self.spec_window_size(), b + 1),
                wavelength(self.spec_window_size(), b + 1),
            ),
            self.accumulated()[b].len() == wavelength(self.spec_window_size(), b + 1),
            average_lower_bound(self.spec_window_size(), b + 1) + wavelength(
                self.spec_window_size(),
                b + 1,
            ) - 1 == average_upper_bound(self.spec_window_size(), b + 1),
            average_upper_bound(self.spec_window_size(), b + 1) < self.queue().len(),
    {
        lemma_average_bounds(self.spec_window_size(), b + 1);
    }

    /// The queue holds a run of consecutive sample counters: behind the
    /// stand-ins that open the queue, each window's counter is one above
    /// that of the window before it.
    pub proof fn lemma_queue_is_contiguous(&self, i: int)
        requires
            self.wf(),
            0 <= i,
            i + 1 < self.queue().len(),
            self.spec_windows_released() + i >= self.spec_window_size() / 2 - 1,
        ensures
            self.queue()[i + 1].last_sample_ctr == self.queue()[i].last_sample_ctr + 1,
    {
    }

    /// The windows are handed on in the order of their sample counters,
    /// from the one that ends a window's length into the source: the window
    /// that is due has the counter `window_size` plus the number of windows
    /// released so far, and it carries both of its spectra.
    pub proof fn lemma_emission_is_in_order(&self)
        requires
            self.wf(),
            self.due() == AveragerAction::Emit,
        ensures
            self.spec_window_size() / 2 < self.queue().len(),
            self.queue()[self.spec_window_size() / 2].last_sample_ctr == self.spec_window_size()
                + self.spec_windows_released(),
            self.spec_window_size() + self.spec_windows_released()
                < self.spec_total_samples_to_write(),
            self.queue()[self.spec_window_size() / 2].is_complete(self.spec_window_size() / 2),
    {
    }

    /// No window is handed on before the averages were started, and none
    /// after the last.
    pub proof fn lemma_emission_needs_seed(&self)
        requires
            self.wf(),
            self.due() == AveragerAction::Emit || self.due() == AveragerAction::Accumulate
                || self.due() == AveragerAction::Release,
        ensures
            self.is_seeded(),
            self.spec_next_last_sample_ctr_to_enqueue() > self.spec_window_size()
                + self.spec_window_size() / 2,
            self.spec_window_size() + self.spec_windows_released()
                < self.spec_total_samples_to_write(),
    {
    }
}

impl<S, P: Copy> PanningAverager<S, P> {
    /// Moves the staged window whose turn it is into the queue.
    fn enqueue_next(&mut self)
        requires
            old(self).wf(),
            old(self).due() == AveragerAction::Enqueue,
        ensures
            final(self).wf(),
            final(self).enqueued_from(old(self)),
    {
        let next: usize = self.next_last_sample_ctr_to_enqueue;
        let is_first: bool = next == self.window_size - 1;
        let is_last: bool = next == self.total_samples_to_write - 1;
        let staged = self.transformed_window_and_pans_by_sample.remove(&next);
        let window = staged.unwrap();
        let spare: Vec<P> = if is_first || is_last {
            copy_pans(&window.frequency_pans)
        } else {
            Vec::new()
        };
        if is_first {
            push_placeholders(
                &mut self.transformed_window_and_pans_queue,
                &spare,
                0,
                false,
                self.window_midpoint - 1,
            );
        }
        let ghost leading = self.transformed_window_and_pans_queue@;
        self.transformed_window_and_pans_queue.push_back(window);
        if is_last {
            push_placeholders(
                &mut self.transformed_window_and_pans_queue,
                &spare,
                self.total_samples_to_write,
                true,
                self.window_midpoint,
            );
        }
        self.next_last_sample_ctr_to_enqueue = next + 1;
        proof {
            let w = self.window_size as int;
            let h = self.window_midpoint as int;
            let q = self.queue();
            let pre = old(self).queue();
            assert(q[leading.len() as int] == window);
            if self.phase == AveragingPhase::Ready {
                assert forall|b: int| 0 <= b < h implies (#[trigger] self.accumulated@[b])
                    == self.pans_in_queue(
                    b,
                    average_lower_bound(w, b + 1),
                    wavelength(w, b + 1) - 1,
                ) by {
                    lemma_average_bounds(w, b + 1);
                    let first = average_lower_bound(w, b + 1);
                    let len = wavelength(w, b + 1) - 1;
                    assert(old(self).accumulated@[b] == old(self).pans_in_queue(b, first, len));
                    assert(self.pans_in_queue(b, first, len) =~= old(self).pans_in_queue(
                        b,
                        first,
                        len,
                    ));
                }
            }
        }
    }

    /// Takes the newest position of each bin's window into its average.
    fn accumulate(&mut self) -> (contributions: Vec<P>)
        requires
            old(self).wf(),
            old(self).due() == AveragerAction::Accumulate,
        ensures
            final(self).wf(),
            final(self).accumulated_from(old(self), contributions@),
    {
        proof {
            let w = self.window_size as int;
            assert forall|b: int| 0 <= b < self.window_midpoint implies (
            #[trigger] self.average_last_sample_ctr_upper_bounds@[b]) < self.queue().len() by {
                lemma_average_bounds(w, b + 1);
            }
        }
        let contributions = gather(
            &self.transformed_window_and_pans_queue,
            &self.average_last_sample_ctr_upper_bounds,
        );
        self.phase = AveragingPhase::Accumulated;
        proof {
            let w = self.window_size as int;
            let h = self.window_midpoint as int;
            let before = old(self).accumulated@;
            self.accumulated@ = Seq::new(h as nat, |b: int| before[b].push(contributions@[b]));
            assert forall|b: int| 0 <= b < h implies (#[trigger] self.accumulated@[b])
                == self.pans_in_queue(b, average_lower_bound(w, b + 1), wavelength(w, b + 1)) by {
                lemma_average_bounds(w, b + 1);
                let first = average_lower_bound(w, b + 1);
                let len = wavelength(w, b + 1);
                assert(before[b] == old(self).pans_in_queue(b, first, len - 1));
                assert(self.average_last_sample_ctr_upper_bounds@[b] == first + len - 1);
                assert(self.accumulated@[b] =~= self.pans_in_queue(b, first, len));
            }
        }
        contributions
    }

    /// Starts each bin's average from every position of its window but the
    /// newest.
    fn seed(&mut self) -> (spans: Vec<Vec<P>>)
        requires
            old(self).wf(),
            old(self).due() == AveragerAction::Seed,
        ensures
            final(self).wf(),
            final(self).seeded_from(old(self), views_of(spans@)),
    {
        proof {
            let w = self.window_size as int;
            assert forall|b: int| 0 <= b < self.window_midpoint implies 1 <= (
            #[trigger] self.wavelengths@[b]) && self.average_last_sample_ctr_lower_bounds@[b]
                + self.wavelengths@[b] - 1 <= self.queue().len() by {
                lemma_average_bounds(w, b + 1);
            }
        }
        let spans = gather_spans(
            &self.transformed_window_and_pans_queue,
            &self.average_last_sample_ctr_lower_bounds,
            &self.wavelengths,
        );
        self.phase = AveragingPhase::Ready;
        proof {
            self.accumulated@ = views_of(spans@);
        }
        spans
    }

    /// Moves the spectra out of the window in the middle of the queue.
    fn emit(&mut self) -> (step: AveragerStep<S, P>)
        requires
            old(self).wf(),
            old(self).due() == AveragerAction::Emit,
        ensures
            final(self).wf(),
            step matches AveragerStep::Emit {
                last_sample_ctr,
                left_transformed,
                right_transformed,
                mono_transformed,
                is_last,
            } && final(self).emitted_from(
                old(self),
                last_sample_ctr,
                left_transformed,
                right_transformed,
                mono_transformed,
                is_last,
            ),
    {
        let midpoint: usize = self.window_midpoint;
        let taken = self.transformed_window_and_pans_queue.remove(midpoint);
        let TransformedWindowAndPans {
            last_sample_ctr,
            left_transformed,
            right_transformed,
            mono_transformed,
            frequency_pans,
        } = taken.unwrap();
        let is_last: bool = last_sample_ctr == self.total_samples_to_write - 1;
        if is_last {
            self.transformed_window_and_pans_queue.clear();
            self.phase = AveragingPhase::Complete;
        } else {
            self.transformed_window_and_pans_queue.insert(
                midpoint,
                TransformedWindowAndPans {
                    last_sample_ctr,
                    left_transformed: None,
                    right_transformed: None,
                    mono_transformed: None,
                    frequency_pans,
                },
            );
            self.phase = AveragingPhase::Emitted;
            proof {
                let w = self.window_size as int;
                let h = self.window_midpoint as int;
                let pre = old(self).queue();
                let q = self.queue();
                assert(q.len() == pre.len());
                assert forall|i: int| 0 <= i < pre.len() && i != h implies #[trigger] q[i]
                    == pre[i] by {}
                assert(q[h].frequency_pans@ == pre[h].frequency_pans@);
                assert forall|b: int| 0 <= b < h implies (#[trigger] self.accumulated@[b])
                    == self.pans_in_queue(
                    b,
                    average_lower_bound(w, b + 1),
                    wavelength(w, b + 1),
                ) by {
                    lemma_average_bounds(w, b + 1);
                    let first = average_lower_bound(w, b + 1);
                    let len = wavelength(w, b + 1);
                    assert(old(self).accumulated@[b] == old(self).pans_in_queue(b, first, len));
                    assert forall|t: int| 0 <= t < len implies (#[trigger] q[first
                        + t]).frequency_pans@ == pre[first + t].frequency_pans@ by {}
                    assert(self.pans_in_queue(b, first, len) =~= old(self).pans_in_queue(
                        b,
                        first,
                        len,
                    ));
                }
            }
        }
        AveragerStep::Emit {
            last_sample_ctr,
            left_transformed: left_transformed.unwrap(),
            right_transformed: right_transformed.unwrap(),
            mono_transformed,
            is_last,
        }
    }

    /// Drops the oldest position of each bin's window from its average, and
    /// the oldest window from the queue.
    fn release(&mut self) -> (contributions: Vec<P>)
        requires
            old(self).wf(),
            old(self).due() == AveragerAction::Release,
        ensures
            final(self).wf(),
            final(self).released_from(old(self), contributions@),
    {
        proof {
            let w = self.window_size as int;
            assert forall|b: int| 0 <= b < self.window_midpoint implies (
            #[trigger] self.average_last_sample_ctr_lower_bounds@[b]) < self.queue().len() by {
                lemma_average_bounds(w, b + 1);
            }
        }
        let contributions = gather(
            &self.transformed_window_and_pans_queue,
            &self.average_last_sample_ctr_lower_bounds,
        );
        let _ = self.transformed_window_and_pans_queue.pop_front();
        self.windows_released = self.windows_released + 1;
        self.phase = AveragingPhase::Ready;
        proof {
            let w = self.window_size as int;
            let h = self.window_midpoint as int;
            let before = old(self).accumulated@;
            let pre = old(self).queue();
            let q = self.queue();
            assert(q =~= pre.subrange(1, pre.len() as int));
            self.accumulated@ = Seq::new(
                h as nat,
                |b: int| before[b].subrange(1, before[b].len() as int),
            );
            assert forall|b: int| 0 <= b < h implies (#[trigger] self.accumulated@[b])
                == self.pans_in_queue(b, average_lower_bound(w, b + 1), wavelength(w, b + 1) - 1) by {
                lemma_average_bounds(w, b + 1);
                let first = average_lower_bound(w, b + 1);
                let len = wavelength(w, b + 1);
                assert(before[b] == old(self).pans_in_queue(b, first, len));
                assert forall|t: int| 0 <= t < len - 1 implies #[trigger] q[first + t] == pre[first
                    + t + 1] by {}
                assert(self.accumulated@[b] =~= self.pans_in_queue(b, first, len - 1));
            }
            assert forall|i: int| 0 <= i < q.len() implies #[trigger] q[i] == pre[i + 1] by {}
        }
        contributions
    }
}

/// The steering vectors of bin index `b` in the `len` windows of `queue`
/// from position `first` on.
fn gather_span<S, P: Copy>(
    queue: &VecDeque<TransformedWindowAndPans<S, P>>,
    b: usize,
    first: usize,
    len: usize,
) -> (span: Vec<P>)
    requires
        first + len <= queue@.len(),
        forall|i: int| 0 <= i < queue@.len() ==> b < (#[trigger] queue@[i]).frequency_pans@.len(),
    ensures
        span@ == pans_in(queue@, b as int, first as int, len as int),
{
    let queued: usize = queue.len();
    let mut span: Vec<P> = Vec::new();
    let mut taken: usize = 0;
    while taken < len
        invariant
            taken <= len,
            first + len <= queue@.len() == queued,
            forall|i: int|
                0 <= i < queue@.len() ==> b < (#[trigger] queue@[i]).frequency_pans@.len(),
            span@ == pans_in(queue@, b as int, first as int, taken as int),
        decreases len - taken,
    {
        let window = &queue[first + taken];
        span.push(window.frequency_pans[b]);
        assert(span@ =~= pans_in(queue@, b as int, first as int, taken + 1));
        taken += 1;
    }
    span
}

/// For each bin, its steering vectors in the windows of `queue` from the
/// bin's position in `firsts` on: one fewer than its entry in `lens`.
fn gather_spans<S, P: Copy>(
    queue: &VecDeque<TransformedWindowAndPans<S, P>>,
    firsts: &Vec<usize>,
    lens: &Vec<usize>,
) -> (spans: Vec<Vec<P>>)
    requires
        firsts@.len() == lens@.len(),
        forall|b: int|
            0 <= b < lens@.len() ==> 1 <= (#[trigger] lens@[b]) && firsts@[b] + lens@[b] - 1
                <= queue@.len(),
        forall|i: int|
            0 <= i < queue@.len() ==> (#[trigger] queue@[i]).frequency_pans@.len() == lens@.len(),
    ensures
        views_of(spans@).len() == lens@.len(),
        forall|b: int|
            0 <= b < lens@.len() ==> (#[trigger] views_of(spans@)[b]) == pans_in(
                queue@,
                b,
                firsts@[b] as int,
                lens@[b] - 1,
            ),
{
    let mut spans: Vec<Vec<P>> = Vec::new();
    let mut freq_ctr: usize = 0;
    while freq_ctr < lens.len()
        invariant
            freq_ctr <= lens@.len(),
            firsts@.len() == lens@.len(),
            forall|b: int|
                0 <= b < lens@.len() ==> 1 <= (#[trigger] lens@[b]) && firsts@[b] + lens@[b] - 1
                    <= queue@.len(),
            forall|i: int|
                0 <= i < queue@.len() ==> (#[trigger] queue@[i]).frequency_pans@.len()
                    == lens@.len(),
            spans@.len() == freq_ctr,
            forall|b: int|
                0 <= b < freq_ctr ==> (#[trigger] spans@[b])@ == pans_in(
                    queue@,
                    b,
                    firsts@[b] as int,
                    lens@[b] - 1,
                ),
        decreases lens@.len() - freq_ctr,
    {
        let span = gather_span(queue, freq_ctr, firsts[freq_ctr], lens[freq_ctr] - 1);
        spans.push(span);
        freq_ctr += 1;
    }
    proof {
        assert(views_of(spans@).len() == spans@.len());
        assert forall|b: int| 0 <= b < lens@.len() implies (#[trigger] views_of(spans@)[b])
            == pans_in(queue@, b, firsts@[b] as int, lens@[b] - 1) by {
            assert(views_of(spans@)[b] == spans@[b]@);
        }
    }
    spans
}

/// A copy of `pans`.
fn copy_pans<P: Copy>(pans: &Vec<P>) -> (copy: Vec<P>)
    ensures
        copy@ == pans@,
{
    let mut copy: Vec<P> = Vec::new();
    let mut i: usize = 0;
    while i < pans.len()
        invariant
            i <= pans.len(),
            copy@ == pans@.subrange(0, i as int),
        decreases pans.len() - i,
    {
        copy.push(pans[i]);
        assert(copy@ =~= pans@.subrange(0, i + 1));
        i += 1;
    }
    assert(copy@ =~= pans@);
    copy
}

/// For each bin, its steering vector in the window at the queue position
/// that `positions` gives for the bin.
fn gather<S, P: Copy>(
    queue: &VecDeque<TransformedWindowAndPans<S, P>>,
    positions: &Vec<usize>,
) -> (contributions: Vec<P>)
    requires
        forall|b: int| 0 <= b < positions@.len() ==> (#[trigger] positions@[b]) < queue@.len(),
        forall|i: int|
            0 <= i < queue@.len() ==> (#[trigger] queue@[i]).frequency_pans@.len()
                == positions@.len(),
    ensures
        contributions@.len() == positions@.len(),
        forall|b: int|
            0 <= b < positions@.len() ==> (#[trigger] contributions@[b])
                == queue@[positions@[b] as int].frequency_pans@[b],
{
    let mut contributions: Vec<P> = Vec::new();
    let mut freq_ctr: usize = 0;
    while freq_ctr < positions.len()
        invariant
            freq_ctr <= positions@.len(),
            contributions@.len() == freq_ctr,
            forall|b: int| 0 <= b < positions@.len() ==> (#[trigger] positions@[b]) < queue@.len(),
            forall|i: int|
                0 <= i < queue@.len() ==> (#[trigger] queue@[i]).frequency_pans@.len()
                    == positions@.len(),
            forall|b: int|
                0 <= b < freq_ctr ==> (#[trigger] contributions@[b])
                    == queue@[positions@[b] as int].frequency_pans@[b],
        decreases positions@.len() - freq_ctr,
    {
        let sample_ctr: usize = positions[freq_ctr];
        let window = &queue[sample_ctr];
        contributions.push(window.frequency_pans[freq_ctr]);
        freq_ctr += 1;
    }
    contributions
}

/// Appends `count` stand-ins that carry `pans`. Their sample counters run
/// up from `first_ctr` if `counting`, and are all `first_ctr` otherwise.
fn push_placeholders<S, P: Copy>(
    queue: &mut VecDeque<TransformedWindowAndPans<S, P>>,
    pans: &Vec<P>,
    first_ctr: usize,
    counting: bool,
    count: usize,
)
    requires
        first_ctr + count <= usize::MAX,
    ensures
        final(queue)@.len() == old(queue)@.len() + count,
        forall|i: int| 0 <= i < old(queue)@.len() ==> #[trigger] final(queue)@[i] == old(queue)@[i],
        forall|i: int|
            old(queue)@.len() <= i < final(queue)@.len() ==> (#[trigger] final(queue)@[i])
                .is_placeholder(
                if counting {
                    first_ctr + (i - old(queue)@.len())
                } else {
                    first_ctr as int
                },
                pans@,
            ),
{
    let ghost before = queue@;
    let mut pushed: usize = 0;
    while pushed < count
        invariant
            pushed <= count,
            first_ctr + count <= usize::MAX,
            queue@.len() == before.len() + pushed,
            forall|i: int| 0 <= i < before.len() ==> #[trigger] queue@[i] == before[i],
            forall|i: int|
                before.len() <= i < queue@.len() ==> (#[trigger] queue@[i]).is_placeholder(
                    if counting {
                        first_ctr + (i - before.len())
                    } else {
                        first_ctr as int
                    },
                    pans@,
                ),
        decreases count - pushed,
    {
        let last_sample_ctr: usize = if counting {
            first_ctr + pushed
        } else {
            first_ctr
        };
        queue.push_back(
            TransformedWindowAndPans {
                last_sample_ctr,
                left_transformed: None,
                right_transformed: None,
                mono_transformed: None,
                frequency_pans: copy_pans(pans),
            },
        );
        pushed += 1;
    }
}

} // verus!
