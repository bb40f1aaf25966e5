//! The record that travels through the pipeline.

use vstd::prelude::*;

verus! {

/// One window after the forward transform, with the steering vector measured
/// for each of its positive-frequency bins.
///
/// `S` is a spectrum and `P` a steering vector; neither is inspected here.
/// The spectra are optional so that a later stage can move them out and
/// leave the record, with its steering vectors, where it is.
pub struct TransformedWindowAndPans<S, P> {
    /// The index of the newest input sample in the window.
    pub last_sample_ctr: usize,
    pub left_transformed: Option<S>,
    pub right_transformed: Option<S>,
    pub mono_transformed: Option<S>,
    /// One steering vector per bin `1 ..= window_size / 2`, in that order.
    pub frequency_pans: Vec<P>,
}

impl<S, P> TransformedWindowAndPans<S, P> {
    /// The record carries both stereo spectra and one steering vector per bin.
    pub open spec fn is_complete(&self, window_midpoint: int) -> bool {
        &&& self.left_transformed.is_some()
        &&& self.right_transformed.is_some()
        &&& self.frequency_pans@.len() == window_midpoint
    }

    /// The record stands in for a window that has no spectra of its own and
    /// carries the steering vectors `pans`.
    pub open spec fn is_placeholder(&self, last_sample_ctr: int, pans: Seq<P>) -> bool {
        &&& self.last_sample_ctr == last_sample_ctr
        &&& self.left_transformed.is_none()
        &&& self.right_transformed.is_none()
        &&& self.mono_transformed.is_none()
        &&& self.frequency_pans@ == pans
    }
}

} // verus!
