//! The first stage of the pipeline: keeps the newest samples of each
//! channel and hands out one full window for every sample of the source.
//!
//! Reading the source and transforming the windows are the caller's.

use crate::vecdeque_ext::VecDequeExt;
use std::collections::VecDeque;
use vstd::prelude::*;

verus! {

/// One sample of each channel that the pipeline transforms.
pub struct Frame<T> {
    pub front_left: T,
    pub front_right: T,
    /// The mean of the two; read only where a mono window is wanted.
    pub mono: T,
}

/// The samples of one window, oldest first, ready to be transformed.
pub struct SampledWindow<T> {
    /// The index of the newest input sample in the window.
    pub last_sample_ctr: usize,
    pub left: Vec<T>,
    pub right: Vec<T>,
    pub mono: Option<Vec<T>>,
}

pub struct Reader<T> {
    window_size: usize,
    total_samples_to_write: usize,
    transform_mono: bool,
    total_samples_read: usize,
    left_buffer: VecDeque<T>,
    right_buffer: VecDeque<T>,
    mono_buffer: VecDeque<T>,
}

impl<T: Copy> Reader<T> {
    pub closed spec fn spec_window_size(&self) -> int {
        self.window_size as int
    }

    pub closed spec fn spec_total_samples_to_write(&self) -> int {
        self.total_samples_to_write as int
    }

    pub closed spec fn spec_transform_mono(&self) -> bool {
        self.transform_mono
    }

    pub closed spec fn spec_total_samples_read(&self) -> int {
        self.total_samples_read as int
    }

    /// The newest left samples, oldest first: one fewer than a window holds.
    pub closed spec fn left_buffer(&self) -> Seq<T> {
        self.left_buffer@
    }

    /// The newest right samples, oldest first.
    pub closed spec fn right_buffer(&self) -> Seq<T> {
        self.right_buffer@
    }

    /// The newest mono samples, oldest first; empty where no mono window is
    /// wanted.
    pub closed spec fn mono_buffer(&self) -> Seq<T> {
        self.mono_buffer@
    }

    /// The reader's invariant.
    pub closed spec fn wf(&self) -> bool {
        &&& self.window_size >= 1
        &&& self.left_buffer@.len() == self.window_size - 1
        &&& self.right_buffer@.len() == self.window_size - 1
        &&& self.mono_buffer@.len() == if self.transform_mono {
            self.window_size - 1
        } else {
            0
        }
    }

    /// What the invariant says: a window holds one sample or more, and
    /// each buffer in use holds one sample fewer than a window.
    pub proof fn lemma_wf_bounds(&self)
        requires
            self.wf(),
        ensures
            1 <= self.spec_window_size(),
            self.left_buffer().len() == self.spec_window_size() - 1,
            self.right_buffer().len() == self.spec_window_size() - 1,
            self.mono_buffer().len() == if self.spec_transform_mono() {
                self.spec_window_size() - 1
            } else {
                0
            },
    {
    }

    /// Every other part of `self` is as in `pre`.
    pub open spec fn same_config(&self, pre: &Self) -> bool {
        &&& self.spec_window_size() == pre.spec_window_size()
        &&& self.spec_total_samples_to_write() == pre.spec_total_samples_to_write()
        &&& self.spec_transform_mono() == pre.spec_transform_mono()
    }

    /// A reader that has taken in the first `window_size - 1` samples of
    /// each channel, so that the next sample completes the first window.
    pub fn open(
        window_size: usize,
        total_samples_to_write: usize,
        transform_mono: bool,
        left: Vec<T>,
        right: Vec<T>,
        mono: Vec<T>,
    ) -> (reader: Self)
        requires
            window_size >= 1,
            left@.len() == window_size - 1,
            right@.len() == window_size - 1,
            transform_mono ==> mono@.len() == window_size - 1,
        ensures
            reader.wf(),
            reader.spec_window_size() == window_size,
            reader.spec_total_samples_to_write() == total_samples_to_write,
            reader.spec_transform_mono() == transform_mono,
            reader.spec_total_samples_read() == window_size - 1,
            reader.left_buffer() == left@,
            reader.right_buffer() == right@,
            reader.mono_buffer() == if transform_mono {
                mono@
            } else {
                Seq::<T>::empty()
            },
    {
        let left_buffer = fill_buffer(&left);
        let right_buffer = fill_buffer(&right);
        let mono_buffer = if transform_mono {
            fill_buffer(&mono)
        } else {
            VecDeque::new()
        };
        Reader {
            window_size,
            total_samples_to_write,
            transform_mono,
            total_samples_read: window_size - 1,
            left_buffer,
            right_buffer,
            mono_buffer,
        }
    }

    /// Whether a window has been handed out for every sample of the source.
    pub fn is_exhausted(&self) -> (exhausted: bool)
        ensures
            exhausted == (self.spec_total_samples_read() >= self.spec_total_samples_to_write()),
    {
        self.total_samples_read >= self.total_samples_to_write
    }

    /// Takes in the next sample of each channel and hands out the window
    /// that it completes; the window's oldest sample is then dropped. Once
    /// the source is exhausted, nothing is taken in and nothing handed out.
    pub fn read_transform_and_measure_pans(&mut self, frame: Frame<T>) -> (window: Option<
        SampledWindow<T>,
    >)
        requires
            old(self).wf(),
        ensures
            final(self).wf(),
            final(self).same_config(old(self)),
            window.is_none() <==> old(self).spec_total_samples_read() >= old(
                self,
            ).spec_total_samples_to_write(),
            window.is_none() ==> {
                &&& final(self).spec_total_samples_read() == old(self).spec_total_samples_read()
                &&& final(self).left_buffer() == old(self).left_buffer()
                &&& final(self).right_buffer() == old(self).right_buffer()
                &&& final(self).mono_buffer() == old(self).mono_buffer()
            },
            window matches Some(window) ==> {
                let len = old(self).spec_window_size();
                &&& window.last_sample_ctr == old(self).spec_total_samples_read()
                &&& window.left@.len() == len
                &&& window.right@.len() == len
                &&& (window.mono matches Some(mono) ==> mono@.len() == len)
                &&& final(self).spec_total_samples_read() == old(self).spec_total_samples_read()
                    + 1
                &&& window.left@ == old(self).left_buffer().push(frame.front_left)
                &&& window.right@ == old(self).right_buffer().push(frame.front_right)
                &&& final(self).left_buffer() == window.left@.subrange(1, len)
                &&& final(self).right_buffer() == window.right@.subrange(1, len)
                &&& match window.mono {
                    Some(mono) => {
                        &&& old(self).spec_transform_mono()
                        &&& mono@ == old(self).mono_buffer().push(frame.mono)
                        &&& final(self).mono_buffer() == mono@.subrange(1, len)
                    },
                    None => {
                        &&& !old(self).spec_transform_mono()
                        &&& final(self).mono_buffer() == old(self).mono_buffer()
                    },
                }
            },
    {
        let last_sample_ctr: usize = self.total_samples_read;
        if last_sample_ctr >= self.total_samples_to_write {
            return None;
        }
        self.total_samples_read = last_sample_ctr + 1;
        let left = slide(&mut self.left_buffer, frame.front_left);
        let right = slide(&mut self.right_buffer, frame.front_right);
        let mono = if self.transform_mono {
            Some(slide(&mut self.mono_buffer, frame.mono))
        } else {
            None
        };
        Some(SampledWindow { last_sample_ctr, left, right, mono })
    }

    pub fn get_total_samples_read(&self) -> (total_samples_read: usize)
        ensures
            total_samples_read == self.spec_total_samples_read(),
    {
        self.total_samples_read
    }
}

/// A buffer that holds `samples`, oldest first.
fn fill_buffer<T: Copy>(samples: &Vec<T>) -> (buffer: VecDeque<T>)
    ensures
        buffer@ == samples@,
{
    let mut buffer: VecDeque<T> = VecDeque::with_capacity(samples.len());
    let mut ctr: usize = 0;
    while ctr < samples.len()
        invariant
            ctr <= samples.len(),
            buffer@ == samples@.subrange(0, ctr as int),
        decreases samples.len() - ctr,
    {
        buffer.push_back(samples[ctr]);
        assert(buffer@ =~= samples@.subrange(0, ctr + 1));
        ctr += 1;
    }
    assert(buffer@ =~= samples@);
    buffer
}

/// Appends `sample`, copies the buffer out, and drops its oldest sample.
fn slide<T: Copy>(buffer: &mut VecDeque<T>, sample: T) -> (window: Vec<T>)
    ensures
        window@ == old(buffer)@.push(sample),
        final(buffer)@ == window@.subrange(1, window@.len() as int),
{
    buffer.push_back(sample);
    let window = buffer.to_vec();
    let _ = buffer.pop_front();
    assert(buffer@ =~= window@.subrange(1, window@.len() as int));
    window
}

} // verus!
