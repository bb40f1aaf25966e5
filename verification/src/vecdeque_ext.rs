//! Copying a deque out into a vector.

use std::collections::VecDeque;
use vstd::prelude::*;

verus! {

pub trait VecDequeExt<T> {
    /// What the collection holds, front first.
    spec fn items(&self) -> Seq<T>;

    /// A vector with the same items in the same order.
    fn to_vec(&self) -> (vec: Vec<T>)
        ensures
            vec@ == self.items(),
    ;
}

impl<T: Copy> VecDequeExt<T> for VecDeque<T> {
    open spec fn items(&self) -> Seq<T> {
        self@
    }

    fn to_vec(&self) -> (vec: Vec<T>) {
        let len: usize = self.len();
        let mut vec: Vec<T> = Vec::with_capacity(len);
        let mut ctr: usize = 0;
        while ctr < len
            invariant
                ctr <= len == self@.len(),
                vec@ == self@.subrange(0, ctr as int),
            decreases len - ctr,
        {
            vec.push(self[ctr]);
            assert(vec@ =~= self@.subrange(0, ctr + 1));
            ctr += 1;
        }
        assert(vec@ =~= self@);
        vec
    }
}

} // verus!
