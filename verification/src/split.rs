//! Splitting a sequence into two shards that share its allocation.

use crate::shard::{share, VecShard};
use vstd::prelude::*;

verus! {

impl<T> VecShard<T> {
    /// Whether `left` and `right` are what a split of `self` at `at` gives:
    /// `left` stays where `self` began, `right` begins `at` elements further
    /// on, and both lie in the allocation of `self`.
    pub open spec fn splits_into(&self, at: nat, left: &Self, right: &Self) -> bool {
        &&& left.wf()
        &&& right.wf()
        &&& left@ == self@.subrange(0, at as int)
        &&& right@ == self@.subrange(at as int, self@.len() as int)
        &&& left.offset() == self.offset()
        &&& right.offset() == self.offset() + at
        &&& left.capacity() == self.capacity()
        &&& right.capacity() == self.capacity()
    }
}

/// Things that can be split into shards.
pub trait ShardExt: Sized {
    type Shard;

    /// Whether `self` can be split at `at`: `at` is no more than the number
    /// of its elements.
    spec fn splits_at(&self, at: usize) -> bool;

    /// Whether `parts` are the two shards that a split at `at` gives.
    spec fn split_gives(&self, at: usize, parts: (Self::Shard, Self::Shard)) -> bool;

    /// Split this sequence into two shards at the given index: the first
    /// holds the elements before `at`, the second those from `at` on. Both
    /// keep the underlying allocation, which lives until the last shard of it
    /// is gone.
    fn split_inplace_at(self, at: usize) -> (parts: (Self::Shard, Self::Shard))
        requires
            self.splits_at(at),
        ensures
            self.split_gives(at, parts),
    ;
}

impl<T> ShardExt for VecShard<T> {
    type Shard = VecShard<T>;

    open spec fn splits_at(&self, at: usize) -> bool {
        self.wf() && at <= self@.len()
    }

    open spec fn split_gives(&self, at: usize, parts: (VecShard<T>, VecShard<T>)) -> bool {
        self.splits_into(at as nat, &parts.0, &parts.1)
    }

    fn split_inplace_at(self, at: usize) -> (parts: (VecShard<T>, VecShard<T>)) {
        let (handle, start, mut items) = self.into_raw_parts();
        let tail = items.split_off(at);
        let right = VecShard::from_raw_parts(share(&handle), start + at, tail);
        let left = VecShard::from_raw_parts(handle, start, items);
        (left, right)
    }
}

impl<T> ShardExt for Vec<T> {
    type Shard = VecShard<T>;

    open spec fn splits_at(&self, at: usize) -> bool {
        at <= self@.len()
    }

    open spec fn split_gives(&self, at: usize, parts: (VecShard<T>, VecShard<T>)) -> bool {
        &&& parts.0.wf()
        &&& parts.1.wf()
        &&& parts.0@ == self@.subrange(0, at as int)
        &&& parts.1@ == self@.subrange(at as int, self@.len() as int)
        &&& parts.0.offset() == 0
        &&& parts.1.offset() == at
        &&& parts.0.capacity() == parts.1.capacity()
    }

    fn split_inplace_at(self, at: usize) -> (parts: (VecShard<T>, VecShard<T>)) {
        VecShard::wrap(self).split_inplace_at(at)
    }
}

} // verus!
