//! Merging two shards into one, as cheaply as their places allow.
//!
//! There are three tiers. In place: the shards are neighbours in the right
//! order, and nothing moves. Without allocation: they are neighbours in the
//! wrong order, or the last two shards of their allocation, and are moved
//! together inside it. With allocation: anything else.
//!
//! Whether two shards share an allocation, and how many shards co-own it, is
//! read off the handles. The functions whose names end in `_with` take those
//! two answers as arguments and say exactly what comes out for each.

use crate::error::{CantMerge, WouldAlloc, WouldMove};
use crate::shard::{owner_count, same_allocation, VecShard};
use vstd::prelude::*;

verus! {

impl<T> VecShard<T> {
    /// Whether `self` holds the elements of `left` followed by those of
    /// `right`, begins at `offset` and lies in the allocation of `left`.
    pub open spec fn joins(&self, left: &Self, right: &Self, offset: nat) -> bool {
        &&& self.wf()
        &&& self@ == left@ + right@
        &&& self.offset() == offset
        &&& self.capacity() == left.capacity()
    }

    /// Why `left` and `right` cannot be merged where they lie, if they cannot.
    pub open spec fn inplace_refusal(left: &Self, right: &Self, same_allocation: bool) -> Option<
        WouldMove,
    > {
        if !same_allocation {
            Some(WouldMove::DifferentAllocations)
        } else if left.end() == right.offset() {
            None
        } else if right.end() == left.offset() {
            Some(WouldMove::WrongOrder)
        } else {
            Some(WouldMove::NotAdjacent)
        }
    }

    /// What an in-place merge of `left` and `right` returns, given whether
    /// they share an allocation.
    pub open spec fn inplace_outcome(
        left: &Self,
        right: &Self,
        same_allocation: bool,
        res: Result<Self, CantMerge<T, WouldMove>>,
    ) -> bool {
        match res {
            Ok(merged) => Self::inplace_refusal(left, right, same_allocation) is None
                && merged.joins(left, right, left.offset() as nat),
            Err(e) => Self::inplace_refusal(left, right, same_allocation) == Some(e.reason)
                && e.left == *left && e.right == *right,
        }
    }

    /// Where two shards that are the last of their allocation, and not
    /// neighbours, are put together: where the lower one begins, or, where
    /// `right` lies lower and is no longer than `left`, directly below the
    /// end of `left`.
    pub open spec fn relocated_offset(left: &Self, right: &Self) -> nat {
        if right.offset() < left.offset() {
            if left@.len() < right@.len() {
                right.offset() as nat
            } else {
                (left.offset() - right@.len()) as nat
            }
        } else {
            left.offset() as nat
        }
    }

    /// Where a merge without allocation puts the merged shard, if it merges.
    pub open spec fn noalloc_offset(
        left: &Self,
        right: &Self,
        same_allocation: bool,
        owners: usize,
    ) -> Option<nat> {
        if !same_allocation {
            None
        } else if left.end() == right.offset() {
            Some(left.offset() as nat)
        } else if right.end() == left.offset() {
            Some(right.offset() as nat)
        } else if owners == 2 && left.disjoint(right) {
            Some(Self::relocated_offset(left, right))
        } else {
            None
        }
    }

    /// What a merge without allocation returns, given whether the shards
    /// share an allocation and how many shards co-own that of `left`.
    pub open spec fn noalloc_outcome(
        left: &Self,
        right: &Self,
        same_allocation: bool,
        owners: usize,
        res: Result<Self, CantMerge<T, WouldAlloc>>,
    ) -> bool {
        match res {
            Ok(merged) => match Self::noalloc_offset(left, right, same_allocation, owners) {
                Some(offset) => merged.joins(left, right, offset),
                None => false,
            },
            Err(e) => {
                &&& Self::noalloc_offset(left, right, same_allocation, owners) is None
                &&& e.left == *left
                &&& e.right == *right
                &&& e.reason == if same_allocation {
                    WouldAlloc::OtherShardsLeft
                } else {
                    WouldAlloc::DifferentAllocations
                }
            },
        }
    }

    /// What a merge returns: the elements of `left`, then those of `right`,
    /// in the allocation of `left` where that could be used again, else at
    /// the base of a new one.
    pub open spec fn merge_outcome(
        left: &Self,
        right: &Self,
        same_allocation: bool,
        owners: usize,
        merged: &Self,
    ) -> bool {
        match Self::noalloc_offset(left, right, same_allocation, owners) {
            Some(offset) => merged.joins(left, right, offset),
            None => merged.wf() && merged@ == left@ + right@ && merged.offset() == 0,
        }
    }

    /// Merges two shards where they lie, knowing whether they share an
    /// allocation: succeeds exactly when they do and `right` begins where
    /// `left` ends.
    pub fn merge_inplace_with(left: Self, right: Self, same_allocation: bool) -> (res: Result<
        Self,
        CantMerge<T, WouldMove>,
    >)
        requires
            left.wf(),
            right.wf(),
            same_allocation ==> left.capacity() == right.capacity(),
        ensures
            Self::inplace_outcome(&left, &right, same_allocation, res),
    {
        if !same_allocation {
            Err(CantMerge { left, right, reason: WouldMove::DifferentAllocations })
        } else if left.stop() == right.offset() {
            let (handle, start, mut items) = left.into_raw_parts();
            let (_, _, mut tail) = right.into_raw_parts();
            items.append(&mut tail);
            Ok(VecShard::from_raw_parts(handle, start, items))
        } else if right.stop() == left.offset() {
            Err(CantMerge { left, right, reason: WouldMove::WrongOrder })
        } else {
            Err(CantMerge { left, right, reason: WouldMove::NotAdjacent })
        }
    }

    /// Try to merge the given shards without moving them around.
    ///
    /// This can only succeed if `left` and `right` were split off from the
    /// same `Vec` and `right` begins exactly where `left` ends. Otherwise
    /// both shards come back, with the reason.
    pub fn merge_inplace(left: Self, right: Self) -> (res: Result<Self, CantMerge<T, WouldMove>>)
        requires
            left.wf(),
            right.wf(),
        ensures
            Self::inplace_outcome(&left, &right, false, res) || (left.capacity()
                == right.capacity() && Self::inplace_outcome(&left, &right, true, res)),
    {
        let same = same_allocation(left.handle(), right.handle());
        Self::merge_inplace_with(left, right, same)
    }

    /// Merges two shards without allocating, knowing whether they share an
    /// allocation and how many shards co-own it.
    ///
    /// Neighbours are merged whatever the count, in either order. Shards
    /// that are not neighbours are moved together only if they are the last
    /// two of their allocation and do not overlap: the space around them is
    /// then nobody else's.
    pub fn merge_noalloc_with(
        left: Self,
        right: Self,
        same_allocation: bool,
        owners: usize,
    ) -> (res: Result<Self, CantMerge<T, WouldAlloc>>)
        requires
            left.wf(),
            right.wf(),
            same_allocation ==> left.capacity() == right.capacity(),
        ensures
            Self::noalloc_outcome(&left, &right, same_allocation, owners, res),
    {
        let cant_merge = match Self::merge_inplace_with(left, right, same_allocation) {
            Ok(shard) => {
                return Ok(shard);
            },
            Err(err) => err,
        };
        let CantMerge { left, right, reason } = cant_merge;
        match reason {
            WouldMove::DifferentAllocations => Err(
                CantMerge { left, right, reason: WouldAlloc::DifferentAllocations },
            ),
            WouldMove::WrongOrder => {
                let (handle, _, mut items) = left.into_raw_parts();
                let (_, start, mut tail) = right.into_raw_parts();
                items.append(&mut tail);
                Ok(VecShard::from_raw_parts(handle, start, items))
            },
            WouldMove::NotAdjacent => {
                if owners == 2 && left.is_disjoint(&right) {
                    let (handle, lstart, mut items) = left.into_raw_parts();
                    let (_, rstart, mut tail) = right.into_raw_parts();
                    let start = if rstart < lstart {
                        if items.len() < tail.len() {
                            rstart
                        } else {
                            lstart - tail.len()
                        }
                    } else {
                        lstart
                    };
                    items.append(&mut tail);
                    Ok(VecShard::from_raw_parts(handle, start, items))
                } else {
                    Err(CantMerge { left, right, reason: WouldAlloc::OtherShardsLeft })
                }
            },
        }
    }

    /// Try to merge the given shards without allocating a new `Vec`.
    ///
    /// This always succeeds if the shards can be merged in place, in either
    /// order, or if they are the only two shards left of their `Vec`.
    /// Otherwise both shards come back, with the reason.
    pub fn merge_noalloc(left: Self, right: Self) -> (res: Result<Self, CantMerge<T, WouldAlloc>>)
        requires
            left.wf(),
            right.wf(),
        ensures
            exists|owners: usize|
                Self::noalloc_outcome(&left, &right, false, owners, res) || (left.capacity()
                    == right.capacity() && Self::noalloc_outcome(
                    &left,
                    &right,
                    true,
                    owners,
                    res,
                )),
    {
        let same = same_allocation(left.handle(), right.handle());
        let owners = owner_count(left.handle());
        Self::merge_noalloc_with(left, right, same, owners)
    }

    /// Merges two shards, knowing whether they share an allocation and how
    /// many shards co-own it: without allocating where that is possible, else
    /// into a new allocation of the length of both.
    pub fn merge_with(left: Self, right: Self, same_allocation: bool, owners: usize) -> (merged:
        Self)
        requires
            left.wf(),
            right.wf(),
            same_allocation ==> left.capacity() == right.capacity(),
            left@.len() + right@.len() <= usize::MAX,
        ensures
            Self::merge_outcome(&left, &right, same_allocation, owners, &merged),
    {
        match Self::merge_noalloc_with(left, right, same_allocation, owners) {
            Ok(shard) => shard,
            Err(err) => {
                let (_, _, mut head) = err.left.into_raw_parts();
                let (_, _, mut tail) = err.right.into_raw_parts();
                let mut items = Vec::with_capacity(head.len() + tail.len());
                items.append(&mut head);
                items.append(&mut tail);
                Self::wrap(items)
            },
        }
    }

    /// Merge the given shards into a single shard that holds the elements of
    /// `left` followed by those of `right`.
    ///
    /// This attempts a merge without allocation first and falls back to a new
    /// allocation, so it never fails.
    pub fn merge(left: Self, right: Self) -> (merged: Self)
        requires
            left.wf(),
            right.wf(),
            left@.len() + right@.len() <= usize::MAX,
        ensures
            merged.wf(),
            merged@ == left@ + right@,
            exists|owners: usize|
                Self::merge_outcome(&left, &right, false, owners, &merged) || (left.capacity()
                    == right.capacity() && Self::merge_outcome(
                    &left,
                    &right,
                    true,
                    owners,
                    &merged,
                )),
    {
        let same = same_allocation(left.handle(), right.handle());
        let owners = owner_count(left.handle());
        Self::merge_with(left, right, same, owners)
    }
}

} // verus!
