//! What holds of splitting and merging, whatever the shards.

use crate::error::{CantMerge, WouldAlloc, WouldMove};
use crate::shard::VecShard;
use vstd::prelude::*;

verus! {

/// Splitting a shard and merging the two parts in place gives the shard
/// back: the merge succeeds, and the merged shard holds the elements of the
/// whole, in their order, where the whole began.
pub proof fn lemma_split_merge_inplace<T>(
    whole: VecShard<T>,
    at: nat,
    left: VecShard<T>,
    right: VecShard<T>,
    res: Result<VecShard<T>, CantMerge<T, WouldMove>>,
)
    requires
        whole.wf(),
        at <= whole@.len(),
        whole.splits_into(at, &left, &right),
        VecShard::inplace_outcome(&left, &right, true, res),
    ensures
        res is Ok,
        res->Ok_0.wf(),
        res->Ok_0@ == whole@,
        res->Ok_0.offset() == whole.offset(),
        res->Ok_0.capacity() == whole.capacity(),
{
    assert(left@ + right@ =~= whole@);
}

/// Splitting a shard and merging the two parts without allocation gives the
/// shard back, however many other shards its allocation has.
pub proof fn lemma_split_merge_noalloc<T>(
    whole: VecShard<T>,
    at: nat,
    left: VecShard<T>,
    right: VecShard<T>,
    owners: usize,
    res: Result<VecShard<T>, CantMerge<T, WouldAlloc>>,
)
    requires
        whole.wf(),
        at <= whole@.len(),
        whole.splits_into(at, &left, &right),
        VecShard::noalloc_outcome(&left, &right, true, owners, res),
    ensures
        res is Ok,
        res->Ok_0.wf(),
        res->Ok_0@ == whole@,
        res->Ok_0.offset() == whole.offset(),
        res->Ok_0.capacity() == whole.capacity(),
{
    assert(left@ + right@ =~= whole@);
}

/// Splitting a shard and merging the two parts gives a shard with the
/// elements of the whole, in their order, whatever the handles say. Where
/// they say that the parts share an allocation, the merged shard lies where
/// the whole lay.
pub proof fn lemma_split_merge<T>(
    whole: VecShard<T>,
    at: nat,
    left: VecShard<T>,
    right: VecShard<T>,
    same_allocation: bool,
    owners: usize,
    merged: VecShard<T>,
)
    requires
        whole.wf(),
        at <= whole@.len(),
        whole.splits_into(at, &left, &right),
        VecShard::merge_outcome(&left, &right, same_allocation, owners, &merged),
    ensures
        merged.wf(),
        merged@ == whole@,
        same_allocation ==> merged.offset() == whole.offset() && merged.capacity()
            == whole.capacity(),
{
    assert(left@ + right@ =~= whole@);
}

/// Two shards that are the only two left of their allocation are always
/// merged without allocation, whichever lies lower and whichever is passed
/// first: the merged shard holds the elements of the first, then those of
/// the second, inside the allocation that both came from.
pub proof fn lemma_last_two_merge_noalloc<T>(
    left: VecShard<T>,
    right: VecShard<T>,
    res: Result<VecShard<T>, CantMerge<T, WouldAlloc>>,
)
    requires
        left.wf(),
        right.wf(),
        left.capacity() == right.capacity(),
        left.disjoint(&right),
        VecShard::noalloc_outcome(&left, &right, true, 2, res),
    ensures
        res is Ok,
        res->Ok_0.wf(),
        res->Ok_0@ == left@ + right@,
        res->Ok_0.capacity() == left.capacity(),
        VecShard::noalloc_offset(&right, &left, true, 2) is Some,
{
}

/// Merging the only two shards left of an allocation never leaves that
/// allocation: the merged shard lies inside it, at a place that the two
/// shards and the space between them covered.
pub proof fn lemma_last_two_merge_stays<T>(
    left: VecShard<T>,
    right: VecShard<T>,
    merged: VecShard<T>,
)
    requires
        left.wf(),
        right.wf(),
        left.capacity() == right.capacity(),
        left.disjoint(&right),
        VecShard::merge_outcome(&left, &right, true, 2, &merged),
    ensures
        merged.wf(),
        merged@ == left@ + right@,
        merged.capacity() == left.capacity(),
        merged.offset() >= left.offset() || merged.offset() >= right.offset(),
        merged.end() <= left.end() || merged.end() <= right.end(),
{
}

} // verus!
