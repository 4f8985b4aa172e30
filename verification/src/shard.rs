//! The shard type: an owned range of elements inside a shared allocation.
//!
//! A shard owns its elements and records where they lie: in which
//! allocation, and from which element of it on. Shards that were split from
//! one `Vec` co-own its allocation through a counted handle, so that a merge
//! can tell whether two shards are neighbours and whether anybody else is
//! left beside them.

use std::sync::Arc;
use vstd::prelude::*;

verus! {

/// The storage that one `Vec` brought along: how many elements it can hold.
/// Every shard carved from that `Vec` co-owns one `Backing`.
pub(crate) struct Backing {
    pub(crate) capacity: usize,
}

/// A shard of a `Vec<T>`: the elements of one range of the allocation that
/// the `Vec` was made of, owned and dropped on their own.
///
/// Seen as a value, a shard is the sequence of its elements.
pub struct VecShard<T> {
    handle: Arc<Backing>,
    start: usize,
    items: Vec<T>,
}

impl<T> View for VecShard<T> {
    type V = Seq<T>;

    closed spec fn view(&self) -> Seq<T> {
        self.items@
    }
}

/// `Arc::ptr_eq`: `true` only for two handles of one allocation, which then
/// hold the same value.
#[verifier::external_body]
pub(crate) fn same_allocation(a: &Arc<Backing>, b: &Arc<Backing>) -> (same: bool)
    ensures
        same ==> a == b,
{
    Arc::ptr_eq(a, b)
}

/// `Arc::strong_count`: how many handles of this allocation are alive at the
/// moment of the call. Nothing is claimed of the number.
#[verifier::external_body]
pub(crate) fn owner_count(a: &Arc<Backing>) -> (owners: usize) {
    Arc::strong_count(a)
}

/// `Arc::clone`: one more handle of the same allocation, holding the same
/// value.
#[verifier::external_body]
pub(crate) fn share(a: &Arc<Backing>) -> (b: Arc<Backing>)
    ensures
        b == a,
{
    Arc::clone(a)
}

/// `Vec::capacity`: the number of elements the vector has room for, which is
/// never less than its length.
#[verifier::external_body]
fn capacity_of<T>(v: &Vec<T>) -> (capacity: usize)
    ensures
        capacity >= v@.len(),
{
    v.capacity()
}

impl<T> VecShard<T> {
    /// Where the shard's first element lies, counted in elements from the
    /// base of the allocation.
    pub closed spec fn spec_offset(&self) -> usize {
        self.start
    }

    /// How many elements the shard's allocation can hold.
    pub closed spec fn spec_capacity(&self) -> usize {
        self.handle.capacity
    }

    /// One past the shard's last element.
    pub open spec fn end(&self) -> nat {
        (self.offset() + self@.len()) as nat
    }

    /// A shard lies inside its allocation.
    pub open spec fn wf(&self) -> bool {
        self.end() <= self.capacity()
    }

    /// Whether the two shards have no element's place in common.
    pub open spec fn disjoint(&self, other: &Self) -> bool {
        ||| self@.len() == 0
        ||| other@.len() == 0
        ||| self.end() <= other.offset()
        ||| other.end() <= self.offset()
    }

    /// Wraps a vector: the shard covers the whole length, from the base of
    /// the vector's allocation.
    pub fn wrap(v: Vec<T>) -> (shard: Self)
        ensures
            shard.wf(),
            shard@ == v@,
            shard.offset() == 0,
    {
        let capacity = capacity_of(&v);
        VecShard { handle: Arc::new(Backing { capacity }), start: 0, items: v }
    }

    /// Puts a shard together from a handle of its allocation, the place of
    /// its first element and its elements.
    pub(crate) fn from_raw_parts(handle: Arc<Backing>, start: usize, items: Vec<T>) -> (shard:
        Self)
        requires
            start + items@.len() <= handle.capacity,
        ensures
            shard.wf(),
            shard@ == items@,
            shard.offset() == start,
            shard.capacity() == handle.capacity,
    {
        VecShard { handle, start, items }
    }

    /// Takes a shard apart into the handle of its allocation, the place of
    /// its first element and its elements.
    pub(crate) fn into_raw_parts(self) -> (parts: (Arc<Backing>, usize, Vec<T>))
        ensures
            parts.0.capacity == self.capacity(),
            parts.1 == self.offset(),
            parts.2@ == self@,
    {
        let VecShard { handle, start, items } = self;
        (handle, start, items)
    }

    /// The shard's handle of its allocation.
    pub(crate) fn handle(&self) -> (handle: &Arc<Backing>)
        ensures
            handle.capacity == self.capacity(),
    {
        &self.handle
    }

    /// Where the shard's first element lies, counted in elements from the
    /// base of the allocation.
    #[verifier::when_used_as_spec(spec_offset)]
    pub fn offset(&self) -> (offset: usize)
        ensures
            offset == self.spec_offset(),
    {
        self.start
    }

    /// How many elements the shard's allocation can hold.
    #[verifier::when_used_as_spec(spec_capacity)]
    pub fn capacity(&self) -> (capacity: usize)
        ensures
            capacity == self.spec_capacity(),
    {
        self.handle.capacity
    }

    /// One past the place of the shard's last element.
    pub(crate) fn stop(&self) -> (stop: usize)
        requires
            self.wf(),
        ensures
            stop == self.end(),
    {
        self.start + self.items.len()
    }

    /// The elements of the shard, as the vector that holds them.
    pub(crate) fn items(&self) -> (items: &Vec<T>)
        ensures
            items@ == self@,
    {
        &self.items
    }

    /// The number of elements in the shard.
    pub fn len(&self) -> (n: usize)
        ensures
            n == self@.len(),
    {
        self.items.len()
    }

    /// The elements of the shard, in order.
    pub fn as_slice(&self) -> (slice: &[T])
        ensures
            slice@ == self@,
    {
        self.items.as_slice()
    }

    /// The elements of the shard, in order, to be changed in place. The
    /// shard stays where it is.
    pub fn as_mut_slice(&mut self) -> (slice: &mut [T])
        ensures
            slice@ == old(self)@,
            final(slice)@ == final(self)@,
            final(self).offset() == old(self).offset(),
            final(self).capacity() == old(self).capacity(),
    {
        self.items.as_mut_slice()
    }

    /// Hands out the elements of the shard as a vector.
    pub fn into_vec(self) -> (v: Vec<T>)
        ensures
            v@ == self@,
    {
        let (_, _, items) = self.into_raw_parts();
        items
    }

    /// Whether the two shards have no element's place in common.
    pub(crate) fn is_disjoint(&self, other: &Self) -> (apart: bool)
        requires
            self.wf(),
            other.wf(),
        ensures
            apart == self.disjoint(other),
    {
        self.items.len() == 0 || other.items.len() == 0 || self.stop() <= other.start
            || other.stop() <= self.start
    }

    /// Takes the first element out of the shard, which then begins one
    /// element further on. An empty shard gives nothing and stays as it is.
    pub fn next(&mut self) -> (item: Option<T>)
        requires
            old(self).wf(),
        ensures
            final(self).wf(),
            final(self).capacity() == old(self).capacity(),
            match item {
                Some(first) => {
                    &&& old(self)@.len() > 0
                    &&& first == old(self)@[0]
                    &&& final(self)@ == old(self)@.subrange(1, old(self)@.len() as int)
                    &&& final(self).offset() == old(self).offset() + 1
                },
                None => {
                    &&& old(self)@.len() == 0
                    &&& final(self)@ == old(self)@
                    &&& final(self).offset() == old(self).offset()
                },
            },
    {
        if self.items.len() > 0 {
            let first = self.items.remove(0);
            self.start = self.start + 1;
            Some(first)
        } else {
            None
        }
    }

    /// Takes the last element out of the shard, which stays where it began.
    /// An empty shard gives nothing and stays as it is.
    pub fn next_back(&mut self) -> (item: Option<T>)
        requires
            old(self).wf(),
        ensures
            final(self).wf(),
            final(self).capacity() == old(self).capacity(),
            final(self).offset() == old(self).offset(),
            match item {
                Some(last) => {
                    &&& old(self)@.len() > 0
                    &&& last == old(self)@[old(self)@.len() - 1]
                    &&& final(self)@ == old(self)@.subrange(0, old(self)@.len() - 1)
                },
                None => old(self)@.len() == 0 && final(self)@ == old(self)@,
            },
    {
        self.items.pop()
    }

    /// The bounds on how many elements are left to take out: both are the
    /// length.
    pub fn size_hint(&self) -> (bounds: (usize, Option<usize>))
        ensures
            bounds.0 == self@.len(),
            bounds.1 == Some(bounds.0),
    {
        (self.items.len(), Some(self.items.len()))
    }
}

} // verus!
