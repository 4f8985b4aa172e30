//! Conversions between vectors and shards, copies and comparison.

use crate::shard::VecShard;
use vstd::prelude::*;
use vstd::std_specs::cmp::PartialEqSpec;

verus! {

impl<T> core::convert::From<Vec<T>> for VecShard<T> {
    /// Wraps the vector as one shard over its whole length.
    fn from(v: Vec<T>) -> (shard: VecShard<T>)
        ensures
            shard.wf(),
            shard@ == v@,
            shard.offset() == 0,
    {
        VecShard::wrap(v)
    }
}

impl<T> vstd::std_specs::convert::FromSpecImpl<Vec<T>> for VecShard<T> {
    open spec fn obeys_from_spec() -> bool {
        false
    }

    open spec fn from_spec(v: Vec<T>) -> VecShard<T> {
        choose|shard: VecShard<T>| shard.wf() && shard@ == v@ && shard.offset() == 0
    }
}

impl<T> core::convert::From<VecShard<T>> for Vec<T> {
    /// Hands out the elements of the shard as a vector.
    fn from(shard: VecShard<T>) -> (v: Vec<T>)
        ensures
            v@ == shard@,
    {
        shard.into_vec()
    }
}

impl<T> vstd::std_specs::convert::FromSpecImpl<VecShard<T>> for Vec<T> {
    open spec fn obeys_from_spec() -> bool {
        false
    }

    open spec fn from_spec(shard: VecShard<T>) -> Vec<T> {
        choose|v: Vec<T>| v@ == shard@
    }
}

impl<T: Clone> Clone for VecShard<T> {
    /// A copy of the elements in an allocation of its own.
    fn clone(&self) -> (copy: VecShard<T>)
        ensures
            copy.wf(),
            copy.offset() == 0,
            copy@.len() == self@.len(),
            forall|i: int| 0 <= i < self@.len() ==> cloned::<T>(self@[i], #[trigger] copy@[i]),
    {
        let mut items = Vec::with_capacity(self.len());
        items.extend_from_slice(self.as_slice());
        VecShard::wrap(items)
    }
}

impl<T: PartialEq> PartialEq for VecShard<T> {
    /// Two shards are equal when their elements are, one by one.
    fn eq(&self, rhs: &VecShard<T>) -> (same: bool) {
        *self.items() == *rhs.items()
    }
}

impl<T: PartialEq> vstd::std_specs::cmp::PartialEqSpecImpl for VecShard<T> {
    open spec fn obeys_eq_spec() -> bool {
        T::obeys_eq_spec()
    }

    open spec fn eq_spec(&self, rhs: &VecShard<T>) -> bool {
        &&& self@.len() == rhs@.len()
        &&& forall|i: int| #![auto] 0 <= i < self@.len() ==> self@[i].eq_spec(&rhs@[i])
    }
}

impl<T: Eq> Eq for VecShard<T> {}

/// `Hash::hash` of a slice: feeds the length and the elements to the hasher.
/// Nothing is claimed of the hasher's state afterwards.
#[verifier::external_body]
fn hash_slice<T: core::hash::Hash, H: core::hash::Hasher>(items: &[T], state: &mut H) {
    core::hash::Hash::hash(items, state)
}

impl<T: core::hash::Hash> core::hash::Hash for VecShard<T> {
    /// Feeds the elements to the hasher, as a slice of them would be.
    fn hash<H: core::hash::Hasher>(&self, state: &mut H) {
        hash_slice(self.as_slice(), state)
    }
}

} // verus!
