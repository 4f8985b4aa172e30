//! Reading and writing the elements of a shard in place: a shard can be
//! used wherever a slice can.

use crate::shard::VecShard;
use vstd::prelude::*;

verus! {

impl<T> core::ops::Deref for VecShard<T> {
    type Target = [T];

    fn deref(&self) -> (slice: &[T])
        ensures
            slice@ == self@,
    {
        self.as_slice()
    }
}

impl<T> core::ops::DerefMut for VecShard<T> {
    fn deref_mut(&mut self) -> (slice: &mut [T])
        ensures
            slice@ == old(self)@,
            final(slice)@ == final(self)@,
            final(self).offset() == old(self).offset(),
            final(self).capacity() == old(self).capacity(),
    {
        self.as_mut_slice()
    }
}

impl<T> core::convert::AsRef<[T]> for VecShard<T> {
    fn as_ref(&self) -> (slice: &[T])
        ensures
            slice@ == self@,
    {
        self.as_slice()
    }
}

impl<T> core::convert::AsMut<[T]> for VecShard<T> {
    fn as_mut(&mut self) -> (slice: &mut [T])
        ensures
            slice@ == old(self)@,
            final(slice)@ == final(self)@,
            final(self).offset() == old(self).offset(),
            final(self).capacity() == old(self).capacity(),
    {
        self.as_mut_slice()
    }
}

impl<T> core::borrow::Borrow<[T]> for VecShard<T> {
    fn borrow(&self) -> (slice: &[T])
        ensures
            <[T] as View>::view(slice) == self@,
    {
        self.as_slice()
    }
}

impl<T> core::borrow::BorrowMut<[T]> for VecShard<T> {
    fn borrow_mut(&mut self) -> (slice: &mut [T])
        ensures
            <[T] as View>::view(slice) == old(self)@,
            <[T] as View>::view(final(slice)) == final(self)@,
            final(self).offset() == old(self).offset(),
            final(self).capacity() == old(self).capacity(),
    {
        self.as_mut_slice()
    }
}

} // verus!
