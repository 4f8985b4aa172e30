//! Rendering a shard for debugging: as the ordered list of its elements.

use crate::shard::VecShard;
use vstd::prelude::*;

verus! {

#[verifier::external_type_specification]
#[verifier::external_body]
pub struct ExFormatter<'a>(core::fmt::Formatter<'a>);

#[verifier::external_type_specification]
#[verifier::external_body]
pub struct ExFmtError(core::fmt::Error);

/// `Debug::fmt` of a slice: writes the elements' own renderings in square
/// brackets, separated by a comma and a space. What an element renders as,
/// and whether the formatter takes it, is their affair: nothing is claimed
/// of the result.
#[verifier::external_body]
fn fmt_slice<T: core::fmt::Debug>(items: &[T], f: &mut core::fmt::Formatter<'_>) -> (res: Result<
    (),
    core::fmt::Error,
>) {
    core::fmt::Debug::fmt(items, f)
}

impl<T: core::fmt::Debug> core::fmt::Debug for VecShard<T> {
    /// Writes the shard as a slice of its elements would be written.
    fn fmt(&self, f: &mut core::fmt::Formatter<'_>) -> (res: Result<(), core::fmt::Error>) {
        fmt_slice(self.as_slice(), f)
    }
}

} // verus!
