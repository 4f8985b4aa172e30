//! Reasons why a cheap merge was refused.

use crate::shard::VecShard;
use vstd::prelude::*;

verus! {

/// A refused merge: both shards come back untouched, with the reason.
#[derive(Debug)]
pub struct CantMerge<T, E> {
    pub left: VecShard<T>,
    pub right: VecShard<T>,
    pub reason: E,
}

/// A reason why an in-place merge was unsuccessful.
#[derive(Debug, PartialEq, Eq, Structural, Copy, Clone)]
pub enum WouldMove {
    DifferentAllocations,
    NotAdjacent,
    WrongOrder,
}

impl WouldMove {
    /// The sentence that describes this reason.
    pub open spec fn message(self) -> Seq<char> {
        match self {
            WouldMove::DifferentAllocations =>
                "the two shards are not from the same memory allocation."@,
            WouldMove::NotAdjacent => "the two shards are not directly adjacent in memory."@,
            WouldMove::WrongOrder =>
                "the two shards are adjacent, but were passed in the reverse order."@,
        }
    }

    /// Renders the reason as a sentence.
    pub fn to_string(&self) -> (text: String)
        ensures
            text@ == self.message(),
    {
        match self {
            WouldMove::DifferentAllocations =>
                "the two shards are not from the same memory allocation.".to_owned(),
            WouldMove::NotAdjacent => "the two shards are not directly adjacent in memory.".to_owned(),
            WouldMove::WrongOrder =>
                "the two shards are adjacent, but were passed in the reverse order.".to_owned(),
        }
    }
}

/// A reason why a merge without allocation was unsuccessful.
#[derive(Debug, PartialEq, Eq, Structural, Copy, Clone)]
pub enum WouldAlloc {
    DifferentAllocations,
    OtherShardsLeft,
}

impl WouldAlloc {
    /// The sentence that describes this reason.
    pub open spec fn message(self) -> Seq<char> {
        match self {
            WouldAlloc::DifferentAllocations =>
                "the two shards are not from the same memory allocation."@,
            WouldAlloc::OtherShardsLeft =>
                "the two shards are not directly adjacent in memory and can't be moved around because there are still other shards in the Vec"@,
        }
    }

    /// Renders the reason as a sentence.
    pub fn to_string(&self) -> (text: String)
        ensures
            text@ == self.message(),
    {
        match self {
            WouldAlloc::DifferentAllocations =>
                "the two shards are not from the same memory allocation.".to_owned(),
            WouldAlloc::OtherShardsLeft =>
                "the two shards are not directly adjacent in memory and can't be moved around because there are still other shards in the Vec".to_owned(),
        }
    }
}

impl<T> CantMerge<T, WouldMove> {
    /// The sentence that describes this refusal.
    pub open spec fn message(&self) -> Seq<char> {
        "Can't perform quick merge because "@ + self.reason.message()
    }

    /// Renders the refusal as a sentence: that no quick merge was possible,
    /// and why.
    pub fn to_string(&self) -> (text: String)
        ensures
            text@ == self.message(),
    {
        let mut text = "Can't perform quick merge because ".to_owned();
        text.append(self.reason.to_string().as_str());
        text
    }
}

impl<T> CantMerge<T, WouldAlloc> {
    /// The sentence that describes this refusal.
    pub open spec fn message(&self) -> Seq<char> {
        "Can't perform quick merge because "@ + self.reason.message()
    }

    /// Renders the refusal as a sentence: that no quick merge was possible,
    /// and why.
    pub fn to_string(&self) -> (text: String)
        ensures
            text@ == self.message(),
    {
        let mut text = "Can't perform quick merge because ".to_owned();
        text.append(self.reason.to_string().as_str());
        text
    }
}

} // verus!
