//! Split a `Vec` into independently owned shards, and merge shards back
//! together while keeping track of the allocation they were carved from.
//!
//! [`ShardExt::split_inplace_at`] cuts a `Vec` or a shard in two.
//! [`VecShard::merge_inplace`], [`VecShard::merge_noalloc`] and
//! [`VecShard::merge`] put two shards together again, each trying harder
//! than the one before.

pub mod access;
pub mod convert;
pub mod error;
pub mod fmt;
pub mod laws;
pub mod merge;
pub mod shard;
pub mod split;

pub use crate::shard::VecShard;
pub use crate::split::ShardExt;
