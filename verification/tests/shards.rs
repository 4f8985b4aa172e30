use std::borrow::{Borrow, BorrowMut};
use std::collections::hash_map::DefaultHasher;
use std::hash::{Hash, Hasher};
use vecshard::error::{CantMerge, WouldAlloc, WouldMove};
use vecshard::{ShardExt, VecShard};

fn numbers(n: usize) -> Vec<usize> {
    (0..n).map(|i| i * i).collect()
}

fn hash_of<H: Hash + ?Sized>(value: &H) -> u64 {
    let mut hasher = DefaultHasher::new();
    value.hash(&mut hasher);
    hasher.finish()
}

#[test]
fn wrap_covers_the_whole_vector() {
    let mut v = Vec::with_capacity(10);
    v.extend_from_slice(&[7, 8, 9]);
    let room = v.capacity();
    let shard = VecShard::wrap(v);
    assert_eq!(shard.len(), 3);
    assert_eq!(shard.offset(), 0);
    assert_eq!(shard.capacity(), room);
    assert!(shard.capacity() >= 10);
    assert_eq!(shard.as_slice(), &[7, 8, 9]);
}

#[test]
fn split_keeps_places_and_allocation() {
    let v = numbers(9);
    let room = v.capacity();
    let (left, right) = v.split_inplace_at(4);
    assert_eq!((left.offset(), left.len()), (0, 4));
    assert_eq!((right.offset(), right.len()), (4, 5));
    assert_eq!(left.capacity(), room);
    assert_eq!(right.capacity(), room);

    let (middle, right) = right.split_inplace_at(2);
    assert_eq!((middle.offset(), middle.len()), (4, 2));
    assert_eq!((right.offset(), right.len()), (6, 3));
    assert_eq!(*middle, [16, 25]);
    assert_eq!(*right, [36, 49, 64]);
    assert_eq!(middle.capacity(), room);
}

#[test]
fn split_at_the_ends_gives_an_empty_shard() {
    let (left, right) = numbers(3).split_inplace_at(0);
    assert_eq!((left.offset(), left.len()), (0, 0));
    assert_eq!((right.offset(), right.len()), (0, 3));
    assert_eq!(*right, [0, 1, 4]);

    let (left, right) = right.split_inplace_at(3);
    assert_eq!((left.offset(), left.len()), (0, 3));
    assert_eq!((right.offset(), right.len()), (3, 0));
    assert_eq!(*left, [0, 1, 4]);
}

#[test]
fn round_trip_in_place_at_every_point() {
    for n in 0..6 {
        for at in 0..=n {
            let (left, right) = numbers(n).split_inplace_at(at);
            let whole = VecShard::merge_inplace(left, right).unwrap();
            assert_eq!(whole.as_slice(), numbers(n).as_slice());
            assert_eq!(whole.offset(), 0);
        }
    }
}

#[test]
fn round_trip_without_allocation_at_every_point() {
    for n in 0..6 {
        for at in 0..=n {
            let (left, right) = numbers(n).split_inplace_at(at);
            let room = left.capacity();
            let whole = VecShard::merge_noalloc(left, right).unwrap();
            assert_eq!(whole.as_slice(), numbers(n).as_slice());
            assert_eq!(whole.offset(), 0);
            assert_eq!(whole.capacity(), room);
        }
    }
}

#[test]
fn round_trip_with_merge_at_every_point() {
    for n in 0..6 {
        for at in 0..=n {
            let (left, right) = numbers(n).split_inplace_at(at);
            let whole = VecShard::merge(left, right);
            assert_eq!(whole.as_slice(), numbers(n).as_slice());
            let back: Vec<usize> = whole.into();
            assert_eq!(back, numbers(n));
        }
    }
}

#[test]
fn round_trip_of_a_part_keeps_its_place() {
    let (_head, rest) = numbers(8).split_inplace_at(3);
    let (left, right) = rest.split_inplace_at(2);
    // three shards are alive: neighbours merge all the same
    let rest = VecShard::merge_noalloc(left, right).unwrap();
    assert_eq!(*rest, [9, 16, 25, 36, 49]);
    assert_eq!(rest.offset(), 3);
}

#[test]
fn neighbours_in_the_wrong_order() {
    let (left, right) = numbers(5).split_inplace_at(2);
    let CantMerge { left: right, right: left, reason } =
        VecShard::merge_inplace(right, left).unwrap_err();
    assert_eq!(reason, WouldMove::WrongOrder);
    assert_eq!(*left, [0, 1]);
    assert_eq!(*right, [4, 9, 16]);
    assert_eq!((left.offset(), right.offset()), (0, 2));

    let turned = VecShard::merge_noalloc(right, left).unwrap();
    assert_eq!(*turned, [4, 9, 16, 0, 1]);
    assert_eq!(turned.offset(), 0);
}

#[test]
fn last_two_are_moved_together_left_below() {
    let (left, rest) = numbers(8).split_inplace_at(3);
    let (middle, right) = rest.split_inplace_at(3);
    drop(middle);
    let room = left.capacity();
    let merged = VecShard::merge_noalloc(left, right).unwrap();
    assert_eq!(*merged, [0, 1, 4, 36, 49]);
    assert_eq!(merged.offset(), 0);
    assert_eq!(merged.capacity(), room);
}

#[test]
fn last_two_are_moved_together_right_below_and_longer() {
    let (low, rest) = numbers(8).split_inplace_at(4);
    let (middle, high) = rest.split_inplace_at(2);
    drop(middle);
    // the first shard lies higher and is the shorter one
    let merged = VecShard::merge_noalloc(high, low).unwrap();
    assert_eq!(*merged, [36, 49, 0, 1, 4, 9]);
    assert_eq!(merged.offset(), 0);
}

#[test]
fn last_two_are_moved_together_right_below_and_shorter() {
    let (low, rest) = numbers(8).split_inplace_at(2);
    let (middle, high) = rest.split_inplace_at(2);
    drop(middle);
    // the first shard lies higher and is the longer one: the second is put
    // directly below it
    let merged = VecShard::merge_noalloc(high, low).unwrap();
    assert_eq!(*merged, [16, 25, 36, 49, 0, 1]);
    assert_eq!(merged.offset(), 2);

    let (low, rest) = numbers(8).split_inplace_at(2);
    let (middle, high) = rest.split_inplace_at(4);
    drop(middle);
    // equal lengths count as "no longer"
    let merged = VecShard::merge_noalloc(high, low).unwrap();
    assert_eq!(*merged, [36, 49, 0, 1]);
    assert_eq!(merged.offset(), 4);
}

#[test]
fn a_third_shard_blocks_the_move() {
    let (left, rest) = numbers(8).split_inplace_at(3);
    let (middle, right) = rest.split_inplace_at(3);
    let err = VecShard::merge_noalloc(left, right).unwrap_err();
    assert_eq!(err.reason, WouldAlloc::OtherShardsLeft);
    assert_eq!(*err.left, [0, 1, 4]);
    assert_eq!(*err.right, [36, 49]);
    assert_eq!((err.left.offset(), err.right.offset()), (0, 6));
    assert_eq!(*middle, [9, 16, 25]);

    // once the third is gone, the same two merge
    drop(middle);
    let merged = VecShard::merge_noalloc(err.left, err.right).unwrap();
    assert_eq!(*merged, [0, 1, 4, 36, 49]);
}

#[test]
fn different_allocations_never_merge_cheaply() {
    let a = VecShard::from(vec![1, 2, 3]);
    let b = VecShard::from(vec![4, 5, 6]);
    let err = VecShard::merge_inplace(a, b).unwrap_err();
    assert_eq!(err.reason, WouldMove::DifferentAllocations);
    assert_eq!(*err.left, [1, 2, 3]);
    assert_eq!(*err.right, [4, 5, 6]);
    let err = VecShard::merge_noalloc(err.left, err.right).unwrap_err();
    assert_eq!(err.reason, WouldAlloc::DifferentAllocations);
    assert_eq!(*err.left, [1, 2, 3]);
    assert_eq!(*err.right, [4, 5, 6]);
    // the other way round as well
    let err = VecShard::merge_noalloc(err.right, err.left).unwrap_err();
    assert_eq!(err.reason, WouldAlloc::DifferentAllocations);

    // parts of different vectors that would be neighbours by their places
    let (a, _) = vec![1, 2, 3, 4].split_inplace_at(2);
    let (_, b) = vec![5, 6, 7, 8].split_inplace_at(2);
    let err = VecShard::merge_inplace(a, b).unwrap_err();
    assert_eq!(err.reason, WouldMove::DifferentAllocations);
    let merged = VecShard::merge(err.left, err.right);
    assert_eq!(*merged, [1, 2, 7, 8]);
    assert_eq!(merged.offset(), 0);
}

#[test]
fn merge_falls_back_to_a_new_allocation() {
    let (left, rest) = numbers(8).split_inplace_at(3);
    let (middle, right) = rest.split_inplace_at(3);
    let merged = VecShard::merge(right, left);
    assert_eq!(*merged, [36, 49, 0, 1, 4]);
    assert_eq!(merged.offset(), 0);
    assert!(merged.capacity() >= 5);
    // the shard that stayed behind is untouched
    assert_eq!(*middle, [9, 16, 25]);
    assert_eq!(middle.offset(), 3);
    // and the merged shard is no longer its sibling
    let err = VecShard::merge_inplace(merged, middle).unwrap_err();
    assert_eq!(err.reason, WouldMove::DifferentAllocations);
}

#[test]
fn the_answers_of_the_handles_decide() {
    let (left, right) = numbers(4).split_inplace_at(2);
    let err = VecShard::merge_inplace_with(left, right, false).unwrap_err();
    assert_eq!(err.reason, WouldMove::DifferentAllocations);
    let err = VecShard::merge_noalloc_with(err.left, err.right, false, 2).unwrap_err();
    assert_eq!(err.reason, WouldAlloc::DifferentAllocations);
    let merged = VecShard::merge_with(err.left, err.right, false, 2);
    assert_eq!(*merged, [0, 1, 4, 9]);

    let (left, rest) = numbers(6).split_inplace_at(2);
    let (middle, right) = rest.split_inplace_at(2);
    let err = VecShard::merge_inplace_with(left, right, true).unwrap_err();
    assert_eq!(err.reason, WouldMove::NotAdjacent);
    let err = VecShard::merge_noalloc_with(err.left, err.right, true, 3).unwrap_err();
    assert_eq!(err.reason, WouldAlloc::OtherShardsLeft);
    let err = VecShard::merge_noalloc_with(err.left, err.right, true, 1).unwrap_err();
    assert_eq!(err.reason, WouldAlloc::OtherShardsLeft);
    drop(middle);
    let merged = VecShard::merge_noalloc_with(err.left, err.right, true, 2).unwrap();
    assert_eq!(*merged, [0, 1, 16, 25]);
    assert_eq!(merged.offset(), 0);
}

#[test]
fn empty_shards_merge_like_any_other() {
    let (nothing, all) = numbers(3).split_inplace_at(0);
    let whole = VecShard::merge_inplace(nothing, all).unwrap();
    assert_eq!(*whole, [0, 1, 4]);

    let (all, nothing) = whole.split_inplace_at(3);
    let err = VecShard::merge_inplace(nothing, all).unwrap_err();
    assert_eq!(err.reason, WouldMove::WrongOrder);
    let whole = VecShard::merge_noalloc(err.left, err.right).unwrap();
    assert_eq!(*whole, [0, 1, 4]);
    assert_eq!(whole.offset(), 0);

    let a = VecShard::from(Vec::<u8>::new());
    let b = VecShard::from(Vec::<u8>::new());
    let merged = VecShard::merge(a, b);
    assert_eq!(merged.len(), 0);
}

#[test]
fn draining_ends_and_stays_ended() {
    let (_, mut shard) = numbers(6).split_inplace_at(2);
    assert_eq!(shard.size_hint(), (4, Some(4)));
    assert_eq!(shard.next(), Some(4));
    assert_eq!(shard.offset(), 3);
    assert_eq!(shard.next_back(), Some(25));
    assert_eq!(shard.offset(), 3);
    assert_eq!(shard.len(), 2);
    assert_eq!(shard.size_hint(), (2, Some(2)));
    assert_eq!(*shard, [9, 16]);
    assert_eq!(shard.next_back(), Some(16));
    assert_eq!(shard.next(), Some(9));
    for _ in 0..3 {
        assert_eq!(shard.len(), 0);
        assert_eq!(shard.size_hint(), (0, Some(0)));
        assert_eq!(shard.next(), None);
        assert_eq!(shard.next_back(), None);
        assert_eq!(shard.offset(), 4);
    }
}

#[test]
fn what_is_left_after_draining_still_merges() {
    let (mut left, mut right) = numbers(6).split_inplace_at(3);
    assert_eq!(left.next(), Some(0));
    assert_eq!(right.next_back(), Some(25));
    let merged = VecShard::merge_inplace(left, right).unwrap();
    assert_eq!(*merged, [1, 4, 9, 16]);
    assert_eq!(merged.offset(), 1);
}

#[test]
fn elements_change_in_place() {
    let (mut left, mut right) = vec![3, 1, 2, 9, 8, 7].split_inplace_at(3);
    left.sort();
    right.as_mut_slice().reverse();
    right[1] = 0;
    let slice: &mut [i32] = left.as_mut();
    slice[0] = -1;
    let slice: &mut [i32] = right.borrow_mut();
    slice[2] = 10;
    assert_eq!(left[1..], [2, 3]);
    let merged = VecShard::merge(left, right);
    assert_eq!(*merged, [-1, 2, 3, 7, 0, 10]);
}

#[test]
fn a_shard_reads_like_a_slice() {
    let (_, shard) = vec!['a', 'b', 'c', 'd'].split_inplace_at(1);
    let by_as_ref: &[char] = shard.as_ref();
    let by_borrow: &[char] = shard.borrow();
    assert_eq!(by_as_ref, &['b', 'c', 'd']);
    assert_eq!(by_borrow, &['b', 'c', 'd']);
    assert_eq!(shard.as_slice(), &['b', 'c', 'd']);
    assert_eq!(shard.iter().rev().collect::<String>(), "dcb");
    assert!(shard.ends_with(&['d']));
}

#[test]
fn equality_goes_by_the_elements() {
    let (_, a) = vec![0, 1, 2, 3].split_inplace_at(2);
    let b = VecShard::from(vec![2, 3]);
    let c = VecShard::from(vec![2, 4]);
    let d = VecShard::from(vec![2, 3, 4]);
    assert!(a == b);
    assert!(a != c);
    assert!(a != d);
    assert_eq!(hash_of(&a), hash_of(&b));
    assert_eq!(hash_of(&a), hash_of(&[2, 3][..]));
}

#[test]
fn a_clone_has_an_allocation_of_its_own() {
    let (_, shard) = vec!["x".to_string(), "y".to_string(), "z".to_string()].split_inplace_at(1);
    let mut copy = shard.clone();
    assert_eq!(copy.offset(), 0);
    assert_eq!(*copy, ["y".to_string(), "z".to_string()]);
    copy[0].push('!');
    assert_eq!(*shard, ["y".to_string(), "z".to_string()]);
    let err = VecShard::merge_noalloc(shard, copy).unwrap_err();
    assert_eq!(err.reason, WouldAlloc::DifferentAllocations);
}

#[test]
fn debug_renders_the_elements_only() {
    let (_, shard) = vec!["a", "b", "c"].split_inplace_at(1);
    assert_eq!(format!("{:?}", shard), "[\"b\", \"c\"]");
    assert_eq!(format!("{:?}", VecShard::from(Vec::<u8>::new())), "[]");
}

#[test]
fn every_reason_has_its_sentence() {
    assert_eq!(
        WouldMove::DifferentAllocations.to_string(),
        "the two shards are not from the same memory allocation."
    );
    assert_eq!(
        WouldMove::NotAdjacent.to_string(),
        "the two shards are not directly adjacent in memory."
    );
    assert_eq!(
        WouldMove::WrongOrder.to_string(),
        "the two shards are adjacent, but were passed in the reverse order."
    );
    assert_eq!(
        WouldAlloc::DifferentAllocations.to_string(),
        "the two shards are not from the same memory allocation."
    );
    assert_eq!(
        WouldAlloc::OtherShardsLeft.to_string(),
        "the two shards are not directly adjacent in memory and can't be moved around because there are still other shards in the Vec"
    );
}

#[test]
fn a_refusal_says_why() {
    let (left, rest) = numbers(6).split_inplace_at(2);
    let (_middle, right) = rest.split_inplace_at(2);
    let err = VecShard::merge_inplace(left, right).unwrap_err();
    assert_eq!(
        err.to_string(),
        "Can't perform quick merge because the two shards are not directly adjacent in memory."
    );
    let err = VecShard::merge_noalloc(err.left, err.right).unwrap_err();
    assert_eq!(
        err.to_string(),
        "Can't perform quick merge because the two shards are not directly adjacent in memory and can't be moved around because there are still other shards in the Vec"
    );
}

#[test]
fn conversions_both_ways() {
    let shard: VecShard<u8> = vec![1, 2, 3].into();
    assert_eq!(shard.offset(), 0);
    let (_, tail) = shard.split_inplace_at(1);
    let v = Vec::from(tail);
    assert_eq!(v, [2, 3]);
    let (head, _) = vec![4, 5, 6].split_inplace_at(2);
    assert_eq!(head.into_vec(), [4, 5]);
}
