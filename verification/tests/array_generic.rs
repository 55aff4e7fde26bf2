use blend2d::array::Array;
use blend2d::error::Error;
use blend2d::record::Tag;

fn filled(values: &[u32]) -> Array<u32> {
    let mut a: Array<u32> = Array::new();
    a.extend_from_slice(values).unwrap();
    a
}

#[test]
fn len_follows_the_sequence_model() {
    let mut a: Array<u32> = Array::new();
    let mut model: Vec<u32> = Vec::new();
    a.push(1).unwrap();
    model.push(1);
    a.extend_from_slice(&[2, 3, 4, 5]).unwrap();
    model.extend_from_slice(&[2, 3, 4, 5]);
    a.insert(2, 9).unwrap();
    model.insert(2, 9);
    a.remove(0).unwrap();
    model.remove(0);
    a.remove_range(1..3).unwrap();
    model.drain(1..3);
    a.insert_from_slice(1, &[7, 8]).unwrap();
    model.splice(1..1, [7, 8]);
    a.replace_from_slice(0..2, &[6]).unwrap();
    model.splice(0..2, [6]);
    a.truncate(3);
    model.truncate(3);
    assert_eq!(a.len(), model.len());
    assert_eq!(a.as_slice(), model.as_slice());
    assert_eq!(a.as_slice(), &[6u32, 8, 4][..]);
    a.clear();
    assert_eq!(a.len(), 0);
}

#[test]
fn clone_is_equal_and_isolated() {
    let a = filled(&[1, 2, 3]);
    let mut b = a.clone();
    assert!(a == b);
    assert_eq!(b.capacity(), a.capacity());
    b.push(4).unwrap();
    b.replace(0, 10).unwrap();
    assert!(a != b);
    assert_eq!(a.as_slice(), &[1u32, 2, 3][..]);
    assert_eq!(b.as_slice(), &[10u32, 2, 3, 4][..]);
}

#[test]
fn resize_to_current_contents_changes_nothing() {
    let mut a = filled(&[4, 5, 6]);
    let cap = a.capacity();
    let same: Vec<u32> = a.as_slice().to_vec();
    assert_eq!(a.resize(&same), Ok(()));
    assert_eq!(a.len(), 3);
    assert_eq!(a.capacity(), cap);
    assert_eq!(a.as_slice(), &[4u32, 5, 6][..]);
}

#[test]
fn resize_sets_the_contents() {
    let mut a = filled(&[4, 5, 6]);
    assert_eq!(a.resize(&[1, 2, 3, 4, 5]), Ok(()));
    assert_eq!(a.as_slice(), &[1u32, 2, 3, 4, 5][..]);
    assert_eq!(a.capacity(), 5);
    assert_eq!(a.resize(&[9]), Ok(()));
    assert_eq!(a.as_slice(), &[9u32][..]);
    assert_eq!(a.capacity(), 5);
    assert_eq!(a.resize(&[]), Ok(()));
    assert!(a.is_empty());
}

#[test]
fn remove_then_insert_restores_length() {
    let mut a = filled(&[1, 2, 3, 4]);
    assert_eq!(a.remove(2), Ok(()));
    assert_eq!(a.as_slice(), &[1u32, 2, 4][..]);
    assert_eq!(a.insert(2, 30), Ok(()));
    assert_eq!(a.len(), 4);
    assert_eq!(a.as_slice(), &[1u32, 2, 30, 4][..]);
    a.remove(2).unwrap();
    a.insert(2, 3).unwrap();
    assert_eq!(a.as_slice(), &[1u32, 2, 3, 4][..]);
}

#[test]
fn extend_round_trip() {
    let mut a = filled(&[1, 2]);
    let before = a.len();
    let data = [10u32, 20, 30];
    assert_eq!(a.extend_from_slice(&data), Ok(()));
    assert_eq!(a.len(), before + data.len());
    assert_eq!(&a.as_slice()[before..], &data[..]);
    assert_eq!(&a.as_slice()[..before], &[1u32, 2][..]);
}

#[test]
fn try_reserve_beyond_memory_reports_allocation_failure() {
    let mut a: Array<u64> = Array::new();
    a.push(3).unwrap();
    let cap = a.capacity();
    assert_eq!(a.try_reserve(1_000_000_000_000), Err(Error::AllocationFailure));
    assert_eq!(a.capacity(), cap);
    assert_eq!(a.as_slice(), &[3u64][..]);
    assert_eq!(a.try_reserve(usize::MAX), Err(Error::AllocationFailure));
    assert_eq!(a.capacity(), cap);
    assert_eq!(a.as_slice(), &[3u64][..]);
}

#[test]
fn try_reserve_and_reserve_grow_the_capacity() {
    let mut a = filled(&[1, 2, 3]);
    assert_eq!(a.capacity(), 3);
    assert_eq!(a.try_reserve(2), Ok(()));
    assert_eq!(a.capacity(), 3);
    assert_eq!(a.try_reserve(10), Ok(()));
    assert_eq!(a.capacity(), 10);
    a.reserve(4);
    assert_eq!(a.capacity(), 10);
    a.reserve(64);
    assert_eq!(a.capacity(), 64);
    assert_eq!(a.as_slice(), &[1u32, 2, 3][..]);
}

#[test]
fn remove_range_reversed_or_out_of_bounds_is_refused() {
    let mut a = filled(&[1, 2, 3, 4, 5]);
    let cap = a.capacity();
    #[allow(clippy::reversed_empty_ranges)]
    let reversed = 3..1;
    assert_eq!(a.remove_range(reversed), Err(Error::InvalidArgument));
    assert_eq!(a.as_slice(), &[1u32, 2, 3, 4, 5][..]);
    assert_eq!(a.remove_range(2..6), Err(Error::InvalidArgument));
    assert_eq!(a.remove_range(6..7), Err(Error::InvalidArgument));
    assert_eq!(a.as_slice(), &[1u32, 2, 3, 4, 5][..]);
    assert_eq!(a.len(), 5);
    assert_eq!(a.capacity(), cap);
}

#[test]
fn remove_range_takes_out_the_range() {
    let mut a = filled(&[1, 2, 3, 4, 5]);
    assert_eq!(a.remove_range(1..3), Ok(()));
    assert_eq!(a.as_slice(), &[1u32, 4, 5][..]);
    assert_eq!(a.remove_range(3..3), Ok(()));
    assert_eq!(a.as_slice(), &[1u32, 4, 5][..]);
    assert_eq!(a.remove_range(0..3), Ok(()));
    assert!(a.is_empty());
    assert_eq!(a.capacity(), 5);
}

#[test]
fn remove_out_of_range_is_refused() {
    let mut a = filled(&[1, 2]);
    assert_eq!(a.remove(2), Err(Error::InvalidArgument));
    assert_eq!(a.as_slice(), &[1u32, 2][..]);
    assert_eq!(a.remove(0), Ok(()));
    assert_eq!(a.as_slice(), &[2u32][..]);
    let mut e: Array<u32> = Array::new();
    assert_eq!(e.remove(0), Err(Error::InvalidArgument));
}

#[test]
fn truncate_clamps_to_the_length() {
    let mut a = filled(&[1, 2, 3]);
    a.truncate(7);
    assert_eq!(a.as_slice(), &[1u32, 2, 3][..]);
    a.truncate(3);
    assert_eq!(a.len(), 3);
    a.truncate(1);
    assert_eq!(a.as_slice(), &[1u32][..]);
    assert_eq!(a.capacity(), 3);
    a.truncate(0);
    assert!(a.is_empty());
}

#[test]
fn clear_keeps_capacity_and_shrink_gives_it_back() {
    let mut a = filled(&[1, 2, 3, 4]);
    a.reserve(16);
    a.truncate(2);
    assert_eq!(a.capacity(), 16);
    a.shrink_to_fit();
    assert_eq!(a.capacity(), 2);
    assert_eq!(a.as_slice(), &[1u32, 2][..]);
    a.reserve(8);
    a.clear();
    assert_eq!(a.len(), 0);
    assert_eq!(a.capacity(), 8);
    a.shrink_to_fit();
    assert_eq!(a.capacity(), 0);
}

#[test]
fn insert_from_slice_shifts_the_rest() {
    let mut a = filled(&[1, 2, 3]);
    assert_eq!(a.insert_from_slice(1, &[8, 9]), Ok(()));
    assert_eq!(a.as_slice(), &[1u32, 8, 9, 2, 3][..]);
    assert_eq!(a.insert_from_slice(5, &[7]), Ok(()));
    assert_eq!(a.as_slice(), &[1u32, 8, 9, 2, 3, 7][..]);
    assert_eq!(a.insert_from_slice(0, &[]), Ok(()));
    assert_eq!(a.len(), 6);
    assert_eq!(a.insert_from_slice(7, &[0]), Err(Error::InvalidArgument));
    assert_eq!(a.as_slice(), &[1u32, 8, 9, 2, 3, 7][..]);
}

#[test]
fn replace_from_slice_adjusts_the_length() {
    let mut a = filled(&[1, 2, 3, 4, 5]);
    assert_eq!(a.replace_from_slice(1..4, &[9]), Ok(()));
    assert_eq!(a.as_slice(), &[1u32, 9, 5][..]);
    assert_eq!(a.replace_from_slice(0..1, &[6, 7, 8]), Ok(()));
    assert_eq!(a.as_slice(), &[6u32, 7, 8, 9, 5][..]);
    assert_eq!(a.replace_from_slice(5..5, &[0]), Ok(()));
    assert_eq!(a.as_slice(), &[6u32, 7, 8, 9, 5, 0][..]);
    assert_eq!(a.capacity(), 6);
    assert_eq!(a.replace_from_slice(4..7, &[1]), Err(Error::InvalidArgument));
    #[allow(clippy::reversed_empty_ranges)]
    let reversed = 2..1;
    assert_eq!(a.replace_from_slice(reversed, &[1]), Err(Error::InvalidArgument));
    assert_eq!(a.as_slice(), &[6u32, 7, 8, 9, 5, 0][..]);
}

#[test]
fn equality_is_by_contents_not_capacity() {
    let a = filled(&[1, 2, 3]);
    let mut b = filled(&[1, 2, 3]);
    b.reserve(100);
    assert!(a == b);
    let c = filled(&[1, 2, 4]);
    assert!(a != c);
    let d = filled(&[1, 2]);
    assert!(a != d);
    let e: Array<u32> = Array::new();
    let f: Array<u32> = Array::default();
    assert!(e == f);
}

#[test]
fn read_only_views_agree() {
    let a = filled(&[3, 1, 2]);
    let by_ref: &[u32] = a.as_ref();
    let by_deref: &[u32] = &a;
    assert_eq!(by_ref, a.as_slice());
    assert_eq!(by_deref, a.as_slice());
    assert_eq!(a[1], 1);
    assert_eq!(a.iter().copied().max(), Some(3));
}

#[test]
fn records_are_filled_from_slices() {
    let mut a: Array<Tag> = Array::new();
    let tags = [Tag { value: 0x676c_7966 }, Tag { value: 0x6865_6164 }];
    assert_eq!(a.extend_from_slice(&tags), Ok(()));
    assert_eq!(a.len(), 2);
    assert_eq!(a.as_slice()[1], Tag { value: 0x6865_6164 });
    assert_eq!(a.insert_from_slice(1, &[Tag { value: 7 }]), Ok(()));
    assert_eq!(a.as_slice()[1].value, 7);
    assert_eq!(a.as_slice()[2].value, 0x6865_6164);
}

#[test]
fn granted_room_makes_growing_succeed() {
    let mut a: Array<u32> = Array::new();
    assert_eq!(a.push_settled(5, true), Ok(()));
    assert_eq!(a.push_settled(7, true), Ok(()));
    assert_eq!(a.insert_settled(1, 6, true), Ok(()));
    assert_eq!(a.as_slice(), &[5u32, 6, 7][..]);
    assert_eq!(a.capacity(), 3);
    assert_eq!(a.extend_settled(&[8, 9], true), Ok(()));
    assert_eq!(a.insert_slice_settled(0, &[1, 2], true), Ok(()));
    assert_eq!(a.as_slice(), &[1u32, 2, 5, 6, 7, 8, 9][..]);
    assert_eq!(a.replace_slice_settled(2..5, &[3, 4, 5, 6], true), Ok(()));
    assert_eq!(a.as_slice(), &[1u32, 2, 3, 4, 5, 6, 8, 9][..]);
    assert_eq!(a.capacity(), 8);
    assert_eq!(a.resize_settled(&[1, 2, 3, 4, 5, 6, 7, 8, 9], true), Ok(()));
    assert_eq!(a.len(), 9);
    assert_eq!(a.capacity(), 9);
}

#[test]
fn refused_room_makes_growing_fail_and_changes_nothing() {
    let mut a = filled(&[1, 2, 3]);
    assert_eq!(a.capacity(), 3);
    assert_eq!(a.push_settled(4, false), Err(Error::AllocationFailure));
    assert_eq!(a.insert_settled(0, 4, false), Err(Error::AllocationFailure));
    assert_eq!(a.extend_settled(&[4], false), Err(Error::AllocationFailure));
    assert_eq!(a.insert_slice_settled(1, &[4, 5], false), Err(Error::AllocationFailure));
    assert_eq!(a.replace_slice_settled(0..1, &[4, 5], false), Err(Error::AllocationFailure));
    assert_eq!(a.resize_settled(&[1, 2, 3, 4], false), Err(Error::AllocationFailure));
    assert_eq!(a.as_slice(), &[1u32, 2, 3][..]);
    assert_eq!(a.capacity(), 3);
    assert_eq!(a.insert_settled(4, 9, true), Err(Error::InvalidArgument));
    assert_eq!(a.insert_slice_settled(4, &[9], true), Err(Error::InvalidArgument));
    assert_eq!(a.replace_slice_settled(2..4, &[9], true), Err(Error::InvalidArgument));
    assert_eq!(a.as_slice(), &[1u32, 2, 3][..]);
}

#[test]
fn reserved_room_needs_no_grant() {
    let mut a = filled(&[1, 2, 3]);
    a.reserve(5);
    assert_eq!(a.push_settled(4, false), Ok(()));
    assert_eq!(a.replace_slice_settled(0..2, &[7, 8, 9], false), Ok(()));
    assert_eq!(a.as_slice(), &[7u32, 8, 9, 3, 4][..]);
    assert_eq!(a.capacity(), 5);
    assert_eq!(a.replace_slice_settled(0..4, &[0], false), Ok(()));
    assert_eq!(a.as_slice(), &[0u32, 4][..]);
    assert_eq!(a.resize_settled(&[6, 6, 6], false), Ok(()));
    assert_eq!(a.as_slice(), &[6u32, 6, 6][..]);
    assert_eq!(a.capacity(), 5);
}

#[test]
fn settle_reserve_books_the_answer() {
    let mut a = filled(&[1, 2, 3]);
    assert_eq!(a.settle_reserve(1_000_000_000_000, false), Err(Error::AllocationFailure));
    assert_eq!(a.capacity(), 3);
    assert_eq!(a.settle_reserve(2, false), Ok(()));
    assert_eq!(a.capacity(), 3);
    assert_eq!(a.settle_reserve(10, true), Ok(()));
    assert_eq!(a.capacity(), 10);
    assert_eq!(a.settle_reserve(4, true), Ok(()));
    assert_eq!(a.capacity(), 10);
    assert_eq!(a.as_slice(), &[1u32, 2, 3][..]);
}

#[test]
fn slices_grow_a_full_container() {
    let mut a = filled(&[1, 2, 3, 4, 5]);
    assert_eq!(a.replace_from_slice(1..3, &[9, 8, 7]), Ok(()));
    assert_eq!(a.as_slice(), &[1u32, 9, 8, 7, 4, 5][..]);
    assert_eq!(a.len(), 6);
    let mut b = filled(&[1, 2]);
    assert_eq!(b.insert_from_slice(2, &[3, 4]), Ok(()));
    assert_eq!(b.as_slice(), &[1u32, 2, 3, 4][..]);
}
