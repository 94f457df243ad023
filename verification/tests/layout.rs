use core::mem::size_of;
use nonmax_index::{
    IndexU16, IndexU32, IndexU64, IndexU8, IndexUsize, NonMaxU16, NonMaxU32, NonMaxU64, NonMaxU8,
    NonMaxUsize,
};

#[test]
fn optional_non_max_costs_nothing() {
    assert!(size_of::<Option<NonMaxU8>>() == size_of::<u8>());
    assert!(size_of::<Option<NonMaxU16>>() == size_of::<u16>());
    assert!(size_of::<Option<NonMaxU32>>() == size_of::<u32>());
    assert!(size_of::<Option<NonMaxU64>>() == size_of::<u64>());
    assert!(size_of::<Option<NonMaxUsize>>() == size_of::<usize>());
}

#[test]
fn optional_index_costs_nothing() {
    assert!(size_of::<Option<IndexU8>>() == size_of::<u8>());
    assert!(size_of::<Option<IndexU16>>() == size_of::<u16>());
    assert!(size_of::<Option<IndexU32>>() == size_of::<u32>());
    assert!(size_of::<Option<IndexU64>>() == size_of::<u64>());
    assert!(size_of::<Option<IndexUsize>>() == size_of::<usize>());
}

#[test]
fn bare_wrappers_match_their_primitive() {
    assert!(size_of::<NonMaxU8>() == size_of::<u8>());
    assert!(size_of::<IndexU64>() == size_of::<u64>());
    assert!(size_of::<IndexUsize>() == size_of::<usize>());
}
