use nonmax_index::{IndexU16, IndexU32, IndexU64, IndexU8, IndexUsize, index_too_large};

#[test]
fn usize_round_trips_through_every_width() {
    assert!(IndexU8::from_usize(200).to_usize() == 200);
    assert!(IndexU16::from_usize(60000).to_usize() == 60000);
    assert!(IndexU32::from_usize(4_000_000).to_usize() == 4_000_000);
    assert!(IndexU64::from_usize(4_000_000).to_usize() == 4_000_000);
    assert!(IndexUsize::from_usize(4_000_000).to_usize() == 4_000_000);
    assert!(IndexU8::from_usize(0).to_usize() == 0);
}

#[test]
fn conversion_rejects_the_reserved_maximum() {
    assert!(IndexU8::checked_from_usize(u8::MAX as usize) == Err(index_too_large()));
    assert!(IndexU16::checked_from_usize(u16::MAX as usize) == Err(index_too_large()));
    assert!(IndexUsize::checked_from_usize(usize::MAX) == Err(index_too_large()));
}

#[test]
fn conversion_rejects_values_past_the_width() {
    assert!(IndexU8::checked_from_usize(300) == Err(index_too_large()));
    assert!(IndexU16::checked_from_usize(70_000) == Err(index_too_large()));
    assert!(IndexU8::checked_from_usize(u8::MAX as usize - 1).unwrap().get() == u8::MAX - 1);
}

#[test]
fn wide_index_converts_back_when_it_fits() {
    let i = IndexU64::new(123_456);
    assert!(i.checked_to_usize() == Ok(123_456));
    assert!(i.to_usize() == 123_456);
}
