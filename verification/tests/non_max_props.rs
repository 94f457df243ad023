use nonmax_index::{NonMaxU16, NonMaxU32, NonMaxU64, NonMaxU8, NonMaxUsize};

#[test]
fn new_is_present_below_the_maximum() {
    assert!(NonMaxU8::new(0).unwrap().get() == 0);
    assert!(NonMaxU8::new(1).unwrap().get() == 1);
    assert!(NonMaxU8::new(u8::MAX - 1).unwrap().get() == u8::MAX - 1);
    assert!(NonMaxU16::new(u16::MAX - 1).unwrap().get() == u16::MAX - 1);
    assert!(NonMaxU32::new(u32::MAX - 1).unwrap().get() == u32::MAX - 1);
    assert!(NonMaxU64::new(u64::MAX - 1).unwrap().get() == u64::MAX - 1);
    assert!(NonMaxUsize::new(usize::MAX - 1).unwrap().get() == usize::MAX - 1);
}

#[test]
fn new_is_absent_at_the_maximum() {
    assert!(NonMaxU8::new(u8::MAX).is_none());
    assert!(NonMaxU16::new(u16::MAX).is_none());
    assert!(NonMaxU32::new(u32::MAX).is_none());
    assert!(NonMaxU64::new(u64::MAX).is_none());
    assert!(NonMaxUsize::new(usize::MAX).is_none());
}

#[test]
fn checked_add_stays_below_the_maximum() {
    let n = NonMaxU8::new(100).unwrap();
    assert!(n.checked_add(50).unwrap().get() == 150);
    assert!(n.checked_add(u8::MAX - 101).unwrap().get() == u8::MAX - 1);
    assert!(n.checked_add(u8::MAX - 100).is_none());
    assert!(n.checked_add(u8::MAX).is_none());
}

#[test]
fn non_max_compares_by_semantic_value() {
    let a = NonMaxU32::new(3).unwrap();
    let b = NonMaxU32::new(5).unwrap();
    assert!(a == NonMaxU32::new(3).unwrap());
    assert!(a != b);
    assert!(a < b);
    assert!(b >= a);
}

#[test]
fn non_max_hashes_as_map_key() {
    let mut m = std::collections::HashMap::new();
    m.insert(NonMaxU8::new(7).unwrap(), 70);
    assert!(m.get(&NonMaxU8::new(7).unwrap()) == Some(&70));
    assert!(m.get(&NonMaxU8::new(8).unwrap()).is_none());
}
