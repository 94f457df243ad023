use nonmax_index::{IndexU16, IndexU32, IndexU64, IndexU8, IndexUsize, index_too_large};

#[test]
fn index_add_works() {
    assert!(IndexU8::new(0) + 0 == IndexU8::new(0));
    assert!(IndexU8::new(0) + 1 == IndexU8::new(1));
    assert!(IndexU8::new(1) + 1 == IndexU8::new(2));
    assert!(IndexU8::new(0) + (u8::MAX - 1) == IndexU8::new(u8::MAX - 1));
    assert!(IndexU8::new(u8::MAX - 1) + 0 == IndexU8::new(u8::MAX - 1));
}

#[test]
fn index_add_works_at_every_width() {
    assert!(IndexU16::new(7) + 8 == IndexU16::new(15));
    assert!(IndexU32::new(7) + 8 == IndexU32::new(15));
    assert!(IndexU64::new(7) + 8 == IndexU64::new(15));
    assert!(IndexUsize::new(7) + 8 == IndexUsize::new(15));
}

#[test]
fn checked_add_to_max_fails() {
    assert!(IndexU8::new(u8::MAX - 1).checked_add(1) == Err(index_too_large()));
    assert!(IndexU16::new(u16::MAX - 1).checked_add(1) == Err(index_too_large()));
    assert!(IndexU32::new(u32::MAX - 1).checked_add(1) == Err(index_too_large()));
    assert!(IndexU64::new(u64::MAX - 1).checked_add(1) == Err(index_too_large()));
    assert!(IndexUsize::new(usize::MAX - 1).checked_add(1) == Err(index_too_large()));
}

#[test]
fn checked_add_past_max_fails() {
    assert!(IndexU8::new(u8::MAX - 1).checked_add(2) == Err(index_too_large()));
    assert!(IndexU8::new(u8::MAX - 1).checked_add(u8::MAX) == Err(index_too_large()));
}

#[test]
fn checked_add_in_range_succeeds() {
    let i = IndexU8::new(10).checked_add(20).unwrap();
    assert!(i.get() == 30);
    let top = IndexU8::new(0).checked_add(u8::MAX - 1).unwrap();
    assert!(top.get() == u8::MAX - 1);
}

#[test]
fn add_assign_updates_in_place() {
    let mut i = IndexU8::new(5);
    i.add_assign(3);
    assert!(i.get() == 8);
    let mut j = IndexUsize::new(100);
    j.add_assign(0);
    assert!(j.get() == 100);
}

#[test]
fn reference_operand_addition_matches_owned() {
    let i = IndexU8::new(1);
    assert!(&i + 1 == IndexU8::new(2));
    assert!(i + &1 == IndexU8::new(2));
    assert!(&i + &1 == IndexU8::new(2));
}

#[test]
fn index_new_reads_back() {
    assert!(IndexU8::new(0).get() == 0);
    assert!(IndexU8::new(1).get() == 1);
    assert!(IndexU8::new(u8::MAX - 1).get() == u8::MAX - 1);
    assert!(IndexU16::new(u16::MAX - 1).get() == u16::MAX - 1);
    assert!(IndexU32::new(u32::MAX - 1).get() == u32::MAX - 1);
    assert!(IndexU64::new(u64::MAX - 1).get() == u64::MAX - 1);
    assert!(IndexUsize::new(usize::MAX - 1).get() == usize::MAX - 1);
}

#[test]
fn checked_new_rejects_only_the_maximum() {
    assert!(IndexU8::checked_new(u8::MAX) == Err(index_too_large()));
    assert!(IndexU16::checked_new(u16::MAX) == Err(index_too_large()));
    assert!(IndexU32::checked_new(u32::MAX) == Err(index_too_large()));
    assert!(IndexU64::checked_new(u64::MAX) == Err(index_too_large()));
    assert!(IndexUsize::checked_new(usize::MAX) == Err(index_too_large()));
    assert!(IndexU8::checked_new(u8::MAX - 1).unwrap().get() == u8::MAX - 1);
    assert!(IndexU8::checked_new(0).unwrap().get() == 0);
}

#[test]
fn indexes_order_by_semantic_value() {
    assert!(IndexU8::new(1) < IndexU8::new(2));
    assert!(IndexU8::new(2) > IndexU8::new(1));
    assert!(IndexU8::new(2) <= IndexU8::new(2));
    assert!(IndexU8::new(0) != IndexU8::new(1));
    let mut v = vec![IndexU32::new(9), IndexU32::new(1), IndexU32::new(4)];
    v.sort();
    assert!(v[0].get() == 1 && v[1].get() == 4 && v[2].get() == 9);
}

#[test]
fn indexes_hash_as_map_keys() {
    let mut m = std::collections::HashMap::new();
    m.insert(IndexU16::new(3), "three");
    m.insert(IndexU16::new(4), "four");
    assert!(m.get(&IndexU16::new(3)) == Some(&"three"));
    assert!(m.get(&IndexU16::new(5)).is_none());
    let mut s = std::collections::BTreeSet::new();
    s.insert(IndexU16::new(8));
    s.insert(IndexU16::new(2));
    assert!(s.iter().next().unwrap().get() == 2);
}

#[test]
fn the_condition_names_itself() {
    assert!(index_too_large().message() == "index too large");
    match IndexU8::checked_new(u8::MAX) {
        Err(e) => assert!(e.message() == "index too large"),
        Ok(_) => panic!(),
    }
}
