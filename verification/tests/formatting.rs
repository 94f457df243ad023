use nonmax_index::{IndexU32, IndexU64, IndexU8, IndexUsize, NonMaxU16, NonMaxU8, format_radix};

#[test]
fn decimal_matches_the_semantic_value() {
    let i = IndexU32::new(4059);
    assert!(i.to_decimal() == format!("{}", i.get()));
    let n = NonMaxU8::new(0).unwrap();
    assert!(n.to_decimal() == format!("{}", n.get()));
    let top = IndexU8::new(u8::MAX - 1);
    assert!(top.to_decimal() == format!("{}", top.get()));
    let u = IndexUsize::new(31_337);
    assert!(u.to_decimal() == format!("{}", u.get()));
}

#[test]
fn decimal_renders_exact_digits() {
    assert!(IndexU8::new(0).to_decimal() == "0");
    assert!(IndexU8::new(254).to_decimal() == "254");
    assert!(IndexU64::new(18_446_744_073_709_551_614).to_decimal() == "18446744073709551614");
}

#[test]
fn radix_renders_the_standard_bases() {
    let i = IndexU8::new(254);
    assert!(i.to_radix(2, false) == "11111110");
    assert!(i.to_radix(8, false) == "376");
    assert!(i.to_radix(16, false) == "fe");
    assert!(i.to_radix(16, true) == "FE");
    let n = NonMaxU16::new(48_879).unwrap();
    assert!(n.to_radix(16, false) == "beef");
    assert!(n.to_radix(16, true) == "BEEF");
}

#[test]
fn radix_matches_the_std_formatter() {
    let v: u64 = 3_735_928_559;
    assert!(format_radix(v, 2, false) == format!("{:b}", v));
    assert!(format_radix(v, 8, false) == format!("{:o}", v));
    assert!(format_radix(v, 10, false) == format!("{}", v));
    assert!(format_radix(v, 16, false) == format!("{:x}", v));
    assert!(format_radix(v, 16, true) == format!("{:X}", v));
}
