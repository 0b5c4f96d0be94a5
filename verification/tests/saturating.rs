use tickets::saturating::SaturatingU16;

#[test]
fn conversions_keep_the_number() {
    assert_eq!(SaturatingU16::from(5u16), 5u16);
    assert_eq!(SaturatingU16::from(&5u16), 5u16);
    assert_eq!(SaturatingU16::from(7u8), 7u16);
    assert_eq!(SaturatingU16::from(&u8::MAX), 255u16);
    assert_eq!(SaturatingU16::from(u16::MAX), u16::MAX);
    let a: SaturatingU16 = 10u8.into();
    assert_eq!(a, SaturatingU16::from(10u16));
    assert_ne!(a, SaturatingU16::from(11u16));
}

#[test]
fn sums_stop_at_the_largest_value() {
    let a = SaturatingU16::from(10u16);
    let b = SaturatingU16::from(5u8);
    let max = SaturatingU16::from(u16::MAX);
    assert_eq!(a + b, 15u16);
    assert_eq!(a + &b, 15u16);
    assert_eq!(a + 5u16, 15u16);
    assert_eq!(a + max, u16::MAX);
    assert_eq!(max + &a, u16::MAX);
    assert_eq!(max + 1u16, u16::MAX);
    assert_eq!(SaturatingU16::from(u16::MAX - 1) + 1u16, u16::MAX);
    assert_eq!(SaturatingU16::from(u16::MAX - 2) + 1u16, u16::MAX - 1);
    assert_eq!(max + max, u16::MAX);
    assert_eq!(a + a + &b + 5u16, 30u16);
}

#[test]
fn comparison_with_a_number() {
    let a = SaturatingU16::from(10u16);
    assert!(a < 11u16);
    assert!(a <= 10u16);
    assert!(a > 9u16);
    assert!(a >= 10u16);
    assert!(a != 9u16);
    assert_eq!(a.partial_cmp(&10u16), Some(std::cmp::Ordering::Equal));
    assert_eq!(a.partial_cmp(&3u16), Some(std::cmp::Ordering::Greater));
    assert_eq!(a.partial_cmp(&300u16), Some(std::cmp::Ordering::Less));
    assert_eq!(format!("{:?}", a.clone()), "SaturatingU16 { value: 10 }");
}
