use nihav_core::mv::MV;

#[test]
fn pred_distinct_components() {
    assert_eq!(
        MV::pred(MV::new(0, 0), MV::new(5, 5), MV::new(10, 10)),
        MV::new(5, 5)
    );
}

#[test]
fn pred_mixed_components() {
    assert_eq!(
        MV::pred(MV::new(10, 0), MV::new(0, 10), MV::new(5, 5)),
        MV::new(5, 5)
    );
}

#[test]
fn pred_all_equal() {
    assert_eq!(
        MV::pred(MV::new(3, 3), MV::new(3, 3), MV::new(3, 3)),
        MV::new(3, 3)
    );
}

#[test]
fn pred_negative_values() {
    assert_eq!(
        MV::pred(MV::new(-5, -5), MV::new(0, 0), MV::new(5, 5)),
        MV::new(0, 0)
    );
}

#[test]
fn pred_two_equal_one_apart() {
    assert_eq!(
        MV::pred(MV::new(7, -2), MV::new(7, -2), MV::new(-9, 4)),
        MV::new(7, -2)
    );
}

#[test]
fn add_wraps_on_overflow() {
    assert_eq!(MV::new(32767, 0) + MV::new(1, 0), MV::new(-32768, 0));
}

#[test]
fn sub_wraps_on_underflow() {
    assert_eq!(MV::new(-32768, 0) - MV::new(1, 0), MV::new(32767, 0));
}

#[test]
fn add_componentwise() {
    assert_eq!(MV::new(3, -4) + MV::new(10, 6), MV::new(13, 2));
}

#[test]
fn sub_componentwise() {
    assert_eq!(MV::new(3, -4) - MV::new(10, 6), MV::new(-7, -10));
}

#[test]
fn zero_is_additive_identity() {
    let v = MV::new(-123, 456);
    assert_eq!(MV::zero() + v, v);
    assert_eq!(v + MV::zero(), v);
}

#[test]
fn self_difference_is_zero() {
    let v = MV::new(31000, -31000);
    assert_eq!(v - v, MV::zero());
}

#[test]
fn renders_components_comma_separated() {
    assert_eq!(MV::new(1, -2).to_string(), "1,-2");
    assert_eq!(MV::zero().to_string(), "0,0");
    assert_eq!(MV::new(120, 4500).to_string(), "120,4500");
    assert_eq!(MV::new(-32768, 32767).to_string(), "-32768,32767");
}

#[test]
fn zero_has_zero_components() {
    assert_eq!(MV::zero(), MV::new(0, 0));
    assert_eq!(MV::zero().x, 0);
    assert_eq!(MV::zero().y, 0);
}
