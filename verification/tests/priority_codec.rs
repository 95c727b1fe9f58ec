use incident_sync::priority::invert;

#[test]
fn maps_the_scale_pairwise() {
    assert_eq!(invert(4), 1);
    assert_eq!(invert(3), 2);
    assert_eq!(invert(2), 3);
    assert_eq!(invert(1), 4);
}

#[test]
fn is_an_involution_on_the_scale() {
    for p in 1..=4u64 {
        assert_eq!(invert(invert(p)), p);
    }
}

#[test]
fn off_scale_priorities_fall_back_to_zero() {
    assert_eq!(invert(0), 0);
    assert_eq!(invert(5), 0);
    assert_eq!(invert(99), 0);
    assert_eq!(invert(u64::MAX), 0);
}
