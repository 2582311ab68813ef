use rers::limits::clamp_i64_to_usize;

#[test]
fn clamp_keeps_small_positive_values() {
    assert_eq!(clamp_i64_to_usize(0), 0);
    assert_eq!(clamp_i64_to_usize(1), 1);
    assert_eq!(clamp_i64_to_usize(1000), 1000);
}

#[test]
fn clamp_raises_negative_values_to_zero() {
    assert_eq!(clamp_i64_to_usize(-1), 0);
    assert_eq!(clamp_i64_to_usize(i64::MIN), 0);
}

#[test]
fn clamp_never_exceeds_usize_max() {
    let expected = usize::try_from(i64::MAX).unwrap_or(usize::MAX);
    assert_eq!(clamp_i64_to_usize(i64::MAX), expected);
}
