use exponential_backoff::Delay;

#[test]
fn constructors_count_nanoseconds() {
    assert_eq!(Delay::zero().as_nanos(), 0);
    assert_eq!(Delay::from_nanos(7).as_nanos(), 7);
    assert_eq!(Delay::from_millis(10).as_nanos(), 10_000_000);
    assert_eq!(Delay::from_secs(1).as_nanos(), 1_000_000_000);
    assert_eq!(Delay::from_parts(2, 500).as_nanos(), 2_000_000_500);
    assert_eq!(Delay::from_parts(2, 500).as_secs(), 2);
    assert_eq!(Delay::from_parts(2, 500).subsec_nanos(), 500);
    assert_eq!(Delay::maximum().as_secs(), u64::MAX);
    assert_eq!(Delay::maximum().subsec_nanos(), 999_999_999);
}

#[test]
fn arithmetic_saturates() {
    let max = Delay::maximum();
    assert_eq!(max.saturating_mul(2).as_nanos(), max.as_nanos());
    assert_eq!(max.saturating_add(Delay::from_nanos(1)).as_nanos(), max.as_nanos());
    assert_eq!(Delay::zero().saturating_sub(Delay::from_nanos(1)).as_nanos(), 0);
}

#[test]
fn arithmetic_is_exact_in_range() {
    let d = Delay::from_millis(3);
    assert_eq!(d.saturating_mul(4).as_nanos(), 12_000_000);
    assert_eq!(d.saturating_add(Delay::from_millis(2)).as_nanos(), 5_000_000);
    assert_eq!(d.saturating_sub(Delay::from_millis(1)).as_nanos(), 2_000_000);
    assert_eq!(d.div(2).as_nanos(), 1_500_000);
    assert_eq!(d.min(Delay::from_millis(2)).as_nanos(), 2_000_000);
    assert_eq!(d.max(Delay::from_millis(2)).as_nanos(), 3_000_000);
    assert!(Delay::from_millis(2).le(&d));
    assert!(!d.le(&Delay::from_millis(2)));
}
