use pacy::{narrow_nanos, ComparativeTimestamp};
use std::time::{Duration, Instant};

#[test]
fn counters_are_measured_by_subtraction() {
    assert_eq!(u64::difference(10, 10), Some(0));
    assert_eq!(u64::difference(10, 25), Some(15));
    assert_eq!(u64::difference(0, u64::MAX), Some(u64::MAX));
}

#[test]
fn counter_before_base_has_no_difference() {
    assert_eq!(u64::difference(10, 9), None);
    assert_eq!(u64::difference(u64::MAX, 0), None);
}

#[test]
fn instants_are_measured_in_nanoseconds() {
    let base = Instant::now();
    assert_eq!(Instant::difference(base, base), Some(0));
    assert_eq!(
        Instant::difference(base, base + Duration::from_nanos(1)),
        Some(1)
    );
    assert_eq!(
        Instant::difference(base, base + Duration::new(3, 250)),
        Some(3_000_000_250)
    );
}

#[test]
fn instant_before_base_has_no_difference() {
    let base = Instant::now();
    let later = base + Duration::from_nanos(1);
    assert_eq!(Instant::difference(later, base), None);
}

#[test]
fn narrow_nanos_keeps_what_a_u64_counts() {
    assert_eq!(narrow_nanos(0), Some(0));
    assert_eq!(narrow_nanos(16_806_722), Some(16_806_722));
    assert_eq!(narrow_nanos(u64::MAX as u128), Some(u64::MAX));
}

#[test]
fn narrow_nanos_refuses_what_a_u64_cannot_count() {
    assert_eq!(narrow_nanos(u64::MAX as u128 + 1), None);
    assert_eq!(narrow_nanos(u128::MAX), None);
}
