//! Concrete scenarios for the elapsed-time predicate, each run through both
//! implementations, which must agree.

use timespec_diff::Timestamp;
use timespec_diff::timespec_difference_at_least_cases;
use timespec_diff::timespec_difference_at_least_mul;

/// Call both implementations on one triple, assert they agree, and return
/// the shared verdict.
fn both(after: Timestamp, before: Timestamp, min_ns: u32) -> bool {
    let m = timespec_difference_at_least_mul(&after, &before, min_ns);
    let c = timespec_difference_at_least_cases(&after, &before, min_ns);
    assert_eq!(
        m, c,
        "mismatch: after=({}, {}) before=({}, {}) min_ns={} mul={} cases={}",
        after.seconds, after.nanoseconds, before.seconds, before.nanoseconds, min_ns, m, c
    );
    m
}

#[test]
fn same_second_gap_meets_threshold() {
    assert!(both(Timestamp::new(10, 500), Timestamp::new(10, 100), 300));
}

#[test]
fn same_second_negative_gap() {
    assert!(!both(Timestamp::new(10, 100), Timestamp::new(10, 500), 0));
}

#[test]
fn adjacent_seconds_one_nanosecond_gap_meets_one() {
    assert!(both(Timestamp::new(11, 0), Timestamp::new(10, 999_999_999), 1));
}

#[test]
fn adjacent_seconds_one_nanosecond_gap_misses_two() {
    assert!(!both(Timestamp::new(11, 0), Timestamp::new(10, 999_999_999), 2));
}

#[test]
fn wide_seconds_gap_meets_largest_threshold() {
    assert!(both(Timestamp::new(12, 0), Timestamp::new(10, 999_999_999), 999_999_999));
}

#[test]
fn negative_seconds_gap_misses_zero() {
    assert!(!both(Timestamp::new(9, 0), Timestamp::new(10, 0), 0));
}

#[test]
fn equal_timestamps_meet_zero_only() {
    let t = Timestamp::new(42, 123_456_789);
    assert!(both(t, t, 0));
    assert!(!both(t, t, 1));
    assert!(!both(t, t, 999_999_999));
}

#[test]
fn threshold_monotonic_on_a_fixed_gap() {
    let after = Timestamp::new(5, 700);
    let before = Timestamp::new(5, 300);
    assert!(both(after, before, 400));
    assert!(both(after, before, 100));
    assert!(both(after, before, 0));
    assert!(!both(after, before, 401));
}

#[test]
fn negative_gap_ignores_nanoseconds_and_threshold() {
    let before = Timestamp::new(0, 0);
    let after = Timestamp::new(-1, 999_999_999);
    assert!(!both(after, before, 0));
    assert!(!both(after, before, 999_999_999));
}

#[test]
fn wide_gap_ignores_nanoseconds() {
    let before = Timestamp::new(-2, 999_999_999);
    let after = Timestamp::new(0, 0);
    assert!(both(after, before, 0));
    assert!(both(after, before, 999_999_999));
}

#[test]
fn adjacent_seconds_boundary_nanoseconds() {
    // Exactly one full second of difference.
    assert!(both(Timestamp::new(1, 0), Timestamp::new(0, 0), 999_999_999));
    // The largest difference an adjacent-seconds pair can show.
    assert!(both(Timestamp::new(1, 999_999_999), Timestamp::new(0, 0), 999_999_999));
    // The smallest: one nanosecond.
    assert!(both(Timestamp::new(1, 0), Timestamp::new(0, 999_999_999), 1));
    assert!(!both(Timestamp::new(1, 0), Timestamp::new(0, 999_999_999), 2));
}

#[test]
fn supported_range_extremes() {
    let low = Timestamp::new(-16_777_216, 0);
    let high = Timestamp::new(16_777_216, 999_999_999);
    assert!(both(high, low, 999_999_999));
    assert!(!both(low, high, 0));
    assert!(both(high, high, 0));
    assert!(both(low, low, 0));
}

#[test]
fn new_keeps_fields() {
    let t = Timestamp::new(-7, 999_999_999);
    assert_eq!(t.seconds, -7);
    assert_eq!(t.nanoseconds, 999_999_999);
}

#[test]
fn negated_seconds_order_flips_verdict() {
    // A pair one nanosecond apart, in both orders.
    let earlier = Timestamp::new(100, 999_999_999);
    let later = Timestamp::new(101, 0);
    assert!(both(later, earlier, 0));
    assert!(both(later, earlier, 1));
    assert!(!both(earlier, later, 0));
}
