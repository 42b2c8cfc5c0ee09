use aleph_tui::throttle::{elapsed_millis, elapsed_text, is_due, Timestamp, MAX_MILLIS};

fn at(millis: i64) -> Timestamp {
    Timestamp::from_millis(millis).unwrap()
}

#[test]
fn not_due_when_exactly_the_interval_has_passed() {
    assert!(!is_due(at(1_700_000_005_000), at(1_700_000_000_000), 5));
}

#[test]
fn due_one_second_after_the_interval() {
    assert!(is_due(at(1_700_000_006_000), at(1_700_000_000_000), 5));
}

#[test]
fn due_at_any_time_after_the_interval() {
    assert!(!is_due(at(5_000), at(0), 5));
    assert!(is_due(at(5_001), at(0), 5));
    assert!(is_due(at(5_999), at(0), 5));
    assert!(is_due(at(6_000), at(0), 5));
    assert!(is_due(at(10_500), at(0), 10));
    assert!(!is_due(at(10_000), at(0), 10));
    assert!(!is_due(at(9_999), at(0), 10));
    assert!(!is_due(at(0), at(0), 0));
    assert!(is_due(at(1), at(0), 0));
    assert!(is_due(at(999), at(0), 0));
    assert!(is_due(at(1_000), at(0), 0));
}

#[test]
fn a_clock_that_went_back_is_compared_in_the_same_way() {
    assert!(!is_due(at(0), at(6_999), -6));
    assert!(!is_due(at(0), at(6_000), -6));
    assert!(is_due(at(0), at(5_999), -6));
    assert!(is_due(at(0), at(6_999), -7));
    assert!(!is_due(at(0), at(7_000), -7));
    assert!(!is_due(at(0), at(500), 0));
    assert!(is_due(at(0), at(500), -1));
    assert!(!is_due(at(0), at(1_000), -1));
}

#[test]
fn due_holds_at_the_ends_of_the_range() {
    assert!(is_due(at(MAX_MILLIS), at(-MAX_MILLIS), 0));
    assert!(!is_due(at(-MAX_MILLIS), at(MAX_MILLIS), 0));
    assert!(!is_due(at(MAX_MILLIS), at(-MAX_MILLIS), i64::MAX));
    assert!(is_due(at(0), at(0), i64::MIN));
}

#[test]
fn timestamps_have_a_range() {
    assert!(Timestamp::from_millis(MAX_MILLIS).is_some());
    assert!(Timestamp::from_millis(-MAX_MILLIS).is_some());
    assert!(Timestamp::from_millis(MAX_MILLIS + 1).is_none());
    assert!(Timestamp::from_millis(-MAX_MILLIS - 1).is_none());
    assert!(Timestamp::from_millis(i64::MIN).is_none());
    assert!(Timestamp::from_millis(i64::MAX).is_none());
    assert_eq!(at(42).millis(), 42);
}

#[test]
fn elapsed_is_the_difference() {
    assert_eq!(elapsed_millis(at(7_500), at(2_000)), 5_500);
    assert_eq!(elapsed_millis(at(2_000), at(7_500)), -5_500);
    assert_eq!(elapsed_millis(at(MAX_MILLIS), at(-MAX_MILLIS)), i64::MAX - 1);
}

#[test]
fn elapsed_time_is_put_in_words() {
    assert_eq!(elapsed_text(at(65_000), at(0)), "1m 5s");
    assert_eq!(elapsed_text(at(1_000), at(1_000)), "0s");
    assert_eq!(elapsed_text(at(3_600_000), at(0)), "1h");
    assert_eq!(elapsed_text(at(12_999), at(0)), "12s");
    assert_eq!(elapsed_text(at(90_061_000), at(0)), "1day 1h 1m 1s");
}
