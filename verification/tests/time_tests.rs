use todo_app::time::{
    add_days, current_time, seconds_since, Timestamp, MAX_TIMESTAMP_SECS, MIN_TIMESTAMP_SECS,
};

fn at(secs: i64, nanos: u32) -> Timestamp {
    Timestamp { secs, nanos }
}

#[test]
fn timestamp_bounds_are_chronos_range() {
    assert!(chrono::DateTime::from_timestamp(MIN_TIMESTAMP_SECS, 0).is_some());
    assert!(chrono::DateTime::from_timestamp(MIN_TIMESTAMP_SECS - 1, 999_999_999).is_none());
    assert!(chrono::DateTime::from_timestamp(MIN_TIMESTAMP_SECS - 86_400, 0).is_none());
    assert!(chrono::DateTime::from_timestamp(MAX_TIMESTAMP_SECS, 999_999_999).is_some());
    assert!(chrono::DateTime::from_timestamp(MAX_TIMESTAMP_SECS + 1, 0).is_none());
}

#[test]
fn validity() {
    assert!(at(0, 0).is_valid());
    assert!(at(MAX_TIMESTAMP_SECS, 999_999_999).is_valid());
    assert!(!at(0, 1_000_000_000).is_valid());
    assert!(!at(MAX_TIMESTAMP_SECS + 1, 0).is_valid());
    assert!(!at(MIN_TIMESTAMP_SECS - 1, 0).is_valid());
}

#[test]
fn seconds_since_rounds_toward_zero() {
    assert_eq!(seconds_since(at(10, 0), at(3, 0)), 7);
    assert_eq!(seconds_since(at(3, 0), at(10, 0)), -7);
    assert_eq!(seconds_since(at(10, 500_000_000), at(3, 0)), 7);
    assert_eq!(seconds_since(at(3, 0), at(10, 500_000_000)), -7);
    assert_eq!(seconds_since(at(5, 0), at(5, 999_999_999)), 0);
    assert_eq!(seconds_since(at(5, 0), at(6, 1)), -1);
}

#[test]
fn add_days_adds_whole_days() {
    assert_eq!(add_days(at(1_700_000_000, 123), 1), at(1_700_086_400, 123));
    assert_eq!(add_days(at(-86_400, 0), 1), at(0, 0));
    assert_eq!(add_days(at(0, 7), -2), at(-172_800, 7));
    assert_eq!(add_days(at(5, 0), 0), at(5, 0));
}

#[test]
fn current_time_is_after_1970() {
    let now = current_time();
    assert!(now.is_valid());
    assert!(now.secs > 1_600_000_000);
}
