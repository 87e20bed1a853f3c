use zkstate::clock::{Timestamp, MAX_SECS, MIN_SECS};

fn at(secs: i64, nanos: u32) -> Timestamp {
    Timestamp::new(secs, nanos).unwrap()
}

#[test]
fn milliseconds_are_rounded_towards_zero() {
    assert_eq!(at(10, 1_999_999).millis_since(&at(10, 0)), 1);
    assert_eq!(at(10, 0).millis_since(&at(10, 1_999_999)), -1);
    assert_eq!(at(10, 999_999).millis_since(&at(10, 0)), 0);
    assert_eq!(at(10, 0).millis_since(&at(10, 999_999)), 0);
    assert_eq!(at(11, 0).millis_since(&at(9, 500_000_000)), 1500);
    assert_eq!(at(9, 500_000_000).millis_since(&at(11, 0)), -1500);
}

#[test]
fn the_whole_calendar_can_be_measured() {
    let first = at(MIN_SECS, 0);
    let last = at(MAX_SECS, 999_999_999);
    assert_eq!(last.millis_since(&first), (MAX_SECS - MIN_SECS) * 1000 + 999);
    assert_eq!(first.millis_since(&last), -((MAX_SECS - MIN_SECS) * 1000 + 999));
}

#[test]
fn points_outside_the_calendar_are_refused() {
    assert!(Timestamp::new(MIN_SECS - 1, 0).is_none());
    assert!(Timestamp::new(MAX_SECS + 1, 0).is_none());
    assert!(Timestamp::new(0, 1_000_000_000).is_none());
    assert!(Timestamp::new(0, 999_999_999).is_some());
    assert!(chrono::DateTime::from_timestamp(MIN_SECS - 1, 0).is_none());
    assert!(chrono::DateTime::from_timestamp(MAX_SECS + 1, 0).is_none());
}

#[test]
fn now_is_what_the_clock_says() {
    let before = chrono::Utc::now();
    let now = Timestamp::now();
    let after = chrono::Utc::now();
    let before = at(before.timestamp(), before.timestamp_subsec_nanos());
    let after = at(after.timestamp(), after.timestamp_subsec_nanos());
    assert!(now.millis_since(&before) >= 0);
    assert!(after.millis_since(&now) >= 0);
}
