use crab_rocket::time::{get_e8_time, Timestamp, EAST_EIGHT_SECS};

#[test]
fn points_in_time_are_ordered_by_seconds_then_nanoseconds() {
    let a = Timestamp::new(10, 5);
    let b = Timestamp::new(10, 6);
    let c = Timestamp::new(11, 0);
    assert!(a.is_at_or_after(&a));
    assert!(a.is_at_or_before(&a));
    assert!(b.is_at_or_after(&a));
    assert!(!a.is_at_or_after(&b));
    assert!(a.is_at_or_before(&b));
    assert!(c.is_at_or_after(&b));
    assert!(!c.is_at_or_before(&b));
    assert!(Timestamp::new(-1, 0).is_at_or_before(&Timestamp::new(0, 0)));
    assert_eq!(a.secs, 10);
    assert_eq!(a.nanos, 5);
}

#[test]
fn east_eight_is_eight_hours_ahead() {
    assert_eq!(EAST_EIGHT_SECS, 8 * 60 * 60);
    assert_eq!(Timestamp::new(0, 0).to_east_eight(), Timestamp::new(28800, 0));
    assert_eq!(Timestamp::new(1700000000, 123).to_east_eight(), Timestamp::new(1700028800, 123));
    assert_eq!(Timestamp::new(-28800, 7).to_east_eight(), Timestamp::new(0, 7));
}

#[test]
fn east_eight_stops_at_the_last_second() {
    assert_eq!(Timestamp::new(i64::MAX, 1).to_east_eight(), Timestamp::new(i64::MAX, 1));
    assert_eq!(Timestamp::new(i64::MAX - 28800, 0).to_east_eight(), Timestamp::new(i64::MAX, 0));
    assert_eq!(Timestamp::new(i64::MAX - 28799, 0).to_east_eight(), Timestamp::new(i64::MAX, 0));
    assert_eq!(
        Timestamp::new(i64::MAX - 28801, 0).to_east_eight(),
        Timestamp::new(i64::MAX - 1, 0)
    );
}

#[test]
fn the_clock_reads_eight_hours_east_of_utc() {
    let before = chrono::Utc::now().timestamp();
    let stamp = get_e8_time();
    let after = chrono::Utc::now().timestamp();
    assert!(before + 28800 <= stamp.secs);
    assert!(stamp.secs <= after + 28800);
    assert!(stamp.nanos < 2_000_000_000);
}
