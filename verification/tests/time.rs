use gmail_archiver::time::{Timestamp, MAX_SECS, MIN_SECS, NANOS_PER_SEC};

#[test]
fn millis_of_a_known_instant() {
    let t = Timestamp::from_millis(1_700_000_000_000).unwrap();
    assert_eq!(t.secs(), 1_700_000_000);
    assert_eq!(t.subsec_nanos(), 0);
    assert_eq!(t.to_rfc3339(), "2023-11-14T22:13:20+00:00");
}

#[test]
fn millis_keep_their_fraction() {
    let t = Timestamp::from_millis(947_638_923_004).unwrap();
    assert_eq!(t.secs(), 947_638_923);
    assert_eq!(t.subsec_nanos(), 4_000_000);
    assert_eq!(t.to_rfc3339(), "2000-01-12T01:02:03.004+00:00");
}

#[test]
fn negative_millis_round_towards_the_past() {
    let t = Timestamp::from_millis(-1).unwrap();
    assert_eq!(t.secs(), -1);
    assert_eq!(t.subsec_nanos(), 999_000_000);
    let t = Timestamp::from_millis(-1000).unwrap();
    assert_eq!(t.secs(), -1);
    assert_eq!(t.subsec_nanos(), 0);
    let t = Timestamp::from_millis(-1001).unwrap();
    assert_eq!(t.secs(), -2);
    assert_eq!(t.subsec_nanos(), 999_000_000);
}

#[test]
fn micros_of_known_instants() {
    let t = Timestamp::from_micros(1_662_921_288_000_000).unwrap();
    assert_eq!(t.secs(), 1_662_921_288);
    assert_eq!(t.subsec_nanos(), 0);
    let t = Timestamp::from_micros(-2_208_936_075_000_000).unwrap();
    assert_eq!(t.secs(), -2_208_936_075);
    let t = Timestamp::from_micros(-1).unwrap();
    assert_eq!(t.secs(), -1);
    assert_eq!(t.subsec_nanos(), 999_999_000);
    let t = Timestamp::from_micros(1_500_001).unwrap();
    assert_eq!(t.secs(), 1);
    assert_eq!(t.subsec_nanos(), 500_001_000);
}

#[test]
fn millis_at_the_ends_of_the_range() {
    assert!(Timestamp::from_millis(MAX_SECS * 1000 + 999).is_some());
    assert!(Timestamp::from_millis(MAX_SECS * 1000 + 1000).is_none());
    assert!(Timestamp::from_millis(MIN_SECS * 1000).is_some());
    assert!(Timestamp::from_millis(MIN_SECS * 1000 - 1).is_none());
    assert!(Timestamp::from_millis(i64::MAX).is_none());
    assert!(Timestamp::from_millis(i64::MIN).is_none());
}

#[test]
fn micros_at_the_ends_of_the_range() {
    assert!(Timestamp::from_micros(MAX_SECS * 1_000_000 + 999_999).is_some());
    assert!(Timestamp::from_micros(MAX_SECS * 1_000_000 + 1_000_000).is_none());
    assert!(Timestamp::from_micros(MIN_SECS * 1_000_000).is_some());
    assert!(Timestamp::from_micros(MIN_SECS * 1_000_000 - 1).is_none());
}

#[test]
fn the_range_is_the_range_of_the_calendar() {
    assert!(chrono::DateTime::from_timestamp(MAX_SECS, NANOS_PER_SEC - 1).is_some());
    assert!(chrono::DateTime::from_timestamp(MAX_SECS + 1, 0).is_none());
    assert!(chrono::DateTime::from_timestamp(MIN_SECS, 0).is_some());
    assert!(chrono::DateTime::from_timestamp(MIN_SECS - 1, NANOS_PER_SEC - 1).is_none());
    assert_eq!(chrono::DateTime::<chrono::Utc>::MAX_UTC.timestamp(), MAX_SECS);
    assert_eq!(chrono::DateTime::<chrono::Utc>::MIN_UTC.timestamp(), MIN_SECS);
}

#[test]
fn new_takes_what_is_in_range() {
    let t = Timestamp::new(12, 34).unwrap();
    assert_eq!(t.secs(), 12);
    assert_eq!(t.subsec_nanos(), 34);
    assert!(Timestamp::new(0, NANOS_PER_SEC).is_none());
    assert!(Timestamp::new(0, NANOS_PER_SEC - 1).is_some());
    assert!(Timestamp::new(MAX_SECS, 0).is_some());
    assert!(Timestamp::new(MAX_SECS + 1, 0).is_none());
    assert!(Timestamp::new(MIN_SECS, 0).is_some());
    assert!(Timestamp::new(MIN_SECS - 1, 0).is_none());
}

#[test]
fn later_instants_are_after_earlier_ones() {
    let a = Timestamp::new(10, 5).unwrap();
    let b = Timestamp::new(10, 6).unwrap();
    let c = Timestamp::new(11, 0).unwrap();
    let d = Timestamp::new(-3, 999_999_999).unwrap();
    assert!(b.is_after(&a));
    assert!(!a.is_after(&b));
    assert!(!a.is_after(&a));
    assert!(c.is_after(&b));
    assert!(!b.is_after(&c));
    assert!(a.is_after(&d));
    assert!(!d.is_after(&a));
}

#[test]
fn adding_seconds_keeps_the_fraction() {
    let now = Timestamp::new(1_700_000_000, 123).unwrap();
    let later = now.checked_add_secs(3599).unwrap();
    assert_eq!(later.secs(), 1_700_003_599);
    assert_eq!(later.subsec_nanos(), 123);
    assert_eq!(now.checked_add_secs(0).unwrap(), now);
}

#[test]
fn adding_seconds_stops_at_the_end_of_the_range() {
    let now = Timestamp::new(1_700_000_000, 0).unwrap();
    let room = (MAX_SECS - 1_700_000_000) as u64;
    assert_eq!(now.checked_add_secs(room).unwrap().secs(), MAX_SECS);
    assert!(now.checked_add_secs(room + 1).is_none());
    assert!(now.checked_add_secs(u64::MAX).is_none());
    let first = Timestamp::new(MIN_SECS, 0).unwrap();
    let span = (MAX_SECS - MIN_SECS) as u64;
    assert_eq!(first.checked_add_secs(span).unwrap().secs(), MAX_SECS);
    assert!(first.checked_add_secs(span + 1).is_none());
}

#[test]
fn rfc3339_shows_the_fraction_it_needs() {
    assert_eq!(Timestamp::new(0, 0).unwrap().to_rfc3339(), "1970-01-01T00:00:00+00:00");
    assert_eq!(
        Timestamp::new(0, 500_000_000).unwrap().to_rfc3339(),
        "1970-01-01T00:00:00.500+00:00"
    );
    assert_eq!(Timestamp::new(0, 1_000).unwrap().to_rfc3339(), "1970-01-01T00:00:00.000001+00:00");
    assert_eq!(Timestamp::new(0, 1).unwrap().to_rfc3339(), "1970-01-01T00:00:00.000000001+00:00");
    assert_eq!(Timestamp::new(-1, 0).unwrap().to_rfc3339(), "1969-12-31T23:59:59+00:00");
}
