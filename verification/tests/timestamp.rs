use heliocron::timestamp::Timestamp;

#[test]
fn a_timestamp_is_kept_in_range() {
    assert!(Timestamp::new(0, 0).is_some());
    assert!(Timestamp::new(8_000_000_000_000, 86_399).is_some());
    assert!(Timestamp::new(-8_000_000_000_000, -86_399).is_some());
    assert!(Timestamp::new(8_000_000_000_001, 0).is_none());
    assert!(Timestamp::new(-8_000_000_000_001, 0).is_none());
    assert!(Timestamp::new(0, 86_400).is_none());
    assert!(Timestamp::new(0, -86_400).is_none());
}

#[test]
fn the_ends_of_the_range_can_be_written() {
    let last = Timestamp::new(8_000_000_000_000, 86_399).unwrap();
    assert_eq!(last.to_text(), "+255479-11-29 14:13:19 +23:59:59");
    assert_eq!(last.utc_date(), (255479, 11, 28));
    let first = Timestamp::new(-8_000_000_000_000, -86_399).unwrap();
    let date = chrono::DateTime::from_timestamp(-8_000_000_000_000, 0).unwrap();
    let zone = chrono::FixedOffset::west_opt(86_399).unwrap();
    assert_eq!(first.to_text(), date.with_timezone(&zone).to_string());
    assert_eq!(first.time().to_text(), "09:46:41");
    assert!(first.utc_date().0 < -251_000);
}

#[test]
fn local_time_is_ahead_of_utc_by_the_offset() {
    let moment = Timestamp::new(1_585_137_600, 3_600).unwrap();
    assert_eq!(moment.timestamp(), 1_585_137_600);
    assert_eq!(moment.offset(), 3_600);
    assert_eq!(moment.to_text(), "2020-03-25 13:00:00 +01:00");
    assert_eq!(moment.to_rfc3339(), "2020-03-25T13:00:00+01:00");
    assert_eq!(moment.time().to_text(), "13:00:00");
    assert_eq!(moment.day(), 18346);
    let late = Timestamp::new(1_585_137_600 + 11 * 3600, 3_600).unwrap();
    assert_eq!(late.utc_date(), (2020, 3, 25));
    assert_eq!(late.day(), 18347);
    assert_eq!(late.time().to_text(), "00:00:00");
}

#[test]
fn days_before_the_epoch_are_counted_down() {
    let moment = Timestamp::new(-1, 0).unwrap();
    assert_eq!(moment.day(), -1);
    assert_eq!(moment.time().to_text(), "23:59:59");
    assert_eq!(moment.utc_date(), (1969, 12, 31));
    assert_eq!(moment.to_rfc3339(), "1969-12-31T23:59:59+00:00");
}

#[test]
fn noon_of_a_local_day() {
    let noon = Timestamp::local_noon(18346, -34_200).unwrap();
    assert_eq!(noon.to_rfc3339(), "2020-03-25T12:00:00-09:30");
    assert_eq!(noon.timestamp(), 18346 * 86_400 + 43_200 + 34_200);
    assert!(Timestamp::local_noon(18346, 86_400).is_none());
    assert!(Timestamp::local_noon(92_592_593, 0).is_none());
    assert!(Timestamp::local_noon(i64::MAX, 0).is_none());
    assert!(Timestamp::local_noon(i64::MIN, 0).is_none());
}

#[test]
fn moments_are_added_to_and_compared() {
    let moment = Timestamp::new(1_585_137_600, 3_600).unwrap();
    let later = moment.checked_add_seconds(90).unwrap();
    assert_eq!(later.timestamp(), 1_585_137_690);
    assert_eq!(later.offset(), 3_600);
    assert_eq!(later.seconds_since(&moment), 90);
    assert_eq!(moment.seconds_since(&later), -90);
    assert!(moment.checked_add_seconds(8_000_000_000_000).is_none());
    assert!(moment.checked_add_seconds(i64::MAX).is_none());
    assert!(moment.checked_add_seconds(i64::MIN).is_none());
}
