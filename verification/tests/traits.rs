use chrono::NaiveDateTime;
use heliocron::timestamp::{ClockTime, Timestamp};
use heliocron::traits::{julian_day, DateTimeExt, NaiveTimeExt};

#[test]
fn test_to_juilian_date() {
    let params = [
        ("2458924.00626", "2020-03-15T12:09:01"),
        ("2458923.92293", "2020-03-15T10:09:01"),
        ("2459744.00000", "2022-06-13T12:00:00"),
        ("2459744.01506", "2022-06-13T12:21:41"),
    ];

    for (expected, arg) in params.iter() {
        let date = NaiveDateTime::parse_from_str(*arg, "%FT%T").unwrap();
        let date = Timestamp::new(date.and_utc().timestamp(), 0).unwrap();
        assert_eq!(
            *expected,
            format!("{:.5}", date.to_julian_date() as f64 / 86_400.0)
        );
    }
}

#[test]
fn the_julian_date_is_counted_in_utc() {
    let utc = Timestamp::new(1_584_274_141, 0).unwrap();
    let local = Timestamp::new(1_584_274_141, 7_200).unwrap();
    assert_eq!(utc.to_julian_date(), local.to_julian_date());
    // 2020-03-15T12:09:01 UTC is 541 seconds after the noon at which day 2458924 begins.
    assert_eq!(utc.to_julian_date(), 2_458_924 * 86_400 + 541);
    assert_eq!(julian_day(2020, 3, 15), 2_458_924);
    assert_eq!(julian_day(2022, 6, 13), 2_459_744);
    assert_eq!(julian_day(-5, 1, 1), 367 * -5 - (7 * -5) / 4 + 275 / 9 + 1 + 1_721_014);
}

#[test]
fn test_day_fraction() {
    let params = [
        (0.0, ClockTime::from_hms(0, 0, 0).unwrap()),
        (0.5, ClockTime::from_hms(12, 0, 0).unwrap()),
        (0.55, ClockTime::from_hms(13, 12, 0).unwrap()),
        (0.75, ClockTime::from_hms(18, 0, 0).unwrap()),
    ];

    for (expected, time) in params.iter() {
        assert_eq!(*expected, time.day_fraction() as f64 / 86_400e12)
    }
}

#[test]
fn a_time_of_day_is_below_a_whole_day() {
    assert!(ClockTime::from_hms(24, 0, 0).is_none());
    assert!(ClockTime::from_hms(0, 60, 0).is_none());
    assert!(ClockTime::from_hms(0, 0, 60).is_none());
    assert!(ClockTime::from_num_seconds_from_midnight(86_400).is_none());
    let last = ClockTime::from_num_seconds_from_midnight(86_399).unwrap();
    assert_eq!(last, ClockTime::from_hms(23, 59, 59).unwrap());
    assert_eq!(last.num_seconds_from_midnight(), 86_399);
    assert_eq!(last.to_text(), "23:59:59");
    assert_eq!(ClockTime::from_hms(1, 2, 3).unwrap().to_text(), "01:02:03");
    assert_eq!(last.day_fraction(), 86_399_000_000_000_000);
}
