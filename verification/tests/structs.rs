use heliocron::errors::{ConfigErrorKind, HeliocronError};
use heliocron::structs::{Coordinate, Coordinates, EventTime, Latitude, Longitude};
use heliocron::timestamp::Timestamp;

fn degrees(value: f64) -> i64 {
    (value * 1e12).round() as i64
}

fn message<T>(result: Result<T, HeliocronError>) -> &'static str {
    match result {
        Err(HeliocronError::Config(ConfigErrorKind::InvalidCoordindates(msg))) => msg,
        _ => panic!("invalid coordinates were expected"),
    }
}

#[test]
fn test_parse_latitude() {
    let params = [
        (50.0, "50.0N"),
        (-50.0, "50.0S"),
        (-33.9, "33.9S"),
        (18.552, "18.552n"),
        (-26.02, "26.020s"),
        (90.0, "90.0n"),
        (0.0, "0.0n"),
    ];

    for (expected, arg) in params.iter() {
        assert_eq!(
            degrees(*expected),
            Latitude::from_decimal_degrees(*arg).unwrap().0
        )
    }
}

#[test]
fn test_parse_longitude() {
    let params = [
        (50.0, "50.0E"),
        (-50.0, "50.0W"),
        (-33.9, "33.9W"),
        (18.552, "18.552e"),
        (-26.02, "26.020w"),
        (180.0, "180.0e"),
        (0.0, "0.0e"),
    ];

    for (expected, arg) in params.iter() {
        assert_eq!(
            degrees(*expected),
            Longitude::from_decimal_degrees(*arg).unwrap().0
        )
    }
}

fn event_time(rfc3339: &str) -> EventTime {
    let dt = chrono::DateTime::parse_from_rfc3339(rfc3339).unwrap();
    EventTime::new(Some(
        Timestamp::new(dt.timestamp(), dt.offset().local_minus_utc()).unwrap(),
    ))
}

#[test]
fn structs_test_serialize_event_time() {
    let et = event_time("2022-06-11T12:00:00+01:00");
    // serialize to rfc3339
    assert_eq!(et.to_rfc3339(), Some("2022-06-11T12:00:00+01:00".to_string()));

    let et = EventTime::new(None);
    //serialize to null
    assert_eq!(et.to_rfc3339(), None);
}

#[test]
fn structs_test_display_event_time() {
    let et = event_time("2022-06-11T12:00:00+01:00");
    let expected = "2022-06-11 12:00:00 +01:00";
    assert_eq!(et.to_text(), expected);

    let et = EventTime::new(None);
    let expected = "Never";
    assert_eq!(et.to_text(), expected);
}

#[test]
fn test_display_latitude() {
    let lat = Latitude(degrees(51.1));
    let expected = "51.1000N";
    assert_eq!(lat.to_text(), expected);

    let lat = Latitude(degrees(-51.1));
    let expected = "51.1000S";
    assert_eq!(lat.to_text(), expected);
}

#[test]
fn test_display_longitude() {
    let lon = Longitude(degrees(51.1));
    let expected = "51.1000E";
    assert_eq!(lon.to_text(), expected);

    let lon = Longitude(degrees(-51.1));
    let expected = "51.1000W";
    assert_eq!(lon.to_text(), expected);
}

#[test]
fn four_places_are_rounded_to_the_nearest_and_ties_to_the_even() {
    assert_eq!(Latitude(degrees(0.00004)).to_text(), "0.0000N");
    assert_eq!(Latitude(degrees(0.00006)).to_text(), "0.0001N");
    assert_eq!(Latitude(50_000_000).to_text(), "0.0000N");
    assert_eq!(Latitude(150_000_000).to_text(), "0.0002N");
    assert_eq!(Latitude(50_000_001).to_text(), "0.0001N");
    assert_eq!(Longitude(degrees(-179.99996)).to_text(), "180.0000W");
    assert_eq!(Longitude(0).to_text(), "0.0000E");
}

#[test]
fn coordinates_are_refused_with_the_reason() {
    assert_eq!(message(Latitude::from_decimal_degrees("")), "No coordinates found");
    assert_eq!(
        message(Latitude::from_decimal_degrees("50.0E")),
        "Latitude must end with 'N' or 'S'"
    );
    assert_eq!(
        message(Latitude::from_decimal_degrees("fiftyN")),
        "Latitude must be a positive value followed by a compass direction ('N' or 'S')"
    );
    assert_eq!(
        message(Latitude::from_decimal_degrees("N")),
        "Latitude must be a positive value followed by a compass direction ('N' or 'S')"
    );
    assert_eq!(
        message(Latitude::from_decimal_degrees("90.1N")),
        "Latitude must be a positive value between 0.0 and 90.0"
    );
    assert_eq!(
        message(Latitude::from_decimal_degrees("90.0000000000009N")),
        "Latitude must be a positive value between 0.0 and 90.0"
    );
    assert_eq!(
        message(Longitude::from_decimal_degrees("180.0000000000001w")),
        "Longitude must be a positive value between 0.0 and 180.0"
    );
    assert_eq!(
        Latitude::from_decimal_degrees("90.0000000000000N").unwrap().0,
        90_000_000_000_000
    );
    assert_eq!(
        Latitude::from_decimal_degrees("89.9999999999999S").unwrap().0,
        -89_999_999_999_999
    );
    assert_eq!(
        message(Latitude::from_decimal_degrees("-5.0N")),
        "Latitude must be a positive value between 0.0 and 90.0"
    );
    assert_eq!(
        message(Latitude::from_decimal_degrees("-0.0N")),
        "Latitude must be a positive value between 0.0 and 90.0"
    );
    assert_eq!(message(Longitude::from_decimal_degrees("")), "No coordinates found");
    assert_eq!(
        message(Longitude::from_decimal_degrees("50.0N")),
        "Longitude must end with 'W' or 'E'."
    );
    assert_eq!(
        message(Longitude::from_decimal_degrees("1..0W")),
        "Longitude must be a positive value followed by a compass direction ('W' or 'E')"
    );
    assert_eq!(
        message(Longitude::from_decimal_degrees("180.1W")),
        "Longitude must be a positive value between 0.0 and 180.0"
    );
}

#[test]
fn the_steps_of_reading_a_coordinate() {
    assert_eq!(Latitude::parse_compass_direction("51.4769N").unwrap(), 'n');
    assert_eq!(Latitude::parse_compass_direction("51.4769s").unwrap(), 's');
    assert_eq!(Longitude::parse_compass_direction("0.0005W").unwrap(), 'w');
    assert_eq!(Longitude::parse_compass_direction("0.0005e").unwrap(), 'e');
    assert_eq!(
        Latitude::parse_decimal_degrees("51.4769N").unwrap(),
        51_476_900_000_000
    );
    assert_eq!(Longitude::parse_decimal_degrees("0.0005W").unwrap(), 500_000_000);
    assert_eq!(Latitude::compass_correction('n').unwrap(), 1);
    assert_eq!(Latitude::compass_correction('s').unwrap(), -1);
    assert_eq!(Longitude::compass_correction('e').unwrap(), 1);
    assert_eq!(Longitude::compass_correction('w').unwrap(), -1);
    assert_eq!(
        message(Latitude::compass_correction('e')),
        "Latitude must be a positive value followed by a compass direction ('N' or 'S')"
    );
    assert_eq!(
        message(Longitude::compass_correction('n')),
        "Longitude must be a positive value followed by a compass direction ('W' or 'E')"
    );
}

#[test]
fn a_place_is_read_from_both_its_coordinates() {
    let place = Coordinates::from_decimal_degrees("51.4769N", "0.0005W").unwrap();
    assert_eq!(place.latitude, Latitude(51_476_900_000_000));
    assert_eq!(place.longitude, Longitude(-500_000_000));
    assert_eq!(
        message(Coordinates::from_decimal_degrees("51.4769", "0.0005W")),
        "Latitude must end with 'N' or 'S'"
    );
    assert_eq!(
        message(Coordinates::from_decimal_degrees("51.4769N", "0.0005")),
        "Longitude must end with 'W' or 'E'."
    );
}
