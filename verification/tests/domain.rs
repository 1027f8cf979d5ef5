use heliocron::domain::{
    Altitude, Coordinates, DayPart, Direction, Event, EventName, Latitude, Longitude,
    RawEventName, VariableElevationEvent,
};

fn degrees(value: f64) -> i64 {
    (value * 1e12).round() as i64
}

#[test]
fn test_new_latitude() {
    let lat = Latitude::new(degrees(15.1234)).unwrap();
    assert_eq!(lat.value(), 15_123_400_000_000);
}

#[test]
fn test_new_latitude_with_valid_values() {
    let vals = &[-90.0, -89.9999999999, -0.0, 0.0, 90.0];

    for val in vals {
        assert!(Latitude::new(degrees(*val)).is_ok());
    }
}

#[test]
fn test_new_latitude_with_invalid_values() {
    let vals = &[-180.0, -90.00000000001, 90.00000001, 100.0];

    for val in vals {
        assert!(Latitude::new(degrees(*val)).is_err());
    }
}

#[test]
fn test_new_longitude() {
    let lon = Longitude::new(degrees(-150.1234)).unwrap();
    assert_eq!(lon.value(), -150_123_400_000_000);
}

#[test]
fn test_new_coordinates() {
    let latitude = Latitude::new(degrees(10.0)).unwrap();
    let longitude = Longitude::new(degrees(20.0)).unwrap();

    let coords = Coordinates::new(latitude.clone(), longitude.clone());
    let expected = Coordinates {
        latitude,
        longitude,
    };

    assert_eq!(coords, expected);
}

#[test]
fn latitude_out_of_range_says_what_was_found() {
    assert_eq!(
        Latitude::new(degrees(100.0)).unwrap_err(),
        "Latitude must be between -90.0 and 90.0, inclusive. Found `100`."
    );
    assert_eq!(
        Longitude::new(degrees(-180.1)).unwrap_err(),
        "Longitude must be between -180.0 and 180.0, inclusive. Found '-180.1'."
    );
}

#[test]
fn day_part_thresholds() {
    assert_eq!(DayPart::from_elevation_angle(degrees(-18.5)), DayPart::Night);
    assert_eq!(DayPart::from_elevation_angle(degrees(-18.0)), DayPart::AstronomicalTwilight);
    assert_eq!(DayPart::from_elevation_angle(degrees(-12.0)), DayPart::NauticalTwilight);
    assert_eq!(DayPart::from_elevation_angle(degrees(-6.0)), DayPart::CivilTwilight);
    assert_eq!(DayPart::from_elevation_angle(degrees(0.832)), DayPart::CivilTwilight);
    assert_eq!(DayPart::from_elevation_angle(degrees(0.833)), DayPart::Day);
}

#[test]
fn test_parse_latitude_with_valid_values() {
    let vals = &["-90.0", "-89.9999999999", "-0.0", "0.0", "90.0"];

    for val in vals {
        assert!(Latitude::parse(*val).is_ok());
    }
}

#[test]
fn test_parse_latitude_with_invalid_values() {
    let vals = &["-180.0", "-90.00000000001", "90.00000001", "100.0"];

    for val in vals {
        assert!(Latitude::parse(*val).is_err());
    }
}

#[test]
fn test_new_longitude_with_valid_values() {
    let vals = &[-180.0, -90.0, -89.9999, -0.0, 0.0, 90.0, 180.0];

    for val in vals {
        assert!(Longitude::new(degrees(*val)).is_ok());
    }
}

#[test]
fn test_new_longitude_with_invalid_values() {
    let vals = &[-180.1, 180.01];

    for val in vals {
        assert!(Longitude::new(degrees(*val)).is_err());
    }
}

#[test]
fn test_parse_longitude_with_valid_values() {
    let vals = &[
        "-180.0", "-90.0", "-89.9999", "-0.0", "0.0", "90.0", "180.0",
    ];

    for val in vals {
        assert!(Longitude::parse(*val).is_ok());
    }
}

#[test]
fn test_parse_longitude_with_invalid_values() {
    let vals = &["-180.1", "180.01"];

    for val in vals {
        assert!(Longitude::parse(*val).is_err());
    }
}

fn event_time(rfc3339: &str) -> heliocron::domain::EventTime {
    let dt = chrono::DateTime::parse_from_rfc3339(rfc3339).unwrap();
    heliocron::domain::EventTime::new(Some(
        heliocron::timestamp::Timestamp::new(dt.timestamp(), dt.offset().local_minus_utc())
            .unwrap(),
    ))
}

#[test]
fn domain_test_serialize_event_time() {
    let et = event_time("2022-06-11T12:00:00+01:00");
    // serialize to rfc3339
    assert_eq!(et.to_rfc3339(), Some("2022-06-11T12:00:00+01:00".to_string()));

    let et = heliocron::domain::EventTime::new(None);
    //serialize to null
    assert_eq!(et.to_rfc3339(), None);
}

#[test]
fn domain_test_display_event_time() {
    let et = event_time("2022-06-11T12:00:00+01:00");
    let expected = "2022-06-11 12:00:00 +01:00";
    assert_eq!(et.to_text(), expected);

    let et = heliocron::domain::EventTime::new(None);
    let expected = "Never";
    assert_eq!(et.to_text(), expected);
}

#[test]
fn event_time_knows_its_time_of_day() {
    let et = event_time("2022-06-11T12:34:56+01:00");
    assert!(et.is_some());
    let time = et.time().unwrap();
    assert_eq!((time.hour(), time.minute(), time.second()), (12, 34, 56));
    assert_eq!(time.to_text(), "12:34:56");
    let never = heliocron::domain::EventTime::new(None);
    assert!(!never.is_some());
    assert!(never.time().is_none());
}

#[test]
fn parsed_coordinates_hold_the_number_written() {
    assert_eq!(Latitude::parse("51.4769").unwrap().value(), 51_476_900_000_000);
    assert_eq!(Longitude::parse("-0.0005").unwrap().value(), -500_000_000);
    assert_eq!(Latitude::parse("+12").unwrap().value(), 12_000_000_000_000);
    assert_eq!(Latitude::parse(".5").unwrap().value(), 500_000_000_000);
    assert_eq!(Latitude::parse("5.").unwrap().value(), 5_000_000_000_000);
    assert_eq!(Latitude::parse("51.4769").unwrap().to_text(), "51.4769");
    assert_eq!(Longitude::parse("-0.0005").unwrap().to_text(), "-0.0005");
    assert_eq!(Longitude::parse("20").unwrap().to_text(), "20");
}

#[test]
fn coordinates_that_are_no_numbers_are_reported_as_written() {
    assert_eq!(
        Latitude::parse("north").unwrap_err(),
        "Latitude must be between -90.0 and 90.0, inclusive. Found `north`."
    );
    assert_eq!(
        Latitude::parse("-90.5").unwrap_err(),
        "Latitude must be between -90.0 and 90.0, inclusive. Found `-90.5`."
    );
    assert_eq!(
        Longitude::parse("1.2.3").unwrap_err(),
        "Longitude must be between -180.0 and 180.0, inclusive. Found `1.2.3`."
    );
    assert_eq!(
        Longitude::parse("180.01").unwrap_err(),
        "Longitude must be between -180.0 and 180.0, inclusive. Found '180.01'."
    );
    assert!(Latitude::parse("").is_err());
    assert!(Latitude::parse(".").is_err());
    assert!(Latitude::parse("-").is_err());
    assert!(Latitude::parse("1e1").is_err());
}

#[test]
fn altitude_is_between_minus_ninety_and_ninety() {
    assert_eq!(Altitude::new(degrees(90.0)).unwrap().value(), 90_000_000_000_000);
    assert_eq!(Altitude::new(degrees(-90.0)).unwrap().value(), -90_000_000_000_000);
    assert_eq!(
        Altitude::new(degrees(90.1)).unwrap_err(),
        "Expected a number between -90.0 and 90.0. Found '90.1'"
    );
    assert_eq!(Altitude::parse("-6.3").unwrap().value(), -6_300_000_000_000);
    assert_eq!(Altitude::parse("8").unwrap().value(), 8_000_000_000_000);
    assert_eq!(
        Altitude::parse("-90.1").unwrap_err(),
        "Expected a number between -90.0 and 90.0. Found '-90.1'"
    );
    assert_eq!(
        Altitude::parse("not-a-number").unwrap_err(),
        "Expected a number between -90.0 and 90.0. Found 'invalid float literal'"
    );
    assert_eq!(
        Altitude::parse("").unwrap_err(),
        "Expected a number between -90.0 and 90.0. Found 'cannot parse float from empty string'"
    );
}

#[test]
fn every_event_is_found_by_its_name() {
    let names = [
        "sunrise",
        "sunset",
        "civil_dawn",
        "civil_dusk",
        "nautical_dawn",
        "nautical_dusk",
        "astronomical_dawn",
        "astronomical_dusk",
        "custom_am",
        "custom_pm",
        "solar_noon",
    ];
    let variants = RawEventName::value_variants();
    assert_eq!(variants.len(), names.len());
    for (variant, name) in variants.iter().zip(names.iter()) {
        assert_eq!(variant.to_possible_value(), Some(*name));
        assert_eq!(RawEventName::from_name(name), Some(*variant));
    }
    assert_eq!(RawEventName::from_name("made_up_event"), None);
    assert_eq!(RawEventName::from_name("Sunrise"), None);
    assert_eq!(RawEventName::from_name(""), None);
}

#[test]
fn a_custom_event_needs_its_altitude_and_the_others_ignore_it() {
    let altitude = Altitude::new(degrees(8.5)).unwrap();
    assert_eq!(
        EventName::from_raw(RawEventName::CustomAM, Some(altitude)),
        Some(EventName::CustomAM(altitude))
    );
    assert_eq!(
        EventName::from_raw(RawEventName::CustomPM, Some(altitude)),
        Some(EventName::CustomPM(altitude))
    );
    assert_eq!(EventName::from_raw(RawEventName::CustomAM, None), None);
    assert_eq!(EventName::from_raw(RawEventName::CustomPM, None), None);
    assert_eq!(
        EventName::from_raw(RawEventName::Sunrise, Some(altitude)),
        Some(EventName::Sunrise)
    );
    assert_eq!(
        EventName::from_raw(RawEventName::SolarNoon, None),
        Some(EventName::SolarNoon)
    );
}

#[test]
fn events_have_their_elevation_and_direction() {
    let fixed = |name: EventName| match Event::from_event_name(name) {
        Event::Fixed(fixed) => (fixed.degrees_below_horizon.value(), fixed.solar_direction),
        Event::Variable(_) => panic!("a fixed elevation was expected"),
    };
    assert_eq!(fixed(EventName::Sunrise), (833_000_000_000, Direction::Ascending));
    assert_eq!(fixed(EventName::Sunset), (833_000_000_000, Direction::Descending));
    assert_eq!(fixed(EventName::CivilDawn), (degrees(6.0), Direction::Ascending));
    assert_eq!(fixed(EventName::CivilDusk), (degrees(6.0), Direction::Descending));
    assert_eq!(fixed(EventName::NauticalDawn), (degrees(12.0), Direction::Ascending));
    assert_eq!(fixed(EventName::NauticalDusk), (degrees(12.0), Direction::Descending));
    assert_eq!(fixed(EventName::AstronomicalDawn), (degrees(18.0), Direction::Ascending));
    assert_eq!(fixed(EventName::AstronomicalDusk), (degrees(18.0), Direction::Descending));
    let altitude = Altitude::new(degrees(-8.5)).unwrap();
    assert_eq!(fixed(EventName::CustomAM(altitude)), (degrees(-8.5), Direction::Ascending));
    assert_eq!(fixed(EventName::CustomPM(altitude)), (degrees(-8.5), Direction::Descending));
    assert_eq!(
        Event::from_event_name(EventName::SolarNoon),
        Event::Variable(VariableElevationEvent::SolarNoon)
    );
}

#[test]
fn the_parts_of_the_day_have_names() {
    assert_eq!(DayPart::Day.to_text(), "Day");
    assert_eq!(DayPart::CivilTwilight.to_text(), "Civil Twilight");
    assert_eq!(DayPart::NauticalTwilight.to_text(), "Nautical Twilight");
    assert_eq!(DayPart::AstronomicalTwilight.to_text(), "Astronomical Twilight");
    assert_eq!(DayPart::Night.to_text(), "Night");
}

#[test]
fn a_text_just_beyond_a_bound_is_not_taken_for_the_bound() {
    assert_eq!(
        Latitude::parse("90.0000000000009").unwrap_err(),
        "Latitude must be between -90.0 and 90.0, inclusive. Found `90.0000000000009`."
    );
    assert!(Latitude::parse("-90.00000000000000000001").is_err());
    assert!(Latitude::parse("90.0000000000000").is_ok());
    assert!(Latitude::parse("90.000000000000000").is_ok());
    assert_eq!(
        Latitude::parse("89.9999999999999").unwrap().value(),
        89_999_999_999_999
    );
    assert_eq!(Latitude::parse("-0.0000000000009").unwrap().value(), 0);
    assert_eq!(
        Longitude::parse("180.0000000000001").unwrap_err(),
        "Longitude must be between -180.0 and 180.0, inclusive. Found '180.0000000000001'."
    );
    assert!(Longitude::parse("-180.0000000000001").is_err());
    assert!(Longitude::parse("-180.0000000000000").is_ok());
    assert_eq!(
        Altitude::parse("90.0000000000009").unwrap_err(),
        "Expected a number between -90.0 and 90.0. Found '90.0000000000009'"
    );
    assert!(Altitude::parse("-90.0000000000009").is_err());
    assert!(Altitude::parse("-90.000000000000").is_ok());
}
