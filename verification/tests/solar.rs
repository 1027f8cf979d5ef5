use chrono::DateTime;
use heliocron::calc::{
    solar_noon_fraction, true_hour_angle, HourAngle, HourAngles, RefractionBand,
    SolarCalculations,
};
use heliocron::domain::{Coordinates, Event, EventName, Latitude, Longitude};
use heliocron::report::SolarReport;
use heliocron::timestamp::Timestamp;
use heliocron::traits::DateTimeExt;

const UNITS_PER_DEGREE: f64 = 1e12;
const UNITS_PER_DAY: f64 = 86_400e12;

fn degrees(value: f64) -> i64 {
    if value.is_nan() {
        i64::MAX
    } else {
        (value * UNITS_PER_DEGREE).round() as i64
    }
}

fn day_fraction(value: f64) -> i64 {
    (value * UNITS_PER_DAY).round() as i64
}

fn timestamp(rfc3339: &str) -> Timestamp {
    let date = DateTime::parse_from_rfc3339(rfc3339).unwrap();
    Timestamp::new(date.timestamp(), date.offset().local_minus_utc()).unwrap()
}

fn coordinates(latitude: f64, longitude: f64) -> Coordinates {
    Coordinates {
        latitude: Latitude::new(degrees(latitude)).unwrap(),
        longitude: Longitude::new(degrees(longitude)).unwrap(),
    }
}

/// The sun's declination in degrees and the equation of time in minutes.
fn midday_quantities(date: &Timestamp) -> (f64, f64) {
    let julian_date: f64 = date.to_julian_date() as f64 / 86_400.0;

    let julian_century = (julian_date - 2451545.0) / 36525.0;

    let geometric_solar_mean_longitude =
        (280.46646 + julian_century * (36000.76983 + julian_century * 0.0003032)) % 360.0;

    let solar_mean_anomaly =
        357.52911 + julian_century * (35999.05029 - 0.0001537 * julian_century);

    let eccent_earth_orbit =
        0.016708634 - julian_century * (0.000042037 + 0.0000001267 * julian_century);

    let equation_of_the_center = solar_mean_anomaly.to_radians().sin()
        * (1.914602 - julian_century * (0.004817 + 0.000014 * julian_century))
        + (2.0 * solar_mean_anomaly).to_radians().sin() * (0.019993 - 0.000101 * julian_century)
        + (3.0 * solar_mean_anomaly).to_radians().sin() * 0.000289;

    let solar_true_longitude = geometric_solar_mean_longitude + equation_of_the_center;

    let solar_apparent_longitude = solar_true_longitude
        - 0.00569
        - 0.00478 * (125.04 - 1934.136 * julian_century).to_radians().sin();

    let mean_oblique_ecliptic = 23.0
        + (26.0
            + (21.448
                - julian_century
                    * (46.815 + julian_century * (0.00059 - julian_century * 0.001813)))
                / 60.0)
            / 60.0;

    let oblique_corrected =
        mean_oblique_ecliptic + 0.00256 * (125.04 - 1934.136 * julian_century).to_radians().cos();

    let solar_declination = ((oblique_corrected.to_radians().sin()
        * solar_apparent_longitude.to_radians().sin())
    .asin())
    .to_degrees();

    let var_y = (oblique_corrected / 2.0).to_radians().tan().powi(2);

    let equation_of_time = 4.0
        * (var_y * (geometric_solar_mean_longitude.to_radians() * 2.0).sin()
            - 2.0 * eccent_earth_orbit * solar_mean_anomaly.to_radians().sin()
            + 4.0
                * eccent_earth_orbit
                * var_y
                * solar_mean_anomaly.to_radians().sin()
                * (geometric_solar_mean_longitude.to_radians() * 2.0).cos()
            - 0.5 * var_y * var_y * (geometric_solar_mean_longitude.to_radians() * 4.0).sin()
            - 1.25
                * eccent_earth_orbit
                * eccent_earth_orbit
                * (solar_mean_anomaly.to_radians() * 2.0).sin())
        .to_degrees();

    (solar_declination, equation_of_time)
}

fn solar_calculations(date: Timestamp, coordinates: Coordinates) -> SolarCalculations {
    let (solar_declination, equation_of_time) = midday_quantities(&date);
    let equation_of_time = day_fraction(equation_of_time / 1440.0);
    let latitude = coordinates.latitude.value() as f64 / UNITS_PER_DEGREE;

    let true_hour_angle =
        true_hour_angle(&date, coordinates.longitude, equation_of_time) as f64 / UNITS_PER_DEGREE;

    let solar_zenith_angle = (latitude.to_radians().sin() * solar_declination.to_radians().sin()
        + latitude.to_radians().cos()
            * solar_declination.to_radians().cos()
            * true_hour_angle.to_radians().cos())
    .acos()
    .to_degrees();

    let solar_elevation_angle = 90.0 - solar_zenith_angle;

    let atmospheric_refraction = match RefractionBand::from_elevation(degrees(
        solar_elevation_angle,
    )) {
        RefractionBand::Overhead => 0.0,
        RefractionBand::High => {
            58.1 / solar_elevation_angle.to_radians().tan()
                - 0.07 / solar_elevation_angle.to_radians().tan().powi(3)
                + 0.000086 / solar_elevation_angle.to_radians().tan().powi(5)
        }
        RefractionBand::Horizon => {
            1735.0
                + solar_elevation_angle
                    * (103.4 + solar_elevation_angle * (-12.79 + solar_elevation_angle * 0.711))
        }
        RefractionBand::Below => -20.772 / solar_elevation_angle.to_radians().tan(),
    } / 3600.0;

    let corrected_solar_elevation_angle = solar_elevation_angle + atmospheric_refraction;

    SolarCalculations::new(
        date,
        coordinates,
        degrees(solar_declination),
        equation_of_time,
        degrees(corrected_solar_elevation_angle),
    )
    .unwrap()
}

fn hour_angle(calculations: &SolarCalculations, event: EventName) -> Option<HourAngle> {
    let degrees_below_horizon = match Event::from_event_name(event) {
        Event::Fixed(fixed) => fixed.degrees_below_horizon.value() as f64 / UNITS_PER_DEGREE,
        Event::Variable(_) => return None,
    };
    let latitude = calculations.coordinates().latitude.value() as f64 / UNITS_PER_DEGREE;
    let solar_declination = calculations.solar_declination() as f64 / UNITS_PER_DEGREE;
    let event_angle = degrees_below_horizon + 90.0;
    let cosine = (event_angle.to_radians().cos()
        / (latitude.to_radians().cos() * solar_declination.to_radians().cos()))
        - latitude.to_radians().tan() * solar_declination.to_radians().tan();
    let hour_angle = cosine.acos().to_degrees();

    HourAngle::from_cosine(degrees(cosine), degrees(hour_angle))
}

fn hour_angles(calculations: &SolarCalculations) -> HourAngles {
    HourAngles {
        sunrise: hour_angle(calculations, EventName::Sunrise),
        civil: hour_angle(calculations, EventName::CivilDawn),
        nautical: hour_angle(calculations, EventName::NauticalDawn),
        astronomical: hour_angle(calculations, EventName::AstronomicalDawn),
    }
}

fn max_solar_elevation(calculations: &SolarCalculations) -> i64 {
    let date = calculations.solar_noon().0.unwrap();
    solar_calculations(date, calculations.coordinates()).corrected_solar_elevation_angle()
}

fn day_length(calculations: &SolarCalculations) -> i64 {
    let sunrise = hour_angle(calculations, EventName::Sunrise);
    assert!(calculations.can_reach(sunrise));
    calculations.day_length(sunrise, max_solar_elevation(calculations))
}

fn report(rfc3339: &str, latitude: f64, longitude: f64) -> SolarReport {
    let calcs = solar_calculations(timestamp(rfc3339), coordinates(latitude, longitude));
    let angles = hour_angles(&calcs);
    let elevation = max_solar_elevation(&calcs);
    assert!(SolarReport::is_within_reach(&calcs, &angles));
    assert!(angles.is_ascending());
    SolarReport::new(calcs, angles, elevation)
}

fn noon_fraction(calculations: &SolarCalculations) -> f64 {
    calculations.solar_noon_fraction() as f64 / UNITS_PER_DAY
}

#[test]
fn test_midday_calcs_zero_offset() {
    let date = timestamp("2022-07-29T12:00:00+00:00");
    let calcs = solar_calculations(date, coordinates(56.8197, -5.1047));
    assert!((noon_fraction(&calcs) - 0.5186937689277599).abs() < 1e-15);
}

#[test]
fn test_midday_calcs_small_offset() {
    let date = timestamp("2022-07-29T12:00:00+01:00");
    let calcs = solar_calculations(date, coordinates(56.8197, -5.1047));
    assert!((noon_fraction(&calcs) - 0.5603613849259489).abs() < 1e-15);
}

#[test]
fn test_midday_calcs_large_pos_offset() {
    let date = timestamp("2022-07-29T12:00:00+11:00");
    let calcs = solar_calculations(date, coordinates(-37.0321, 175.122));
    assert!((noon_fraction(&calcs) - 0.4764071517220478).abs() < 1e-15);
}

#[test]
fn test_midday_calcs_large_neg_offset() {
    let date = timestamp("2022-07-29T12:00:00-09:30");
    let calcs = solar_calculations(date, coordinates(-9.3968, -140.0777));
    assert!((noon_fraction(&calcs) - 0.4977758080863915).abs() < 1e-15);
}

#[test]
fn test_day_fraction_to_time_underoverflow() {
    // when a location is selected which is in a different time zone, it is possible for the sunrise/sunset to
    // occur either the following or previous day. This results in a day fraction which is either negative
    // or >= 1
    let date = timestamp("2020-03-25T12:00:00+00:00");
    let report = solar_calculations(date, coordinates(0.0, 0.0));

    let params = [
        ("2020-03-26 12:00:00 +00:00", 1.5),
        ("2020-03-24 12:00:00 +00:00", -0.5),
    ];

    for (expected_time, arg) in params.iter() {
        let result = report.day_fraction_to_datetime(day_fraction(*arg));
        assert_eq!(*expected_time, result.to_text());
    }
}

#[test]
fn test_day_fraction_to_time() {
    let date = timestamp("2020-03-25T12:00:00+00:00");
    let report = solar_calculations(date, coordinates(0.0, 0.0));
    let params = [
        ("2020-03-25 00:00:00 +00:00", 0.0),
        ("2020-03-25 12:00:00 +00:00", 0.5),
        ("2020-03-25 23:59:59 +00:00", 0.99999),
        ("2020-03-25 01:23:45 +00:00", 0.05816),
        ("2020-03-25 23:42:12 +00:00", 0.987639),
    ];

    for (expected, arg) in params.iter() {
        let result = report.day_fraction_to_datetime(day_fraction(*arg)).to_text();
        assert_eq!(*expected, result);
    }
}

#[test]
fn day_fraction_before_the_day_is_counted_from_the_day_before() {
    let date = timestamp("2020-03-25T12:00:00+00:00");
    let report = solar_calculations(date, coordinates(0.0, 0.0));
    let result = report.day_fraction_to_datetime(day_fraction(-0.25));
    assert_eq!("2020-03-24 18:00:00 +00:00", result.to_text());
    let result = report.day_fraction_to_datetime(day_fraction(-1.0));
    assert_eq!("2020-03-24 00:00:00 +00:00", result.to_text());
    let result = report.day_fraction_to_datetime(day_fraction(2.0) - 1);
    assert_eq!("2020-03-26 23:59:59 +00:00", result.to_text());
}

#[test]
fn test_day_length() {
    // assert the correct length of day for a typical day
    let date = timestamp("2020-03-25T12:00:00+00:00");
    let solar_calculations = solar_calculations(date, coordinates(51.4769, -0.0005));

    let day_length = day_length(&solar_calculations);
    let expected = 45113;

    assert_eq!(day_length, expected);
}

#[test]
fn test_day_length_24_hour_night() {
    // assert the correct length of day when the sun never rises
    let date = timestamp("2020-12-25T12:00:00+00:00");
    let solar_calculations = solar_calculations(date, coordinates(70.67299, 23.67165));

    let day_length = day_length(&solar_calculations);
    let expected = 0;

    assert_eq!(day_length, expected);
}

#[test]
fn test_day_length_24_hour_day() {
    // assert the correct length of day when the sun never sets
    let date = timestamp("2020-06-25T12:00:00+00:00");
    let solar_calculations = solar_calculations(date, coordinates(70.67299, 23.67165));

    let day_length = day_length(&solar_calculations);
    let expected = 86400;

    assert_eq!(day_length, expected);
}

#[test]
fn test_solar_report_new() {
    let _new_report = report("2020-03-25T12:00:00+00:00", 0.0, 0.0);
}

#[test]
fn test_report_content() {
    // check that the report contains all the correct metrics
    let report = report("2020-03-25T12:00:00+00:00", 0.0, 0.0);
    let report_str = report.format_report();

    assert!(report_str.contains("LOCATION"));
    assert!(report_str.contains("DATE"));
    assert!(report_str.contains("Latitude"));
    assert!(report_str.contains("Longitude"));
    assert!(report_str.contains("Sunrise is at"));
    assert!(report_str.contains("Solar noon is at"));
    assert!(report_str.contains("Sunset is at"));
    assert!(report_str.contains("The day length is"));

    let sunrise_str = report.sunrise.to_text();
    assert!(report_str.contains(&sunrise_str));

    let solar_noon_str = report.solar_noon.to_text();
    assert!(report_str.contains(&solar_noon_str));

    let sunset_str = report.sunset.to_text();
    assert!(report_str.contains(&sunset_str));

    let day_length_str = SolarReport::day_length_hms(report.day_length);
    assert!(report_str.contains(&day_length_str));
}

fn time_of(event: &heliocron::domain::EventTime) -> String {
    event.time().unwrap().to_text()
}

#[test]
fn test_sunrise_sunset() {
    // ~Springtime
    let report_a = report("2020-03-25T12:00:00+00:00", 55.9533, -3.1883);

    assert_eq!("06:00:07", time_of(&report_a.sunrise));
    assert_eq!("18:36:59", time_of(&report_a.sunset));
    assert_eq!("12:18:33", time_of(&report_a.solar_noon));
    assert_eq!("05:22:43", time_of(&report_a.civil_dawn));
    assert_eq!("19:14:23", time_of(&report_a.civil_dusk));
    assert_eq!("04:37:42", time_of(&report_a.nautical_dawn));
    assert_eq!("19:59:24", time_of(&report_a.nautical_dusk));
    assert_eq!("03:49:09", time_of(&report_a.astronomical_dawn));
    assert_eq!("20:47:57", time_of(&report_a.astronomical_dusk));

    // mid-summer (there is no true night; it stays astronomical twilight)
    let report_b = report("2020-06-21T12:00:00+01:00", 55.9533, -3.1883);

    assert_eq!("04:26:26", time_of(&report_b.sunrise));
    assert_eq!("22:02:52", time_of(&report_b.sunset));
    assert_eq!("13:14:39", time_of(&report_b.solar_noon));
    assert_eq!("03:23:57", time_of(&report_b.civil_dawn));
    assert_eq!("23:05:20", time_of(&report_b.civil_dusk));
    assert_eq!(None, report_b.nautical_dawn.0);
    assert_eq!("Never".to_string(), report_b.nautical_dawn.to_text());
    assert_eq!(None, report_b.nautical_dusk.0);
    assert_eq!("Never".to_string(), report_b.nautical_dusk.to_text());
    assert_eq!(None, report_b.astronomical_dawn.0);
    assert_eq!("Never".to_string(), report_b.astronomical_dawn.to_text());
    assert_eq!(None, report_b.astronomical_dusk.0);
    assert_eq!("Never".to_string(), report_b.astronomical_dusk.to_text());

    // now try with a non-zero time zone
    let report_c = report("2020-03-30T12:00:00+01:00", 55.9533, -3.1883);

    assert_eq!("06:47:03", time_of(&report_c.sunrise));
    assert_eq!("19:47:03", time_of(&report_c.sunset));
    assert_eq!("13:17:03", time_of(&report_c.solar_noon));
    assert_eq!("06:09:13", time_of(&report_c.civil_dawn));
    assert_eq!("20:24:53", time_of(&report_c.civil_dusk));
    assert_eq!("05:23:09", time_of(&report_c.nautical_dawn));
    assert_eq!("21:10:57", time_of(&report_c.nautical_dusk));
    assert_eq!("04:32:31", time_of(&report_c.astronomical_dawn));
    assert_eq!("22:01:36", time_of(&report_c.astronomical_dusk));

    // at an extreme longitude with a very non-local timezone
    let report_d = report("2020-03-25T12:00:00+00:00", 55.9533, -174.0);

    assert_eq!("2020-03-25 17:23:21 +00:00", report_d.sunrise.0.unwrap().to_text());
    assert_eq!("2020-03-26 06:00:14 +00:00", report_d.sunset.0.unwrap().to_text());
    assert_eq!("2020-03-25 23:41:48 +00:00", report_d.solar_noon.to_text());
    assert_eq!("2020-03-25 16:45:58 +00:00", report_d.civil_dawn.0.unwrap().to_text());
    assert_eq!("2020-03-26 06:37:37 +00:00", report_d.civil_dusk.0.unwrap().to_text());
    assert_eq!("2020-03-25 16:00:57 +00:00", report_d.nautical_dawn.0.unwrap().to_text());
    assert_eq!("2020-03-26 07:22:39 +00:00", report_d.nautical_dusk.0.unwrap().to_text());
    assert_eq!("2020-03-25 15:12:24 +00:00", report_d.astronomical_dawn.0.unwrap().to_text());
    assert_eq!("2020-03-26 08:11:12 +00:00", report_d.astronomical_dusk.0.unwrap().to_text());

    // an extreme northern latitude during the summer
    let report_e = report("2020-06-21T12:00:00+02:00", 78.22, 15.635);

    assert_eq!(None, report_e.sunrise.0);
    assert_eq!(None, report_e.sunset.0);
    assert_eq!("12:59:21", time_of(&report_e.solar_noon));
    assert_eq!(None, report_e.civil_dawn.0);
    assert_eq!(None, report_e.civil_dusk.0);
    assert_eq!(None, report_e.nautical_dawn.0);
    assert_eq!(None, report_e.nautical_dusk.0);
    assert_eq!(None, report_e.astronomical_dawn.0);
    assert_eq!(None, report_e.astronomical_dusk.0);
    assert_eq!("24h 0m 0s", SolarReport::day_length_hms(report_e.day_length));
}

fn rfc3339(event: &heliocron::domain::EventTime) -> Option<String> {
    event.to_rfc3339()
}

#[test]
fn test_json_output_format() {
    let report = report("2020-03-25T12:00:00+00:00", 55.9533, -3.1883);

    assert_eq!(report.coordinates.latitude.to_text(), "55.9533");
    assert_eq!(report.coordinates.longitude.to_text(), "-3.1883");
    assert_eq!(report.date.to_rfc3339(), "2020-03-25T12:00:00+00:00");
    assert_eq!(report.day_length, 45412);
    assert_eq!(rfc3339(&report.solar_noon).unwrap(), "2020-03-25T12:18:33+00:00");
    assert_eq!(rfc3339(&report.sunrise).unwrap(), "2020-03-25T06:00:07+00:00");
    assert_eq!(rfc3339(&report.sunset).unwrap(), "2020-03-25T18:36:59+00:00");
    assert_eq!(rfc3339(&report.civil_dawn).unwrap(), "2020-03-25T05:22:43+00:00");
    assert_eq!(rfc3339(&report.nautical_dawn).unwrap(), "2020-03-25T04:37:42+00:00");
    assert_eq!(rfc3339(&report.astronomical_dawn).unwrap(), "2020-03-25T03:49:09+00:00");
    assert_eq!(rfc3339(&report.civil_dusk).unwrap(), "2020-03-25T19:14:23+00:00");
    assert_eq!(rfc3339(&report.nautical_dusk).unwrap(), "2020-03-25T19:59:24+00:00");
    assert_eq!(rfc3339(&report.astronomical_dusk).unwrap(), "2020-03-25T20:47:57+00:00");
}

#[test]
fn test_json_output_format_with_null() {
    let report = report("2022-06-11T12:00:00+01:00", 51.4000, -5.4670);

    assert_eq!(report.coordinates.latitude.to_text(), "51.4");
    assert_eq!(report.coordinates.longitude.to_text(), "-5.467");
    assert_eq!(report.date.to_rfc3339(), "2022-06-11T12:00:00+01:00");
    assert_eq!(report.day_length, 59534);
    assert_eq!(rfc3339(&report.solar_noon).unwrap(), "2022-06-11T13:21:31+01:00");
    assert_eq!(rfc3339(&report.sunrise).unwrap(), "2022-06-11T05:05:24+01:00");
    assert_eq!(rfc3339(&report.sunset).unwrap(), "2022-06-11T21:37:38+01:00");
    assert_eq!(rfc3339(&report.civil_dawn).unwrap(), "2022-06-11T04:18:29+01:00");
    assert_eq!(rfc3339(&report.nautical_dawn).unwrap(), "2022-06-11T03:06:40+01:00");
    assert_eq!(rfc3339(&report.astronomical_dawn), None);
    assert_eq!(rfc3339(&report.civil_dusk).unwrap(), "2022-06-11T22:24:34+01:00");
    assert_eq!(rfc3339(&report.nautical_dusk).unwrap(), "2022-06-11T23:36:23+01:00");
    assert_eq!(rfc3339(&report.astronomical_dusk), None);
}

#[test]
fn sunrise_comes_before_solar_noon_and_solar_noon_before_sunset() {
    let report = report("2022-06-11T12:00:00+01:00", 51.4769, -0.0005);
    let sunrise = report.sunrise.0.unwrap();
    let noon = report.solar_noon.0.unwrap();
    let sunset = report.sunset.0.unwrap();
    assert!(sunrise.timestamp() < noon.timestamp());
    assert!(noon.timestamp() < sunset.timestamp());
    assert_eq!(report.day_length, sunset.seconds_since(&sunrise));
}

#[test]
fn a_deeper_threshold_gives_an_earlier_dawn_and_a_later_dusk() {
    let report = report("2020-03-25T12:00:00+00:00", 55.9533, -3.1883);
    let dawns = [
        report.astronomical_dawn.0.unwrap().timestamp(),
        report.nautical_dawn.0.unwrap().timestamp(),
        report.civil_dawn.0.unwrap().timestamp(),
        report.sunrise.0.unwrap().timestamp(),
    ];
    let dusks = [
        report.sunset.0.unwrap().timestamp(),
        report.civil_dusk.0.unwrap().timestamp(),
        report.nautical_dusk.0.unwrap().timestamp(),
        report.astronomical_dusk.0.unwrap().timestamp(),
    ];
    assert!(dawns.windows(2).all(|pair| pair[0] <= pair[1]));
    assert!(dusks.windows(2).all(|pair| pair[0] <= pair[1]));
}

#[test]
fn custom_events_at_greenwich_at_the_end_of_the_century() {
    let calcs = solar_calculations(
        timestamp("2099-12-30T12:00:00+00:00"),
        coordinates(51.4769, -0.0005),
    );
    let altitude = heliocron::domain::Altitude::new(degrees(8.5)).unwrap();
    let morning = Event::from_event_name(EventName::CustomAM(altitude));
    let evening = Event::from_event_name(EventName::CustomPM(altitude));
    let angle = hour_angle(&calcs, EventName::CustomAM(altitude));
    assert_eq!(
        calcs.event_time(morning, angle).to_text(),
        "2099-12-30 07:07:05 +00:00"
    );
    assert_eq!(
        calcs.event_time(evening, angle).to_text(),
        "2099-12-30 16:57:51 +00:00"
    );
    let sunrise = hour_angle(&calcs, EventName::Sunrise);
    assert_eq!(
        calcs
            .event_time(Event::from_event_name(EventName::Sunrise), sunrise)
            .to_text(),
        "2099-12-30 08:05:21 +00:00"
    );
}

#[test]
fn an_event_without_an_hour_angle_does_not_occur() {
    let calcs = solar_calculations(
        timestamp("2020-03-25T12:00:00+00:00"),
        coordinates(51.4769, -0.0005),
    );
    let sunrise = Event::from_event_name(EventName::Sunrise);
    assert!(!calcs.event_time(sunrise, None).is_some());
    let noon = Event::from_event_name(EventName::SolarNoon);
    assert!(calcs.event_time(noon, None).is_some());
    assert_eq!(calcs.event_time(noon, None), calcs.solar_noon());
}

#[test]
fn calculations_are_refused_out_of_range() {
    let place = coordinates(51.4769, -0.0005);
    let date = timestamp("2020-03-25T12:00:00+00:00");
    // Solar noon may lie up to a day out of the day, whether by longitude and offset or by
    // the equation of time, and no further.
    assert!(SolarCalculations::new(date, place, 0, day_fraction(1.01), 0).is_some());
    assert!(SolarCalculations::new(date, place, 0, day_fraction(-1.0), 0).is_some());
    assert!(SolarCalculations::new(date, place, 0, day_fraction(1.6), 0).is_none());
    assert!(SolarCalculations::new(date, place, 0, day_fraction(-1.6), 0).is_none());
    assert!(SolarCalculations::new(date, place, 0, 0, 0).is_some());
    let late = Timestamp::new(8_000_000_000_000 - 86_400, 0).unwrap();
    assert!(SolarCalculations::new(late, place, 0, 0, 0).is_none());
}

#[test]
fn refraction_bands() {
    assert_eq!(RefractionBand::from_elevation(degrees(85.1)), RefractionBand::Overhead);
    assert_eq!(RefractionBand::from_elevation(degrees(85.0)), RefractionBand::High);
    assert_eq!(RefractionBand::from_elevation(degrees(5.0)), RefractionBand::Horizon);
    assert_eq!(RefractionBand::from_elevation(degrees(-0.574)), RefractionBand::Horizon);
    assert_eq!(RefractionBand::from_elevation(degrees(-0.575)), RefractionBand::Below);
}

#[test]
fn there_is_no_hour_angle_for_a_cosine_beyond_one() {
    let right = degrees(90.0);
    assert_eq!(HourAngle::from_cosine(0, right), HourAngle::new(right));
    assert_eq!(HourAngle::from_cosine(degrees(1.0), 0), HourAngle::new(0));
    assert_eq!(
        HourAngle::from_cosine(degrees(-1.0), degrees(180.0)),
        HourAngle::new(degrees(180.0))
    );
    assert_eq!(HourAngle::from_cosine(degrees(1.0) + 1, 0), None);
    assert_eq!(HourAngle::from_cosine(degrees(-1.0) - 1, degrees(180.0)), None);
    assert_eq!(HourAngle::from_cosine(degrees(1.5), degrees(f64::NAN)), None);
    assert_eq!(HourAngle::from_cosine(0, -1), None);
}

#[test]
fn hour_angle_is_between_nothing_and_a_straight_angle() {
    assert!(HourAngle::new(0).is_some());
    assert!(HourAngle::new(degrees(180.0)).is_some());
    assert!(HourAngle::new(-1).is_none());
    assert!(HourAngle::new(degrees(180.0) + 1).is_none());
    assert_eq!(HourAngle::new(degrees(90.0)).unwrap().value(), 90_000_000_000_000);
}

#[test]
fn solar_noon_by_longitude_equation_of_time_and_offset() {
    let longitude = |value: f64| Longitude::new(degrees(value)).unwrap();
    // On the meridian of the time zone the sun crosses at twelve.
    assert_eq!(solar_noon_fraction(longitude(0.0), 0, 0), Some(43_200_000_000_000_000));
    assert_eq!(solar_noon_fraction(longitude(15.0), 0, 3600), Some(43_200_000_000_000_000));
    // Four minutes earlier for each degree east.
    assert_eq!(solar_noon_fraction(longitude(1.0), 0, 0), Some(42_960_000_000_000_000));
    assert_eq!(solar_noon_fraction(longitude(-1.0), 0, 0), Some(43_440_000_000_000_000));
    // Earlier by the equation of time, later by the offset.
    assert_eq!(
        solar_noon_fraction(longitude(0.0), 60_000_000_000_000, 0),
        Some(43_140_000_000_000_000)
    );
    assert_eq!(solar_noon_fraction(longitude(0.0), 0, -3600), Some(39_600_000_000_000_000));
    // Far from the meridian of the time zone it falls out of the day.
    assert_eq!(solar_noon_fraction(longitude(180.0), 0, -43_200), Some(-43_200_000_000_000_000));
    assert_eq!(solar_noon_fraction(longitude(-180.0), 0, 43_200), Some(129_600_000_000_000_000));
    assert_eq!(
        solar_noon_fraction(longitude(-175.2), 0, 46_800),
        Some(132_048_000_000_000_000)
    );
    // At most one day out of the day.
    assert_eq!(
        solar_noon_fraction(longitude(0.0), 129_600_000_000_000_000, 0),
        Some(-86_400_000_000_000_000)
    );
    assert_eq!(solar_noon_fraction(longitude(0.0), 129_600_000_000_000_001, 0), None);
    assert_eq!(
        solar_noon_fraction(longitude(0.0), -129_599_999_999_999_999, 0),
        Some(172_799_999_999_999_999)
    );
    assert_eq!(solar_noon_fraction(longitude(0.0), -129_600_000_000_000_000, 0), None);
    assert_eq!(solar_noon_fraction(longitude(0.0), i64::MIN, i32::MAX), None);
}

#[test]
fn the_hour_angle_is_counted_from_solar_noon() {
    let longitude = |value: f64| Longitude::new(degrees(value)).unwrap();
    let at = |rfc3339: &str, place: f64| true_hour_angle(&timestamp(rfc3339), longitude(place), 0);
    assert_eq!(at("2020-03-25T12:00:00+00:00", 0.0), 0);
    assert_eq!(at("2020-03-25T06:00:00+00:00", 0.0), degrees(-90.0));
    assert_eq!(at("2020-03-25T18:00:00+00:00", 0.0), degrees(90.0));
    assert_eq!(at("2020-03-25T00:00:00+00:00", 0.0), degrees(-180.0));
    assert_eq!(at("2020-03-25T12:00:00+01:00", 15.0), 0);
    assert_eq!(at("2020-03-25T12:00:00+00:00", 15.0), degrees(15.0));
    // Before the midnight of true solar time the angle is counted from the noon before.
    assert_eq!(at("2020-03-25T00:00:00+00:00", -15.0), degrees(165.0));
    assert_eq!(at("2020-03-25T23:00:00+00:00", 30.0), degrees(-165.0));
    // A degree for every four minutes, and what is less than a unit is dropped.
    let date = timestamp("2020-03-25T12:00:00+00:00");
    assert_eq!(true_hour_angle(&date, longitude(0.0), 240), 1);
    assert_eq!(true_hour_angle(&date, longitude(0.0), 239), 0);
    // Whole days are taken out, whatever the equation of time.
    assert_eq!(
        true_hour_angle(&date, longitude(0.0), 86_400_000_000_000_000 * 100 + 240),
        1
    );
    assert_eq!(true_hour_angle(&date, longitude(0.0), i64::MAX), true_hour_angle(
        &date,
        longitude(0.0),
        i64::MAX % 86_400_000_000_000_000
    ));
}

#[test]
fn an_event_falls_four_minutes_from_noon_for_each_degree_of_hour_angle() {
    let place = coordinates(0.0, 0.0);
    let calcs =
        SolarCalculations::new(timestamp("2020-03-25T12:00:00+00:00"), place, 0, 0, 0).unwrap();
    assert_eq!(calcs.solar_noon_fraction(), 43_200_000_000_000_000);
    assert_eq!(calcs.solar_noon().to_text(), "2020-03-25 12:00:00 +00:00");
    let right = HourAngle::new(degrees(90.0));
    let sunrise = Event::from_event_name(EventName::Sunrise);
    let sunset = Event::from_event_name(EventName::Sunset);
    assert_eq!(calcs.event_time(sunrise, right).to_text(), "2020-03-25 06:00:00 +00:00");
    assert_eq!(calcs.event_time(sunset, right).to_text(), "2020-03-25 18:00:00 +00:00");
    assert_eq!(calcs.day_length(right, 0), 43_200);
    let one = HourAngle::new(degrees(1.0));
    assert_eq!(calcs.event_time(sunrise, one).to_text(), "2020-03-25 11:56:00 +00:00");
    assert_eq!(calcs.event_time(sunset, one).to_text(), "2020-03-25 12:04:00 +00:00");
    assert_eq!(calcs.day_length(one, 0), 480);
    let straight = HourAngle::new(degrees(180.0));
    assert_eq!(calcs.event_time(sunrise, straight).to_text(), "2020-03-25 00:00:00 +00:00");
    assert_eq!(calcs.event_time(sunset, straight).to_text(), "2020-03-26 00:00:00 +00:00");
    assert_eq!(calcs.day_length(straight, 0), 86_400);
    let none = HourAngle::new(0);
    assert_eq!(calcs.event_time(sunrise, none), calcs.solar_noon());
    assert_eq!(calcs.day_length(none, 0), 0);
    // Less than a second of hour angle may or may not reach into the second before.
    let least = HourAngle::new(1);
    assert_eq!(calcs.event_time(sunrise, least).to_text(), "2020-03-25 11:59:59 +00:00");
    assert_eq!(calcs.event_time(sunset, least).to_text(), "2020-03-25 12:00:00 +00:00");
}

#[test]
fn without_sunrise_the_day_is_all_or_nothing() {
    let place = coordinates(78.22, 15.635);
    let calcs =
        SolarCalculations::new(timestamp("2020-06-21T12:00:00+02:00"), place, 0, 0, 0).unwrap();
    assert_eq!(calcs.day_length(None, degrees(0.833)), 86_400);
    assert_eq!(calcs.day_length(None, degrees(0.833) - 1), 0);
    assert_eq!(calcs.day_length(None, degrees(35.0)), 86_400);
    assert_eq!(calcs.day_length(None, degrees(-12.0)), 0);
}

#[test]
fn a_length_is_written_in_hours_minutes_and_seconds() {
    assert_eq!(SolarReport::day_length_hms(45_113), "12h 31m 53s");
    assert_eq!(SolarReport::day_length_hms(0), "0h 0m 0s");
    assert_eq!(SolarReport::day_length_hms(59), "0h 0m 59s");
    assert_eq!(SolarReport::day_length_hms(86_400), "24h 0m 0s");
    assert_eq!(SolarReport::day_length_hms(-125), "0h -2m -5s");
    assert_eq!(SolarReport::day_length_hms(-3_725), "-1h -2m -5s");
}

#[test]
fn the_report_is_laid_out_for_a_reader() {
    let report = report("2020-03-25T12:00:00+00:00", 55.9533, -3.1883);
    let expected = "LOCATION\n--------\nLatitude: 55.9533\nLongitude: -3.1883\n\nDATE\n----\n2020-03-25 12:00:00 +00:00\n\nSolar noon is at:         2020-03-25 12:18:33 +00:00\nThe day length is:        12h 36m 52s\n\nSunrise is at:            2020-03-25 06:00:07 +00:00\nSunset is at:             2020-03-25 18:36:59 +00:00\n\nCivil dawn is at:         2020-03-25 05:22:43 +00:00\nCivil dusk is at:         2020-03-25 19:14:23 +00:00\n\nNautical dawn is at:      2020-03-25 04:37:42 +00:00\nNautical dusk is at:      2020-03-25 19:59:24 +00:00\n\nAstronomical dawn is at:  2020-03-25 03:49:09 +00:00\nAstronomical dusk is at:  2020-03-25 20:47:57 +00:00\n        ";
    assert_eq!(report.format_report(), expected);
}

#[test]
fn midsummer_at_greenwich_has_no_astronomical_night() {
    let report = report("2022-06-11T12:00:00+01:00", 51.4769, -0.0005);
    assert_eq!(rfc3339(&report.sunrise).unwrap(), "2022-06-11T04:43:07+01:00");
    assert_eq!(rfc3339(&report.sunset).unwrap(), "2022-06-11T21:16:12+01:00");
    assert_eq!(rfc3339(&report.astronomical_dawn), None);
    assert_eq!(rfc3339(&report.astronomical_dusk), None);
    assert!(report.nautical_dawn.is_some());
    assert!(report.nautical_dusk.is_some());
}

#[test]
fn west_of_the_date_line_the_events_fall_on_the_next_day() {
    // Tonga keeps a time thirteen hours ahead of UTC at a longitude of 175 degrees west.
    let date = timestamp("2022-01-01T12:00:00+13:00");
    let calcs = solar_calculations(date, coordinates(-21.2, -175.2));
    assert!((noon_fraction(&calcs) - 1.53).abs() < 0.01);
    assert_eq!(calcs.solar_noon().to_text(), "2022-01-02 12:44:06 +13:00");

    let ahead = report("2022-01-01T12:00:00+13:00", -21.2, -175.2);
    assert_eq!(ahead.solar_noon.to_text(), "2022-01-02 12:44:06 +13:00");
    assert_eq!(ahead.sunrise.to_text(), "2022-01-02 06:02:12 +13:00");
    assert_eq!(ahead.sunset.to_text(), "2022-01-02 19:25:59 +13:00");
    assert_eq!(ahead.astronomical_dawn.to_text(), "2022-01-02 04:37:26 +13:00");
    assert_eq!(ahead.astronomical_dusk.to_text(), "2022-01-02 20:50:46 +13:00");
    assert_eq!(ahead.day_length, 13 * 3600 + 23 * 60 + 47);

    // The same place with the clock of the other side of the line.
    let behind = report("2022-01-01T12:00:00-11:00", -21.2, -175.2);
    assert!(time_of(&behind.solar_noon).starts_with("12:4"));
    assert!(behind.solar_noon.to_text().starts_with("2022-01-01 12:4"));

    // Samoa and Kiritimati, further east still and with clocks further ahead.
    for (rfc3339, latitude, longitude) in [
        ("2022-01-01T12:00:00+13:00", -13.8, -171.8),
        ("2022-06-21T12:00:00+14:00", 1.9, -157.4),
    ] {
        let calcs = solar_calculations(timestamp(rfc3339), coordinates(latitude, longitude));
        let angles = hour_angles(&calcs);
        assert!(SolarReport::is_within_reach(&calcs, &angles));
        let islands = SolarReport::new(calcs, angles, max_solar_elevation(&calcs));
        assert!(islands.sunrise.is_some() && islands.sunset.is_some());
        assert!(islands.day_length > 11 * 3600 && islands.day_length < 14 * 3600);
    }
}

#[test]
fn an_event_more_than_a_day_out_of_the_day_is_out_of_reach() {
    let place = coordinates(0.0, -180.0);
    // Solar noon two hours before the end of the day after.
    let date = timestamp("2020-03-25T12:00:00+14:00");
    let calcs = SolarCalculations::new(date, place, 0, day_fraction(-1.0 / 3.0), 0).unwrap();
    assert_eq!(calcs.solar_noon_fraction(), day_fraction(1.0 + 22.0 / 24.0));
    let sunrise = Event::from_event_name(EventName::Sunrise);
    let sunset = Event::from_event_name(EventName::Sunset);
    let near = HourAngle::new(degrees(29.0));
    let far = HourAngle::new(degrees(30.0));
    assert!(calcs.is_in_reach(sunrise, near) && calcs.is_in_reach(sunset, near));
    assert!(calcs.can_reach(near));
    assert_eq!(calcs.event_time(sunset, near).to_text(), "2020-03-26 23:56:00 +14:00");
    assert!(calcs.is_in_reach(sunrise, far));
    assert!(!calcs.is_in_reach(sunset, far));
    assert!(!calcs.can_reach(far));
    assert_eq!(calcs.event_time(sunrise, far).to_text(), "2020-03-26 20:00:00 +14:00");
    // Without an hour angle, and for solar noon, there is nothing to reach.
    assert!(calcs.is_in_reach(sunset, None) && calcs.can_reach(None));
    assert!(calcs.is_in_reach(Event::from_event_name(EventName::SolarNoon), far));
    let angles = HourAngles { sunrise: near, civil: far, nautical: None, astronomical: None };
    assert!(!SolarReport::is_within_reach(&calcs, &angles));
}

#[test]
fn hour_angles_grow_with_the_depression() {
    let angle = |value: f64| HourAngle::new(degrees(value));
    let angles = HourAngles {
        sunrise: angle(90.0),
        civil: angle(96.0),
        nautical: angle(102.0),
        astronomical: angle(108.0),
    };
    assert!(angles.is_ascending());
    let angles = HourAngles { sunrise: None, civil: angle(96.0), nautical: None, astronomical: angle(96.0) };
    assert!(angles.is_ascending());
    let angles = HourAngles { sunrise: angle(97.0), civil: angle(96.0), nautical: None, astronomical: None };
    assert!(!angles.is_ascending());
    let angles = HourAngles { sunrise: angle(90.0), civil: None, nautical: angle(89.0), astronomical: None };
    assert!(!angles.is_ascending());
    let none = HourAngles { sunrise: None, civil: None, nautical: None, astronomical: None };
    assert!(none.is_ascending());
}
