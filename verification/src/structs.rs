//! Coordinates as a caller writes them: a magnitude in degrees followed by
//! a compass direction, such as `51.4769N`.

use vstd::prelude::*;
use vstd::string::StrSliceExecFns;
use crate::decimal::{
    digit_char, digit_to_char, digits_of, magnitude, push_digits, read_decimal,
    spec_drops_digits, spec_parse_decimal,
};
use crate::enums::lowercased;
use crate::errors::{ConfigErrorKind, HeliocronError};
use crate::units::{RIGHT_ANGLE, STRAIGHT_ANGLE};

pub use crate::domain::EventTime;

verus! {

/// The error that holds `msg` as what is wrong with a coordinate.
pub open spec fn invalid_coordinates(msg: Seq<char>, error: HeliocronError) -> bool {
    error matches HeliocronError::Config(ConfigErrorKind::InvalidCoordindates(text)) && text@ == msg
}

fn invalid_coordinates_error(msg: &'static str) -> (error: HeliocronError)
    ensures
        invalid_coordinates(msg@, error),
{
    HeliocronError::Config(ConfigErrorKind::InvalidCoordindates(msg))
}

#[derive(Debug, Clone, Copy, PartialEq, Eq, Structural)]
pub struct Coordinates {
    pub latitude: Latitude,
    pub longitude: Longitude,
}

/// A latitude in picodegrees, positive to the north.
#[derive(Debug, Clone, Copy, PartialEq, Eq, Structural)]
pub struct Latitude(pub i64);

/// A longitude in picodegrees, positive to the east.
#[derive(Debug, Clone, Copy, PartialEq, Eq, Structural)]
pub struct Longitude(pub i64);

/// Picodegrees in one ten-thousandth of a degree.
pub const UNITS_PER_TEN_THOUSANDTH: u64 = 100_000_000;

/// The ten-thousandths of a degree nearest to a magnitude in picodegrees;
/// of two that are equally near, the even one.
pub open spec fn ten_thousandths(m: nat) -> nat {
    let whole = m / (UNITS_PER_TEN_THOUSANDTH as nat);
    let rest = m % (UNITS_PER_TEN_THOUSANDTH as nat);
    if rest * 2 > UNITS_PER_TEN_THOUSANDTH || (rest * 2 == UNITS_PER_TEN_THOUSANDTH && whole % 2
        == 1) {
        whole + 1
    } else {
        whole
    }
}

/// A magnitude in picodegrees as degrees with four decimal places.
pub open spec fn four_place_text(m: nat) -> Seq<char> {
    let n = ten_thousandths(m);
    digits_of(n / 10_000) + seq![
        '.',
        digit_char(((n / 1000) % 10) as int),
        digit_char(((n / 100) % 10) as int),
        digit_char(((n / 10) % 10) as int),
        digit_char((n % 10) as int),
    ]
}

/// The magnitude of a coordinate with four decimal places, followed by the
/// letter of its direction.
pub open spec fn compass_text(value: int, positive: char, negative: char) -> Seq<char> {
    if value >= 0 {
        four_place_text(value as nat).push(positive)
    } else {
        four_place_text((-value) as nat).push(negative)
    }
}

/// The magnitude of a coordinate with four decimal places, followed by the
/// letter of its direction.
pub fn format_compass(value: i64, positive: char, negative: char) -> (text: String)
    ensures
        text@ == compass_text(value as int, positive, negative),
{
    let m: u64 = magnitude(value);
    let whole: u64 = m / UNITS_PER_TEN_THOUSANDTH;
    let rest: u64 = m % UNITS_PER_TEN_THOUSANDTH;
    let n: u64 = if rest * 2 > UNITS_PER_TEN_THOUSANDTH || (rest * 2 == UNITS_PER_TEN_THOUSANDTH
        && whole % 2 == 1) {
        whole + 1
    } else {
        whole
    };
    let mut text = String::new();
    push_digits(&mut text, n / 10_000);
    text.push('.');
    text.push(digit_to_char((n / 1000) % 10));
    text.push(digit_to_char((n / 100) % 10));
    text.push(digit_to_char((n / 10) % 10));
    text.push(digit_to_char(n % 10));
    text.push(if value >= 0 {
        positive
    } else {
        negative
    });
    proof {
        assert(text@ =~= compass_text(value as int, positive, negative));
    }
    text
}

impl Latitude {
    /// The latitude with four decimal places and `N` or `S`.
    pub fn to_text(&self) -> (text: String)
        ensures
            text@ == compass_text(self.0 as int, 'N', 'S'),
    {
        format_compass(self.0, 'N', 'S')
    }
}

impl Longitude {
    /// The longitude with four decimal places and `E` or `W`.
    pub fn to_text(&self) -> (text: String)
        ensures
            text@ == compass_text(self.0 as int, 'E', 'W'),
    {
        format_compass(self.0, 'E', 'W')
    }
}

/// The last character of a text in lower case, if the text has one.
pub open spec fn last_lowercased(coordinate: Seq<char>) -> Option<char> {
    if lowercased(coordinate).len() > 0 {
        Some(lowercased(coordinate).last())
    } else {
        None
    }
}

/// The last character of a text in lower case, if the text is not empty
/// and has one.
pub open spec fn last_of(coordinate: Seq<char>) -> Option<char> {
    if coordinate.len() > 0 {
        last_lowercased(coordinate)
    } else {
        None
    }
}

/// What reading the compass direction of a coordinate gives, for the two
/// letters of its axis and what is said of any other.
pub open spec fn is_compass_direction(
    last: Option<char>,
    first: char,
    second: char,
    msg: Seq<char>,
    r: Result<char, HeliocronError>,
) -> bool {
    match last {
        None => r is Err && invalid_coordinates("No coordinates found"@, r->Err_0),
        Some(c) => if c == first || c == second {
            r == Ok::<char, HeliocronError>(c)
        } else {
            r is Err && invalid_coordinates(msg, r->Err_0)
        },
    }
}

/// What reading the magnitude of a coordinate gives: the number that the
/// text writes without its last character, where that is a number without
/// a minus sign and not beyond `limit`. What lies beyond the twelfth decimal
/// place is dropped, but not where that would bring a number beyond `limit`
/// back to it.
pub open spec fn is_decimal_degrees(
    coordinate: Seq<char>,
    limit: int,
    form_msg: Seq<char>,
    range_msg: Seq<char>,
    r: Result<i64, HeliocronError>,
) -> bool {
    let body = coordinate.drop_last();
    match spec_parse_decimal(body) {
        None => r is Err && invalid_coordinates(form_msg, r->Err_0),
        Some(value) => if body[0] != '-' && 0 <= value <= limit && !(spec_drops_digits(body)
            && value == limit) {
            r is Ok && r->Ok_0 == value
        } else {
            r is Err && invalid_coordinates(range_msg, r->Err_0)
        },
    }
}

/// The last character of the text in lower case.
fn last_in_lower_case(coordinate: &str) -> (last: Option<char>)
    ensures
        last == last_lowercased(coordinate@),
{
    let lower = coordinate.to_lowercase();
    let n: usize = lower.as_str().unicode_len();
    if n > 0 {
        Some(lower.as_str().get_char(n - 1))
    } else {
        None
    }
}

/// The magnitude of a coordinate: see `is_decimal_degrees`.
fn decimal_degrees(
    coordinate: &str,
    limit: i64,
    form_msg: &'static str,
    range_msg: &'static str,
) -> (r: Result<i64, HeliocronError>)
    requires
        coordinate@.len() > 0,
    ensures
        is_decimal_degrees(coordinate@, limit as int, form_msg@, range_msg@, r),
{
    let n: usize = coordinate.unicode_len();
    let body: &str = coordinate.substring_char(0, n - 1);
    proof {
        assert(body@ =~= coordinate@.drop_last());
    }
    match read_decimal(body) {
        None => Err(invalid_coordinates_error(form_msg)),
        Some(reading) => {
            let value: i64 = reading.value;
            if body.get_char(0) != '-' && 0 <= value && value <= limit && !(reading.dropped
                && value == limit) {
                Ok(value)
            } else {
                Err(invalid_coordinates_error(range_msg))
            }
        },
    }
}

pub trait Coordinate: Sized {
    /// The coordinate that the text writes.
    fn from_decimal_degrees(coordinate: &str) -> Result<Self, HeliocronError>;

    /// The compass direction at the end of the text, in lower case.
    fn parse_compass_direction(coordinate: &str) -> Result<char, HeliocronError>;

    /// The magnitude that the text writes before its last character, in
    /// picodegrees.
    fn parse_decimal_degrees(coordinate: &str) -> Result<i64, HeliocronError>
        requires
            coordinate@.len() > 0,
    ;

    /// The sign that a compass direction gives to a magnitude.
    fn compass_correction(compass_direction: char) -> Result<i64, HeliocronError>;
}

/// What `from_decimal_degrees` gives for a latitude.
pub open spec fn is_latitude(coordinate: Seq<char>, r: Result<Latitude, HeliocronError>) -> bool {
    match last_of(coordinate) {
        None => r is Err && invalid_coordinates("No coordinates found"@, r->Err_0),
        Some(c) => if c != 'n' && c != 's' {
            r is Err && invalid_coordinates("Latitude must end with 'N' or 'S'"@, r->Err_0)
        } else {
            match spec_parse_decimal(coordinate.drop_last()) {
                None => r is Err && invalid_coordinates(
                    "Latitude must be a positive value followed by a compass direction ('N' or 'S')"@,
                    r->Err_0,
                ),
                Some(value) => if coordinate[0] != '-' && 0 <= value <= RIGHT_ANGLE && !(
                spec_drops_digits(coordinate.drop_last()) && value == RIGHT_ANGLE) {
                    r is Ok && r->Ok_0.0 == if c == 'n' {
                        value
                    } else {
                        -value
                    }
                } else {
                    r is Err && invalid_coordinates(
                        "Latitude must be a positive value between 0.0 and 90.0"@,
                        r->Err_0,
                    )
                },
            }
        },
    }
}

impl Coordinate for Latitude {
    /// A latitude is a magnitude between 0 and 90 degrees followed by `N`
    /// or `S`, in either case.
    fn from_decimal_degrees(latitude: &str) -> (r: Result<Latitude, HeliocronError>)
        ensures
            is_latitude(latitude@, r),
    {
        if latitude.is_empty() {
            return Err(invalid_coordinates_error("No coordinates found"));
        }
        let compass_direction: char = match Self::parse_compass_direction(latitude) {
            Ok(direction) => direction,
            Err(error) => {
                return Err(error);
            },
        };
        let decimal_degrees: i64 = match Self::parse_decimal_degrees(latitude) {
            Ok(degrees) => degrees,
            Err(error) => {
                return Err(error);
            },
        };
        let compass_correction: i64 = match Self::compass_correction(compass_direction) {
            Ok(correction) => correction,
            Err(error) => {
                return Err(error);
            },
        };

        Ok(Latitude(decimal_degrees * compass_correction))
    }

    fn parse_compass_direction(latitude: &str) -> (r: Result<char, HeliocronError>)
        ensures
            is_compass_direction(
                last_lowercased(latitude@),
                'n',
                's',
                "Latitude must end with 'N' or 'S'"@,
                r,
            ),
    {
        match last_in_lower_case(latitude) {
            None => Err(invalid_coordinates_error("No coordinates found")),
            Some(c) => if c == 'n' || c == 's' {
                Ok(c)
            } else {
                Err(invalid_coordinates_error("Latitude must end with 'N' or 'S'"))
            },
        }
    }

    fn parse_decimal_degrees(latitude: &str) -> (r: Result<i64, HeliocronError>)
        ensures
            is_decimal_degrees(
                latitude@,
                RIGHT_ANGLE as int,
                "Latitude must be a positive value followed by a compass direction ('N' or 'S')"@,
                "Latitude must be a positive value between 0.0 and 90.0"@,
                r,
            ),
    {
        decimal_degrees(
            latitude,
            RIGHT_ANGLE,
            "Latitude must be a positive value followed by a compass direction ('N' or 'S')",
            "Latitude must be a positive value between 0.0 and 90.0",
        )
    }

    fn compass_correction(compass_direction: char) -> (r: Result<i64, HeliocronError>)
        ensures
            compass_direction == 'n' ==> r is Ok && r->Ok_0 == 1,
            compass_direction == 's' ==> r is Ok && r->Ok_0 == -1,
            compass_direction != 'n' && compass_direction != 's' ==> r is Err
                && invalid_coordinates(
                "Latitude must be a positive value followed by a compass direction ('N' or 'S')"@,
                r->Err_0,
            ),
    {
        if compass_direction == 'n' {
            Ok(1)
        } else if compass_direction == 's' {
            Ok(-1)
        } else {
            Err(
                invalid_coordinates_error(
                    "Latitude must be a positive value followed by a compass direction ('N' or 'S')",
                ),
            )
        }
    }
}

/// What `from_decimal_degrees` gives for a longitude.
pub open spec fn is_longitude(coordinate: Seq<char>, r: Result<Longitude, HeliocronError>) -> bool {
    match last_of(coordinate) {
        None => r is Err && invalid_coordinates("No coordinates found"@, r->Err_0),
        Some(c) => if c != 'e' && c != 'w' {
            r is Err && invalid_coordinates("Longitude must end with 'W' or 'E'."@, r->Err_0)
        } else {
            match spec_parse_decimal(coordinate.drop_last()) {
                None => r is Err && invalid_coordinates(
                    "Longitude must be a positive value followed by a compass direction ('W' or 'E')"@,
                    r->Err_0,
                ),
                Some(value) => if coordinate[0] != '-' && 0 <= value <= STRAIGHT_ANGLE && !(
                spec_drops_digits(coordinate.drop_last()) && value == STRAIGHT_ANGLE) {
                    r is Ok && r->Ok_0.0 == if c == 'e' {
                        value
                    } else {
                        -value
                    }
                } else {
                    r is Err && invalid_coordinates(
                        "Longitude must be a positive value between 0.0 and 180.0"@,
                        r->Err_0,
                    )
                },
            }
        },
    }
}

impl Coordinate for Longitude {
    /// A longitude is a magnitude between 0 and 180 degrees followed by `E`
    /// or `W`, in either case.
    fn from_decimal_degrees(longitude: &str) -> (r: Result<Longitude, HeliocronError>)
        ensures
            is_longitude(longitude@, r),
    {
        if longitude.is_empty() {
            return Err(invalid_coordinates_error("No coordinates found"));
        }
        let compass_direction: char = match Self::parse_compass_direction(longitude) {
            Ok(direction) => direction,
            Err(error) => {
                return Err(error);
            },
        };
        let decimal_degrees: i64 = match Self::parse_decimal_degrees(longitude) {
            Ok(degrees) => degrees,
            Err(error) => {
                return Err(error);
            },
        };
        let compass_correction: i64 = match Self::compass_correction(compass_direction) {
            Ok(correction) => correction,
            Err(error) => {
                return Err(error);
            },
        };

        Ok(Longitude(decimal_degrees * compass_correction))
    }

    fn parse_compass_direction(longitude: &str) -> (r: Result<char, HeliocronError>)
        ensures
            is_compass_direction(
                last_lowercased(longitude@),
                'e',
                'w',
                "Longitude must end with 'W' or 'E'."@,
                r,
            ),
    {
        match last_in_lower_case(longitude) {
            None => Err(invalid_coordinates_error("No coordinates found")),
            Some(c) => if c == 'e' || c == 'w' {
                Ok(c)
            } else {
                Err(invalid_coordinates_error("Longitude must end with 'W' or 'E'."))
            },
        }
    }

    fn parse_decimal_degrees(longitude: &str) -> (r: Result<i64, HeliocronError>)
        ensures
            is_decimal_degrees(
                longitude@,
                STRAIGHT_ANGLE as int,
                "Longitude must be a positive value followed by a compass direction ('W' or 'E')"@,
                "Longitude must be a positive value between 0.0 and 180.0"@,
                r,
            ),
    {
        decimal_degrees(
            longitude,
            STRAIGHT_ANGLE,
            "Longitude must be a positive value followed by a compass direction ('W' or 'E')",
            "Longitude must be a positive value between 0.0 and 180.0",
        )
    }

    fn compass_correction(compass_direction: char) -> (r: Result<i64, HeliocronError>)
        ensures
            compass_direction == 'e' ==> r is Ok && r->Ok_0 == 1,
            compass_direction == 'w' ==> r is Ok && r->Ok_0 == -1,
            compass_direction != 'e' && compass_direction != 'w' ==> r is Err
                && invalid_coordinates(
                "Longitude must be a positive value followed by a compass direction ('W' or 'E')"@,
                r->Err_0,
            ),
    {
        if compass_direction == 'e' {
            Ok(1)
        } else if compass_direction == 'w' {
            Ok(-1)
        } else {
            Err(
                invalid_coordinates_error(
                    "Longitude must be a positive value followed by a compass direction ('W' or 'E')",
                ),
            )
        }
    }
}

/// What `from_decimal_degrees` gives for a pair of coordinates: the error
/// of the latitude where it has one, else that of the longitude.
pub open spec fn is_coordinates(
    latitude: Seq<char>,
    longitude: Seq<char>,
    r: Result<Coordinates, HeliocronError>,
) -> bool {
    match r {
        Ok(coordinates) => is_latitude(latitude, Ok(coordinates.latitude)) && is_longitude(
            longitude,
            Ok(coordinates.longitude),
        ),
        Err(error) => is_latitude(latitude, Err(error)) || (exists|lat: Latitude|
            is_latitude(latitude, Ok(lat)) && is_longitude(longitude, Err(error))),
    }
}

impl Coordinates {
    /// The place that the two texts write, such as `51.4769N` and
    /// `0.0005W`.
    pub fn from_decimal_degrees(latitude: &str, longitude: &str) -> (r: Result<
        Coordinates,
        HeliocronError,
    >)
        ensures
            is_coordinates(latitude@, longitude@, r),
    {
        let latitude = match Latitude::from_decimal_degrees(latitude) {
            Ok(latitude) => latitude,
            Err(error) => {
                return Err(error);
            },
        };
        let longitude = match Longitude::from_decimal_degrees(longitude) {
            Ok(longitude) => longitude,
            Err(error) => {
                return Err(error);
            },
        };
        Ok(Coordinates { latitude, longitude })
    }
}

} // verus!
