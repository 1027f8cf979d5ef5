//! Reading events, offsets and altitudes from text.

use vstd::prelude::*;
use crate::decimal::{read_decimal, spec_drops_digits, spec_parse_decimal};
use crate::enums::{lowercased, trimmed, Event};
use crate::errors::{ConfigErrorKind, HeliocronError};
use crate::timestamp::{chrono_parse_time, parsed_time};
use crate::units::{RIGHT_ANGLE, SECONDS_PER_DAY};
use vstd::string::StrSliceExecFns;

verus! {

/// The event that `event` names; see [`Event::new`].
pub fn parse_event(event: &str, custom_altitude: Option<i64>) -> (r: Result<Event, HeliocronError>)
    ensures
        match Event::spec_named(lowercased(trimmed(event@)), custom_altitude) {
            Ok(found) => r == Ok::<Event, HeliocronError>(found),
            Err(kind) => r == Err::<Event, HeliocronError>(HeliocronError::Config(kind)),
        },
{
    Event::new(event, custom_altitude)
}

/// The time that stands for an offset: read with seconds where that
/// succeeds, without them where only that succeeds.
pub open spec fn offset_time(with_seconds: Option<int>, without_seconds: Option<int>) -> Option<
    int,
> {
    if with_seconds is Some {
        with_seconds
    } else {
        without_seconds
    }
}

/// The offset in seconds, given its sign and what reading its time gave in
/// either form.
pub open spec fn spec_offset(
    positive: bool,
    with_seconds: Option<int>,
    without_seconds: Option<int>,
) -> Option<int> {
    match offset_time(with_seconds, without_seconds) {
        Some(seconds) => Some(
            if positive {
                seconds
            } else {
                -seconds
            },
        ),
        None => None,
    }
}

/// The offset in seconds, given its sign and what reading its time gave
/// with seconds and without them; an offset that could be read in neither
/// form is refused.
pub fn offset_from(positive: bool, with_seconds: Option<i64>, without_seconds: Option<i64>) -> (r:
    Result<i64, HeliocronError>)
    requires
        with_seconds is Some ==> with_seconds->0 > i64::MIN,
        without_seconds is Some ==> without_seconds->0 > i64::MIN,
    ensures
        match spec_offset(
            positive,
            match with_seconds {
                Some(seconds) => Some(seconds as int),
                None => None,
            },
            match without_seconds {
                Some(seconds) => Some(seconds as int),
                None => None,
            },
        ) {
            Some(seconds) => r is Ok && r->Ok_0 == seconds,
            None => r == Err::<i64, HeliocronError>(
                HeliocronError::Config(ConfigErrorKind::ParseOffset),
            ),
        },
{
    let time = match with_seconds {
        Some(seconds) => Some(seconds),
        None => without_seconds,
    };
    match time {
        Some(seconds) => if positive {
            Ok(seconds)
        } else {
            Ok(-seconds)
        },
        None => Err(HeliocronError::Config(ConfigErrorKind::ParseOffset)),
    }
}

/// Reads an offset of the form `HH:MM:SS` or `HH:MM`, with a minus sign in
/// front for a negative one, as seconds.
pub fn parse_offset(offset: &str) -> (r: Result<i64, HeliocronError>)
    ensures
        match spec_offset(
            !crate::cli::offset_is_negative(offset@),
            parsed_time(crate::cli::offset_body(offset@), "%H:%M:%S"@),
            parsed_time(crate::cli::offset_body(offset@), "%H:%M"@),
        ) {
            Some(seconds) => r is Ok && r->Ok_0 == seconds,
            None => r == Err::<i64, HeliocronError>(
                HeliocronError::Config(ConfigErrorKind::ParseOffset),
            ),
        },
        r is Ok ==> -SECONDS_PER_DAY <= r->Ok_0 <= SECONDS_PER_DAY,
{
    let length: usize = offset.unicode_len();
    let negative: bool = length > 0 && offset.get_char(0) == '-';
    let body: &str = if negative {
        offset.substring_char(1, length)
    } else {
        offset
    };
    let with_seconds: Option<i64> = match chrono_parse_time(body, "%H:%M:%S") {
        Ok(seconds) => Some(seconds),
        Err(_) => None,
    };
    let without_seconds: Option<i64> = match chrono_parse_time(body, "%H:%M") {
        Ok(seconds) => Some(seconds),
        Err(_) => None,
    };
    offset_from(!negative, with_seconds, without_seconds)
}

/// The altitude that a text writes, in picodegrees, where it writes a
/// number between -90 and 90 degrees. What the text holds beyond the twelfth
/// decimal place is dropped, but not where that would bring a number beyond
/// a right angle back to it.
pub open spec fn spec_parse_altitude(altitude: Seq<char>) -> Option<int> {
    match spec_parse_decimal(altitude) {
        Some(value) => if spec_drops_digits(altitude) && (value == RIGHT_ANGLE || value
            == -RIGHT_ANGLE) {
            None
        } else if -RIGHT_ANGLE <= value <= RIGHT_ANGLE {
            Some(value)
        } else {
            None
        },
        None => None,
    }
}

/// Reads an altitude between -90 and 90 degrees, in picodegrees.
pub fn parse_altitude(altitude: String) -> (r: Result<i64, HeliocronError>)
    ensures
        match spec_parse_altitude(altitude@) {
            Some(value) => r is Ok && r->Ok_0 == value,
            None => r == Err::<i64, HeliocronError>(
                HeliocronError::Config(ConfigErrorKind::ParseAltitude),
            ),
        },
{
    let reading = match read_decimal(altitude.as_str()) {
        Some(reading) => reading,
        None => {
            return Err(HeliocronError::Config(ConfigErrorKind::ParseAltitude));
        },
    };
    let altitude: i64 = reading.value;

    if reading.dropped && (altitude == RIGHT_ANGLE || altitude == -RIGHT_ANGLE) {
        Err(HeliocronError::Config(ConfigErrorKind::ParseAltitude))
    } else if -RIGHT_ANGLE <= altitude && altitude <= RIGHT_ANGLE {
        Ok(altitude)
    } else {
        Err(HeliocronError::Config(ConfigErrorKind::ParseAltitude))
    }
}

} // verus!
