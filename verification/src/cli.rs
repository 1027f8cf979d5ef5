//! From what the command line and the configuration file hold to one
//! runtime configuration.
//!
//! Reading the arguments and the file is the caller's part; what they mean
//! is decided here.

use vstd::prelude::*;
use vstd::string::{StrSliceExecFns, StringExecFns};
use crate::domain::{Altitude, Coordinates, Event, EventName, Latitude, Longitude, RawEventName};
use crate::errors::{ConfigErrorKind, HeliocronError};
use crate::text::join3;
use crate::timestamp::{
    chrono_parse_date, chrono_parse_offset, chrono_parse_time, parsed_date, parsed_offset,
    parsed_time, Timestamp, EPOCH_DAY, MAX_OFFSET,
};
use crate::units::SECONDS_PER_DAY;

verus! {

/// What a caller has put on the command line, each value already read from
/// its text.
#[derive(Debug)]
pub struct Cli {
    /// The local date of the calculations, in days since 1970-01-01.
    pub date: i64,
    /// The offset of local time, in seconds east of UTC.
    pub time_zone: i32,
    pub latitude: Option<Latitude>,
    pub longitude: Option<Longitude>,
    pub subcommand: Command,
}

#[derive(Debug)]
pub enum Command {
    /// Produce the times of all events of the day.
    Report {
        /// Whether the report is meant for a machine.
        json: bool,
    },
    /// Wait until an event, or so many seconds before or after it.
    Wait {
        event_name: RawEventName,
        /// Seconds after the event; negative for before.
        offset: i64,
        custom_altitude: Option<Altitude>,
        tag: Option<String>,
        run_missed_task: bool,
    },
}

#[derive(Clone, Copy, Debug, PartialEq, Eq, Structural)]
pub enum Action {
    Report { json: bool },
    Wait { event: Event, offset: i64, run_missed_task: bool },
}

/// All that a run needs to know.
#[derive(Clone, Copy, Debug)]
pub struct Config {
    pub coordinates: Coordinates,
    pub date: Timestamp,
    pub action: Action,
}

/// What is reported for an offset that cannot be read.
pub open spec fn offset_message() -> Seq<char> {
    "Expected an offset in the format '[-]HH:MM' or '[-]HH:MM:SS'"@
}

/// Whether an offset is written with a minus sign in front.
pub open spec fn offset_is_negative(offset: Seq<char>) -> bool {
    offset.len() > 0 && offset[0] == '-'
}

/// An offset without its minus sign.
pub open spec fn offset_body(offset: Seq<char>) -> Seq<char> {
    if offset_is_negative(offset) {
        offset.subrange(1, offset.len() as int)
    } else {
        offset
    }
}

/// The pattern by which the time of an offset is read: without seconds
/// where the text takes five bytes, with seconds otherwise.
pub open spec fn offset_pattern(body: Seq<char>) -> Seq<char> {
    if vstd::utf8::encode_utf8(body).len() as usize == 5 {
        "%H:%M"@
    } else {
        "%H:%M:%S"@
    }
}

/// The offset in seconds for the time read from the text, with its sign.
pub open spec fn spec_signed_offset(positive: bool, time: Option<int>) -> Result<int, Seq<char>> {
    match time {
        Some(seconds) => Ok(
            if positive {
                seconds
            } else {
                -seconds
            },
        ),
        None => Err(offset_message()),
    }
}

/// The offset in seconds for the time read from the text, if one was read,
/// with its sign.
pub fn signed_offset(positive: bool, time: Option<i64>) -> (r: Result<i64, String>)
    requires
        time is Some ==> time->0 > i64::MIN,
    ensures
        match spec_signed_offset(
            positive,
            match time {
                Some(seconds) => Some(seconds as int),
                None => None,
            },
        ) {
            Ok(seconds) => r is Ok && r->Ok_0 == seconds,
            Err(message) => r is Err && r->Err_0@ == message,
        },
{
    match time {
        Some(seconds) => if positive {
            Ok(seconds)
        } else {
            Ok(-seconds)
        },
        None => Err(
            String::from_str("Expected an offset in the format '[-]HH:MM' or '[-]HH:MM:SS'"),
        ),
    }
}

/// Reads an offset of the form `HH:MM:SS` or `HH:MM`, with a minus sign in
/// front for a negative one, as seconds.
pub fn parse_offset(offset: &str) -> (r: Result<i64, String>)
    ensures
        match spec_signed_offset(
            !offset_is_negative(offset@),
            parsed_time(offset_body(offset@), offset_pattern(offset_body(offset@))),
        ) {
            Ok(seconds) => r is Ok && r->Ok_0 == seconds,
            Err(message) => r is Err && r->Err_0@ == message,
        },
        r is Ok ==> -SECONDS_PER_DAY <= r->Ok_0 <= SECONDS_PER_DAY,
{
    let length: usize = offset.unicode_len();
    let negative: bool = length > 0 && offset.get_char(0) == '-';
    let body: &str = if negative {
        offset.substring_char(1, length)
    } else {
        offset
    };
    let pattern: &str = if body.len() == 5 {
        "%H:%M"
    } else {
        "%H:%M:%S"
    };
    let time: Option<i64> = match chrono_parse_time(body, pattern) {
        Ok(seconds) => Some(seconds),
        Err(_) => None,
    };
    signed_offset(!negative, time)
}

/// What is reported for a date that cannot be read.
pub open spec fn date_message(date: Seq<char>) -> Seq<char> {
    "Invalid date - must be in the format 'yyyy-mm-dd'. Found '"@ + date + "'"@
}

/// Reads a date of the form `yyyy-mm-dd` as days since 1970-01-01.
pub fn parse_date(date: &str) -> (r: Result<i64, String>)
    ensures
        match parsed_date(date@, "%Y-%m-%d"@) {
            Some(day) => r is Ok && r->Ok_0 == day - EPOCH_DAY,
            None => r is Err && r->Err_0@ == date_message(date@),
        },
{
    match chrono_parse_date(date, "%Y-%m-%d") {
        Ok(day) => Ok(day as i64 - EPOCH_DAY),
        Err(_) => Err(
            join3("Invalid date - must be in the format 'yyyy-mm-dd'. Found '", date, "'"),
        ),
    }
}

/// What is reported for a time zone that cannot be read.
pub open spec fn time_zone_message(tz: Seq<char>) -> Seq<char> {
    "Invalid time zone - expected the format '[+|-]HH:MM' between '-23:59' and '+23:59'. Found '"@
        + tz + "'"@
}

/// Reads a time zone of the form `+HH:MM` or `-HH:MM` as seconds east of
/// UTC, by reading it as the offset of a date and time.
pub fn parse_tz(tz: &str) -> (r: Result<i32, String>)
    ensures
        match parsed_offset("2022-01-01T00:00:00"@ + tz@, "%FT%T%:z"@) {
            Some(offset) => r is Ok && r->Ok_0 == offset,
            None => r is Err && r->Err_0@ == time_zone_message(tz@),
        },
        r is Ok ==> -MAX_OFFSET <= r->Ok_0 <= MAX_OFFSET,
{
    let text = String::from_str("2022-01-01T00:00:00").concat(tz);
    match chrono_parse_offset(text.as_str(), "%FT%T%:z") {
        Ok(offset) => Ok(offset),
        Err(_) => Err(
            join3(
                "Invalid time zone - expected the format '[+|-]HH:MM' between '-23:59' and '+23:59'. Found '",
                tz,
                "'",
            ),
        ),
    }
}

/// What `parse_local_config` returns for the two values of a configuration
/// file, each in picodegrees where the file holds it.
pub open spec fn is_local_config(
    latitude: Option<i64>,
    longitude: Option<i64>,
    r: Result<Coordinates, String>,
) -> bool {
    match (latitude, longitude) {
        (Some(lat), Some(lon)) => if !Latitude::valid(lat as int) {
            r is Err && r->Err_0@ == Latitude::message(crate::decimal::decimal_text(lat as int))
        } else if !Longitude::valid(lon as int) {
            r is Err && r->Err_0@ == Longitude::range_message(
                crate::decimal::decimal_text(lon as int),
            )
        } else {
            r is Ok && r->Ok_0.latitude@ == lat && r->Ok_0.longitude@ == lon
        },
        (Some(_), None) => r is Err && r->Err_0@ == "Missing longitude"@,
        (None, Some(_)) => r is Err && r->Err_0@ == "Missing latitude"@,
        (None, None) => r is Err && r->Err_0@ == "Missing latitude and longitude"@,
    }
}

/// The coordinates of a configuration file, given the latitude and the
/// longitude that the file holds, in picodegrees. Both must be there and in
/// range.
pub fn parse_local_config(latitude: Option<i64>, longitude: Option<i64>) -> (r: Result<
    Coordinates,
    String,
>)
    ensures
        is_local_config(latitude, longitude, r),
{
    match (latitude, longitude) {
        (Some(lat), Some(lon)) => {
            match Latitude::new(lat) {
                Ok(lat) => match Longitude::new(lon) {
                    Ok(lon) => Ok(Coordinates::new(lat, lon)),
                    Err(message) => Err(message),
                },
                Err(message) => Err(message),
            }
        },
        (Some(_lat), None) => Err(String::from_str("Missing longitude")),
        (None, Some(_lon)) => Err(String::from_str("Missing latitude")),
        (None, None) => Err(String::from_str("Missing latitude and longitude")),
    }
}

/// The latitude that is taken where none is given: 51.4769 degrees north.
pub const DEFAULT_LATITUDE: i64 = 51_476_900_000_000;

/// The longitude that is taken where none is given: 0.0005 degrees west.
pub const DEFAULT_LONGITUDE: i64 = -500_000_000;

/// The place that is taken where none is given.
pub fn default_coordinates() -> (coordinates: Coordinates)
    ensures
        coordinates.latitude@ == DEFAULT_LATITUDE,
        coordinates.longitude@ == DEFAULT_LONGITUDE,
{
    Coordinates::new(
        Latitude::new(DEFAULT_LATITUDE).unwrap(),
        Longitude::new(DEFAULT_LONGITUDE).unwrap(),
    )
}

/// Whether `coordinates` is the place of a run: that of the command line
/// where it gives both latitude and longitude, failing that the place of
/// the configuration file where one was read, and the default otherwise.
pub open spec fn is_place(
    latitude: Option<Latitude>,
    longitude: Option<Longitude>,
    local_config: Option<Result<Coordinates, String>>,
    coordinates: Coordinates,
) -> bool {
    if latitude is Some && longitude is Some {
        coordinates == (Coordinates { latitude: latitude->0, longitude: longitude->0 })
    } else if local_config is Some && local_config->0 is Ok {
        coordinates == local_config->0->Ok_0
    } else {
        coordinates.latitude@ == DEFAULT_LATITUDE && coordinates.longitude@ == DEFAULT_LONGITUDE
    }
}

/// Whether `action` is what the command asks for; `None` where a custom
/// event comes without its altitude.
pub open spec fn is_action(subcommand: Command, action: Option<Action>) -> bool {
    match subcommand {
        Command::Report { json } => action == Some(Action::Report { json }),
        Command::Wait { event_name, offset, custom_altitude, tag, run_missed_task } => {
            match EventName::spec_from_raw(event_name, custom_altitude) {
                Some(name) => action == Some(
                    Action::Wait { event: Event::event_of(name), offset, run_missed_task },
                ),
                None => action is None,
            }
        },
    }
}

/// What `parse_config` returns.
pub open spec fn is_config(
    cli_args: Cli,
    local_config: Option<Result<Coordinates, String>>,
    r: Result<Config, HeliocronError>,
) -> bool {
    let noon = cli_args.date * SECONDS_PER_DAY + SECONDS_PER_DAY / 2 - cli_args.time_zone;
    if !Timestamp::valid(noon, cli_args.time_zone as int) {
        r matches Err(HeliocronError::Config(ConfigErrorKind::ParseDate))
    } else if is_action(cli_args.subcommand, None) {
        r matches Err(HeliocronError::Config(ConfigErrorKind::InvalidEvent))
    } else {
        &&& r matches Ok(config)
        &&& is_place(cli_args.latitude, cli_args.longitude, local_config, config.coordinates)
        &&& config.date.utc_seconds() == noon
        &&& config.date.offset_seconds() == cli_args.time_zone
        &&& is_action(cli_args.subcommand, Some(config.action))
    }
}

/// Brings all sources of configuration into one. The place given on the
/// command line goes before that of the configuration file (`local_config`:
/// what reading the file gave, if there is a file), which goes before the
/// default. The calculations are made for noon of the date at the given
/// offset. A date beyond the range of timestamps is refused, and so is a
/// custom event without an altitude.
pub fn parse_config(cli_args: Cli, local_config: Option<Result<Coordinates, String>>) -> (r: Result<
    Config,
    HeliocronError,
>)
    ensures
        is_config(cli_args, local_config, r),
{
    let coordinates = match (cli_args.latitude, cli_args.longitude) {
        (Some(lat), Some(lon)) => Coordinates::new(lat, lon),
        _ => match local_config {
            Some(Ok(coords)) => coords,
            _ => default_coordinates(),
        },
    };

    let date = match Timestamp::local_noon(cli_args.date, cli_args.time_zone) {
        Some(date) => date,
        None => {
            return Err(HeliocronError::Config(ConfigErrorKind::ParseDate));
        },
    };

    let action = match cli_args.subcommand {
        Command::Report { json } => Action::Report { json },
        Command::Wait { event_name, offset, run_missed_task, custom_altitude, tag: _ } => {
            let event = match EventName::from_raw(event_name, custom_altitude) {
                Some(event) => event,
                None => {
                    return Err(HeliocronError::Config(ConfigErrorKind::InvalidEvent));
                },
            };
            let event = Event::from_event_name(event);
            Action::Wait { event, offset, run_missed_task }
        },
    };

    Ok(Config { coordinates, date, action })
}

} // verus!
