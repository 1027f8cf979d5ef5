//! The runtime configuration, from defaults, a configuration file and the
//! command line, with coordinates written as text.
//!
//! Reading the file, the arguments and the clock is the caller's part.

use vstd::prelude::*;
use crate::enums::{lowercased, trimmed, Event};
use crate::errors::{ConfigErrorKind, HeliocronError};
use crate::structs::{is_coordinates, Coordinates};
use crate::timestamp::Timestamp;
use crate::units::SECONDS_PER_DAY;

pub use crate::cli::{parse_offset, parse_tz};

verus! {

#[derive(Debug)]
pub struct Cli {
    pub subcommand: Commands,
    pub date_args: DateArgs,
    pub latitude: Option<String>,
    pub longitude: Option<String>,
}

#[derive(Debug)]
pub enum Commands {
    Report { json: bool },
    /// Report whether it is day or night right now.
    Now {
        /// Go by civil dawn and dusk rather than sunrise and sunset.
        civil: bool,
    },
    Wait {
        event_name: String,
        /// Seconds after the event; negative for before.
        offset: i64,
        /// The depression of a custom event, in picodegrees.
        custom_altitude: Option<i64>,
        tag: Option<String>,
        run_missed_task: bool,
    },
}

#[derive(Debug, Clone, Copy)]
pub struct DateArgs {
    /// The local date, in days since 1970-01-01.
    pub date: Option<i64>,
    /// The offset of local time, in seconds east of UTC.
    pub time_zone: Option<i32>,
}

#[derive(Debug)]
pub struct TomlConfig {
    pub latitude: Option<String>,
    pub longitude: Option<String>,
}

impl TomlConfig {
    pub fn new() -> (config: TomlConfig)
        ensures
            config.latitude is None,
            config.longitude is None,
    {
        TomlConfig { latitude: None, longitude: None }
    }

    /// What the file holds where it could be parsed, and nothing where it
    /// could not, whatever the parser reports.
    pub fn from_toml<E>(config: Result<TomlConfig, E>) -> (r: TomlConfig)
        ensures
            config is Ok ==> r == config->Ok_0,
            config is Err ==> r.latitude is None && r.longitude is None,
    {
        match config {
            Ok(conf) => conf,
            _ => TomlConfig::new(),
        }
    }
}

#[derive(Debug, Clone, Copy, PartialEq, Eq, Structural)]
pub enum Action {
    Now { civil: bool },
    Report { json: bool },
    Wait { event: Event, offset: i64, run_missed_task: bool },
}

/// All that a run needs to know.
#[derive(Debug, Clone, Copy)]
pub struct Config {
    pub coordinates: Coordinates,
    pub date: Timestamp,
    pub action: Action,
}

/// What merging a place written as text into a configuration gives: the
/// place as it was where either text is missing, else what the texts write.
pub open spec fn is_merged_place(
    before: Coordinates,
    latitude: Option<String>,
    longitude: Option<String>,
    r: Result<Coordinates, HeliocronError>,
) -> bool {
    if latitude is Some && longitude is Some {
        is_coordinates(latitude->0@, longitude->0@, r)
    } else {
        r == Ok::<Coordinates, HeliocronError>(before)
    }
}

/// The action that a command asks for.
pub open spec fn is_action(subcommand: Commands, r: Result<Action, HeliocronError>) -> bool {
    match subcommand {
        Commands::Wait { event_name, offset, custom_altitude, tag, run_missed_task } => {
            match Event::spec_named(lowercased(trimmed(event_name@)), custom_altitude) {
                Ok(event) => r == Ok::<Action, HeliocronError>(
                    Action::Wait { event, offset, run_missed_task },
                ),
                Err(kind) => r == Err::<Action, HeliocronError>(HeliocronError::Config(kind)),
            }
        },
        Commands::Now { civil } => r == Ok::<Action, HeliocronError>(Action::Now { civil }),
        Commands::Report { json } => r == Ok::<Action, HeliocronError>(Action::Report { json }),
    }
}

/// Seconds since the Unix epoch of noon of the date of the arguments, or of
/// `today` where they give none, at their offset or at `local_offset`.
pub open spec fn noon_of(date_args: DateArgs, today: i64, local_offset: i32) -> int {
    let date = if date_args.date is Some {
        date_args.date->0
    } else {
        today
    };
    date * SECONDS_PER_DAY + SECONDS_PER_DAY / 2 - offset_of(date_args, local_offset)
}

/// The offset of the arguments, or `local_offset` where they give none.
pub open spec fn offset_of(date_args: DateArgs, local_offset: i32) -> int {
    if date_args.time_zone is Some {
        date_args.time_zone->0 as int
    } else {
        local_offset as int
    }
}

impl Config {
    /// What `default_config` returns: the error of the default place where
    /// its text cannot be read, else that of a date beyond the range of
    /// timestamps; and with neither the default place, noon of `today` and
    /// a report for a reader.
    pub open spec fn is_default(today: i64, local_offset: i32, r: Result<Config, HeliocronError>) -> bool {
        let noon = today * SECONDS_PER_DAY + SECONDS_PER_DAY / 2 - local_offset;
        match r {
            Ok(config) => {
                &&& is_coordinates("51.4769N"@, "0.0005W"@, Ok(config.coordinates))
                &&& Timestamp::valid(noon, local_offset as int)
                &&& config.date.utc_seconds() == noon
                &&& config.date.offset_seconds() == local_offset
                &&& config.action == (Action::Report { json: false })
            },
            Err(error) => {
                ||| is_coordinates("51.4769N"@, "0.0005W"@, Err(error))
                ||| (!Timestamp::valid(noon, local_offset as int)
                    && error matches HeliocronError::Config(ConfigErrorKind::ParseDate))
            },
        }
    }

    /// The configuration from which every run starts: the default place,
    /// noon of `today` (in days since 1970-01-01) at `local_offset`, and a
    /// report for a reader.
    pub fn default_config(today: i64, local_offset: i32) -> (r: Result<Config, HeliocronError>)
        ensures
            Config::is_default(today, local_offset, r),
    {
        let coordinates = match Coordinates::from_decimal_degrees("51.4769N", "0.0005W") {
            Ok(coordinates) => coordinates,
            Err(error) => {
                return Err(error);
            },
        };
        let date = match Timestamp::local_noon(today, local_offset) {
            Some(date) => date,
            None => {
                return Err(HeliocronError::Config(ConfigErrorKind::ParseDate));
            },
        };
        Ok(Config { coordinates, date, action: Action::Report { json: false } })
    }

    /// The configuration with what the configuration file holds, if there
    /// is a file that could be read (`file`). A place in the file that is
    /// wrong in any way makes the file invalid.
    pub fn merge_file(self, file: Option<TomlConfig>) -> (r: Result<Config, HeliocronError>)
        ensures
            file is None ==> r is Ok && r->Ok_0.coordinates == self.coordinates,
            file is Some ==> match r {
                Ok(config) => is_merged_place(
                    self.coordinates,
                    file->0.latitude,
                    file->0.longitude,
                    Ok(config.coordinates),
                ),
                Err(error) => error matches HeliocronError::Config(
                    ConfigErrorKind::InvalidTomlFile,
                ) && exists|cause: HeliocronError|
                    is_merged_place(
                        self.coordinates,
                        file->0.latitude,
                        file->0.longitude,
                        Err(cause),
                    ),
            },
            r is Ok ==> r->Ok_0.date == self.date && r->Ok_0.action == self.action,
    {
        match file {
            Some(toml_config) => match self.merge_toml(toml_config) {
                Ok(merged_config) => Ok(merged_config),
                Err(_) => Err(HeliocronError::Config(ConfigErrorKind::InvalidTomlFile)),
            },
            None => Ok(self),
        }
    }

    /// The configuration with the place of the file, where the file holds
    /// both latitude and longitude.
    pub fn merge_toml(self, toml_config: TomlConfig) -> (r: Result<Config, HeliocronError>)
        ensures
            is_merged_place(
                self.coordinates,
                toml_config.latitude,
                toml_config.longitude,
                match r {
                    Ok(config) => Ok(config.coordinates),
                    Err(error) => Err(error),
                },
            ),
            r is Ok ==> r->Ok_0.date == self.date && r->Ok_0.action == self.action,
    {
        let mut merged = self;
        if let (Some(latitude), Some(longitude)) = (toml_config.latitude, toml_config.longitude) {
            merged.coordinates = match Coordinates::from_decimal_degrees(
                latitude.as_str(),
                longitude.as_str(),
            ) {
                Ok(coordinates) => coordinates,
                Err(error) => {
                    return Err(error);
                },
            };
        }
        Ok(merged)
    }

    /// What `merge_cli_args` returns: the error of the place where its text
    /// is wrong, else that of a date beyond the range of timestamps, else
    /// that of the event; and with none of them the place, noon of the
    /// date, and the action of the command.
    pub open spec fn is_merged(
        self,
        cli_args: Cli,
        today: i64,
        local_offset: i32,
        r: Result<Config, HeliocronError>,
    ) -> bool {
        let noon = noon_of(cli_args.date_args, today, local_offset);
        let offset = offset_of(cli_args.date_args, local_offset);
        match r {
            Ok(config) => {
                &&& is_merged_place(
                    self.coordinates,
                    cli_args.latitude,
                    cli_args.longitude,
                    Ok(config.coordinates),
                )
                &&& Timestamp::valid(noon, offset)
                &&& config.date.utc_seconds() == noon
                &&& config.date.offset_seconds() == offset
                &&& is_action(cli_args.subcommand, Ok(config.action))
            },
            Err(error) => {
                ||| is_merged_place(
                    self.coordinates,
                    cli_args.latitude,
                    cli_args.longitude,
                    Err(error),
                )
                ||| (!Timestamp::valid(noon, offset) && error matches HeliocronError::Config(
                    ConfigErrorKind::ParseDate,
                ))
                ||| (Timestamp::valid(noon, offset) && is_action(cli_args.subcommand, Err(error)))
            },
        }
    }

    /// The configuration with what the command line holds: the place where
    /// both latitude and longitude are given, noon of the date, or of
    /// `today` (in days since 1970-01-01) without one, at the given offset,
    /// or at `local_offset` without one, and the action of the command.
    pub fn merge_cli_args(self, cli_args: Cli, today: i64, local_offset: i32) -> (r: Result<
        Config,
        HeliocronError,
    >)
        ensures
            self.is_merged(cli_args, today, local_offset, r),
    {
        let mut merged = self;
        if let (Some(latitude), Some(longitude)) = (cli_args.latitude, cli_args.longitude) {
            merged.coordinates = match Coordinates::from_decimal_degrees(
                latitude.as_str(),
                longitude.as_str(),
            ) {
                Ok(coordinates) => coordinates,
                Err(error) => {
                    return Err(error);
                },
            };
        }
        let date_args = cli_args.date_args;

        let date: i64 = match date_args.date {
            Some(date) => date,
            None => today,
        };

        let time_zone: i32 = match date_args.time_zone {
            Some(time_zone) => time_zone,
            None => local_offset,
        };

        merged.date = match Timestamp::local_noon(date, time_zone) {
            Some(date) => date,
            None => {
                return Err(HeliocronError::Config(ConfigErrorKind::ParseDate));
            },
        };

        merged.action = match cli_args.subcommand {
            Commands::Wait { offset, custom_altitude, event_name, run_missed_task, tag: _ } => {
                let event = match Event::new(event_name.as_str(), custom_altitude) {
                    Ok(event) => event,
                    Err(error) => {
                        return Err(error);
                    },
                };
                Action::Wait { offset, event, run_missed_task }
            },
            Commands::Now { civil } => Action::Now { civil },
            Commands::Report { json } => Action::Report { json },
        };

        Ok(merged)
    }
}

} // verus!
