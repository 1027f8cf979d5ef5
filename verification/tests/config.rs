use heliocron::config::{Action, Cli, Commands, Config, DateArgs, TomlConfig};
use heliocron::enums::{Event, TimeOfDay};
use heliocron::errors::{ConfigErrorKind, HeliocronError};
use heliocron::structs::{Coordinates, Latitude, Longitude};

const TODAY: i64 = 18346;

fn args(latitude: Option<&str>, longitude: Option<&str>, subcommand: Commands) -> Cli {
    Cli {
        subcommand,
        date_args: DateArgs { date: None, time_zone: None },
        latitude: latitude.map(str::to_string),
        longitude: longitude.map(str::to_string),
    }
}

fn file(latitude: Option<&str>, longitude: Option<&str>) -> TomlConfig {
    TomlConfig {
        latitude: latitude.map(str::to_string),
        longitude: longitude.map(str::to_string),
    }
}

fn greenwich() -> Coordinates {
    Coordinates {
        latitude: Latitude(51_476_900_000_000),
        longitude: Longitude(-500_000_000),
    }
}

#[test]
fn every_run_starts_from_greenwich_at_noon_of_today() {
    let config = Config::default_config(TODAY, 3600).unwrap();
    assert_eq!(config.coordinates, greenwich());
    assert_eq!(config.date.to_rfc3339(), "2020-03-25T12:00:00+01:00");
    assert_eq!(config.action, Action::Report { json: false });
    assert!(matches!(
        Config::default_config(TODAY, 86_400),
        Err(HeliocronError::Config(ConfigErrorKind::ParseDate))
    ));
}

#[test]
fn a_file_gives_the_place_where_it_holds_both_coordinates() {
    let start = Config::default_config(TODAY, 0).unwrap();
    let merged = start.merge_toml(file(Some("10.5N"), Some("20.25W"))).unwrap();
    assert_eq!(merged.coordinates.latitude, Latitude(10_500_000_000_000));
    assert_eq!(merged.coordinates.longitude, Longitude(-20_250_000_000_000));
    assert_eq!(merged.date, start.date);
    assert_eq!(merged.action, start.action);

    let merged = start.merge_toml(file(Some("10.5N"), None)).unwrap();
    assert_eq!(merged.coordinates, greenwich());
    let merged = start.merge_toml(TomlConfig::new()).unwrap();
    assert_eq!(merged.coordinates, greenwich());

    assert!(matches!(
        start.merge_toml(file(Some("10.5"), Some("20.25W"))),
        Err(HeliocronError::Config(ConfigErrorKind::InvalidCoordindates(
            "Latitude must end with 'N' or 'S'"
        )))
    ));
}

#[test]
fn a_file_with_a_wrong_place_is_an_invalid_file() {
    let start = Config::default_config(TODAY, 0).unwrap();
    assert!(matches!(
        start.merge_file(Some(file(Some("10.5"), Some("20.25W")))),
        Err(HeliocronError::Config(ConfigErrorKind::InvalidTomlFile))
    ));
    let merged = start.merge_file(Some(file(Some("10.5S"), Some("20.25E")))).unwrap();
    assert_eq!(merged.coordinates.latitude, Latitude(-10_500_000_000_000));
    assert_eq!(merged.coordinates.longitude, Longitude(20_250_000_000_000));
    let merged = start.merge_file(None).unwrap();
    assert_eq!(merged.coordinates, greenwich());
}

#[test]
fn a_file_that_cannot_be_parsed_holds_nothing() {
    let parsed: Result<TomlConfig, String> = Err("expected an equals".to_string());
    let config = TomlConfig::from_toml(parsed);
    assert!(config.latitude.is_none() && config.longitude.is_none());
    let parsed: Result<TomlConfig, String> = Ok(file(Some("10.5N"), None));
    let config = TomlConfig::from_toml(parsed);
    assert_eq!(config.latitude.as_deref(), Some("10.5N"));
    assert!(config.longitude.is_none());
}

#[test]
fn the_command_line_is_merged_last() {
    let start = Config::default_config(TODAY, 0).unwrap();
    let merged = start
        .merge_cli_args(
            args(Some("51.0N"), Some("4.36E"), Commands::Now { civil: true }),
            TODAY,
            3600,
        )
        .unwrap();
    assert_eq!(merged.coordinates.latitude, Latitude(51_000_000_000_000));
    assert_eq!(merged.coordinates.longitude, Longitude(4_360_000_000_000));
    assert_eq!(merged.date.to_rfc3339(), "2020-03-25T12:00:00+01:00");
    assert_eq!(merged.action, Action::Now { civil: true });

    let mut dated = args(None, None, Commands::Report { json: true });
    dated.date_args = DateArgs { date: Some(0), time_zone: Some(-18_000) };
    let merged = start.merge_cli_args(dated, TODAY, 3600).unwrap();
    assert_eq!(merged.coordinates, greenwich());
    assert_eq!(merged.date.to_rfc3339(), "1970-01-01T12:00:00-05:00");
    assert_eq!(merged.action, Action::Report { json: true });
}

#[test]
fn a_wait_on_the_command_line_names_its_event() {
    let start = Config::default_config(TODAY, 0).unwrap();
    let wait = |event_name: &str, custom_altitude: Option<i64>| Commands::Wait {
        event_name: event_name.to_string(),
        offset: 90,
        custom_altitude,
        tag: None,
        run_missed_task: false,
    };
    let merged = start
        .merge_cli_args(args(None, None, wait(" Civil_Dusk", None)), TODAY, 0)
        .unwrap();
    assert_eq!(
        merged.action,
        Action::Wait {
            event: Event::CivilDusk {
                degrees_below_horizon: 6_000_000_000_000,
                time_of_day: TimeOfDay::PM
            },
            offset: 90,
            run_missed_task: false
        }
    );
    let merged = start
        .merge_cli_args(
            args(None, None, wait("custom_am", Some(-6_300_000_000_000))),
            TODAY,
            0,
        )
        .unwrap();
    assert_eq!(
        merged.action,
        Action::Wait {
            event: Event::CustomAM {
                degrees_below_horizon: -6_300_000_000_000,
                time_of_day: TimeOfDay::AM
            },
            offset: 90,
            run_missed_task: false
        }
    );
    assert!(matches!(
        start.merge_cli_args(args(None, None, wait("teatime", None)), TODAY, 0),
        Err(HeliocronError::Config(ConfigErrorKind::InvalidEvent))
    ));
    assert!(matches!(
        start.merge_cli_args(args(Some("51.0"), Some("4.36E"), wait("teatime", None)), TODAY, 0),
        Err(HeliocronError::Config(ConfigErrorKind::InvalidCoordindates(_)))
    ));
    assert!(matches!(
        start.merge_cli_args(args(None, None, wait("teatime", None)), i64::MAX, 0),
        Err(HeliocronError::Config(ConfigErrorKind::ParseDate))
    ));
}
