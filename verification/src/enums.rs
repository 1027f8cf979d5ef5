//! Events by name, each with its elevation and its half of the day.

use vstd::prelude::*;
use crate::errors::{ConfigErrorKind, HeliocronError};
use crate::text::same_text;
use crate::units::{
    ASTRONOMICAL_DEPRESSION, CIVIL_DEPRESSION, NAUTICAL_DEPRESSION, SUNRISE_DEPRESSION,
};

verus! {

/// The text without the white space at its two ends, as `str::trim` returns
/// it.
pub uninterp spec fn trimmed(text: Seq<char>) -> Seq<char>;

/// The text in lower case, as `str::to_lowercase` returns it.
pub uninterp spec fn lowercased(text: Seq<char>) -> Seq<char>;

/// `str::trim` returns the text without leading and trailing white space,
/// as Unicode defines it. The contract only names the result.
pub assume_specification[ str::trim ](text: &str) -> (r: &str)
    ensures
        r@ == trimmed(text@),
;

/// `str::to_lowercase` returns the lower case equivalent of the text as a
/// new string, as Unicode defines it. The contract only names the result.
pub assume_specification[ str::to_lowercase ](text: &str) -> (r: String)
    ensures
        r@ == lowercased(text@),
;

#[derive(Debug, PartialEq, Clone, Copy, Eq, Structural)]
pub enum TimeOfDay {
    AM,
    PM,
}

/// An event with the depression of the sun at which it occurs, in
/// picodegrees, and the half of the day in which it occurs.
#[derive(Debug, PartialEq, Clone, Copy, Eq, Structural)]
pub enum Event {
    Sunrise { degrees_below_horizon: i64, time_of_day: TimeOfDay },
    Sunset { degrees_below_horizon: i64, time_of_day: TimeOfDay },
    CivilDawn { degrees_below_horizon: i64, time_of_day: TimeOfDay },
    CivilDusk { degrees_below_horizon: i64, time_of_day: TimeOfDay },
    NauticalDawn { degrees_below_horizon: i64, time_of_day: TimeOfDay },
    NauticalDusk { degrees_below_horizon: i64, time_of_day: TimeOfDay },
    AstronomicalDawn { degrees_below_horizon: i64, time_of_day: TimeOfDay },
    AstronomicalDusk { degrees_below_horizon: i64, time_of_day: TimeOfDay },
    CustomAM { degrees_below_horizon: i64, time_of_day: TimeOfDay },
    CustomPM { degrees_below_horizon: i64, time_of_day: TimeOfDay },
    SolarNoon,
}

impl Event {
    /// The event of a name that is already trimmed and in lower case. A
    /// custom event takes its depression from `custom_altitude` and is
    /// refused without one; the other events ignore it. Any other text is
    /// refused.
    pub open spec fn spec_named(name: Seq<char>, custom_altitude: Option<i64>) -> Result<
        Event,
        ConfigErrorKind,
    > {
        if name == "sunrise"@ {
            Ok(Event::Sunrise { degrees_below_horizon: SUNRISE_DEPRESSION, time_of_day: TimeOfDay::AM })
        } else if name == "sunset"@ {
            Ok(Event::Sunset { degrees_below_horizon: SUNRISE_DEPRESSION, time_of_day: TimeOfDay::PM })
        } else if name == "civil_dawn"@ {
            Ok(Event::CivilDawn { degrees_below_horizon: CIVIL_DEPRESSION, time_of_day: TimeOfDay::AM })
        } else if name == "civil_dusk"@ {
            Ok(Event::CivilDusk { degrees_below_horizon: CIVIL_DEPRESSION, time_of_day: TimeOfDay::PM })
        } else if name == "nautical_dawn"@ {
            Ok(Event::NauticalDawn { degrees_below_horizon: NAUTICAL_DEPRESSION, time_of_day: TimeOfDay::AM })
        } else if name == "nautical_dusk"@ {
            Ok(Event::NauticalDusk { degrees_below_horizon: NAUTICAL_DEPRESSION, time_of_day: TimeOfDay::PM })
        } else if name == "astronomical_dawn"@ {
            Ok(Event::AstronomicalDawn { degrees_below_horizon: ASTRONOMICAL_DEPRESSION, time_of_day: TimeOfDay::AM })
        } else if name == "astronomical_dusk"@ {
            Ok(Event::AstronomicalDusk { degrees_below_horizon: ASTRONOMICAL_DEPRESSION, time_of_day: TimeOfDay::PM })
        } else if name == "custom_am"@ {
            match custom_altitude {
                Some(altitude) => Ok(
                    Event::CustomAM { degrees_below_horizon: altitude, time_of_day: TimeOfDay::AM },
                ),
                None => Err(ConfigErrorKind::InvalidEvent),
            }
        } else if name == "custom_pm"@ {
            match custom_altitude {
                Some(altitude) => Ok(
                    Event::CustomPM { degrees_below_horizon: altitude, time_of_day: TimeOfDay::PM },
                ),
                None => Err(ConfigErrorKind::InvalidEvent),
            }
        } else if name == "solar_noon"@ {
            Ok(Event::SolarNoon)
        } else {
            Err(ConfigErrorKind::InvalidEvent)
        }
    }

    /// The event of a name that is already trimmed and in lower case.
    pub fn named(name: &str, custom_altitude: Option<i64>) -> (r: Result<Event, ConfigErrorKind>)
        ensures
            r == Event::spec_named(name@, custom_altitude),
    {
        if same_text(name, "sunrise") {
            Ok(Event::Sunrise { degrees_below_horizon: SUNRISE_DEPRESSION, time_of_day: TimeOfDay::AM })
        } else if same_text(name, "sunset") {
            Ok(Event::Sunset { degrees_below_horizon: SUNRISE_DEPRESSION, time_of_day: TimeOfDay::PM })
        } else if same_text(name, "civil_dawn") {
            Ok(Event::CivilDawn { degrees_below_horizon: CIVIL_DEPRESSION, time_of_day: TimeOfDay::AM })
        } else if same_text(name, "civil_dusk") {
            Ok(Event::CivilDusk { degrees_below_horizon: CIVIL_DEPRESSION, time_of_day: TimeOfDay::PM })
        } else if same_text(name, "nautical_dawn") {
            Ok(Event::NauticalDawn { degrees_below_horizon: NAUTICAL_DEPRESSION, time_of_day: TimeOfDay::AM })
        } else if same_text(name, "nautical_dusk") {
            Ok(Event::NauticalDusk { degrees_below_horizon: NAUTICAL_DEPRESSION, time_of_day: TimeOfDay::PM })
        } else if same_text(name, "astronomical_dawn") {
            Ok(Event::AstronomicalDawn { degrees_below_horizon: ASTRONOMICAL_DEPRESSION, time_of_day: TimeOfDay::AM })
        } else if same_text(name, "astronomical_dusk") {
            Ok(Event::AstronomicalDusk { degrees_below_horizon: ASTRONOMICAL_DEPRESSION, time_of_day: TimeOfDay::PM })
        } else if same_text(name, "custom_am") {
            match custom_altitude {
                Some(altitude) => Ok(
                    Event::CustomAM { degrees_below_horizon: altitude, time_of_day: TimeOfDay::AM },
                ),
                None => Err(ConfigErrorKind::InvalidEvent),
            }
        } else if same_text(name, "custom_pm") {
            match custom_altitude {
                Some(altitude) => Ok(
                    Event::CustomPM { degrees_below_horizon: altitude, time_of_day: TimeOfDay::PM },
                ),
                None => Err(ConfigErrorKind::InvalidEvent),
            }
        } else if same_text(name, "solar_noon") {
            Ok(Event::SolarNoon)
        } else {
            Err(ConfigErrorKind::InvalidEvent)
        }
    }

    /// The event that `event` names, whatever its case and the white space
    /// around it. A custom event takes its depression, in picodegrees, from
    /// `custom_altitude` and is refused without one; the other events ignore
    /// it. A text that names no event is refused.
    pub fn new(event: &str, custom_altitude: Option<i64>) -> (r: Result<Event, HeliocronError>)
        ensures
            match Event::spec_named(lowercased(trimmed(event@)), custom_altitude) {
                Ok(found) => r == Ok::<Event, HeliocronError>(found),
                Err(kind) => r == Err::<Event, HeliocronError>(HeliocronError::Config(kind)),
            },
    {
        let event = event.trim().to_lowercase();
        match Event::named(event.as_str(), custom_altitude) {
            Ok(found) => Ok(found),
            Err(kind) => Err(HeliocronError::Config(kind)),
        }
    }
}

} // verus!
