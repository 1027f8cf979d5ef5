//! The vocabulary of the library: coordinates, solar events and parts of the day.

use vstd::prelude::*;
use crate::decimal::{
    decimal_text, format_decimal, read_decimal, spec_drops_digits, spec_parse_decimal,
};
use crate::text::{join3, same_text};
use crate::timestamp::{clock_text, display_of, rfc3339_of, ClockTime, Timestamp};
use vstd::string::StringExecFns;
use crate::units::{
    ASTRONOMICAL_DEPRESSION, CIVIL_DEPRESSION, NAUTICAL_DEPRESSION, RIGHT_ANGLE, STRAIGHT_ANGLE,
    SUNRISE_DEPRESSION,
};

verus! {

/// The parts of a day, by the sun's elevation. Not all of them occur in
/// every 24-hour period.
#[derive(Clone, Copy, Debug, PartialEq, Eq, Structural)]
pub enum DayPart {
    Day,
    CivilTwilight,
    NauticalTwilight,
    AstronomicalTwilight,
    Night,
}

impl DayPart {
    /// The part of the day in which the sun stands at `angle` picodegrees
    /// above the horizon.
    pub open spec fn spec_from_elevation_angle(angle: int) -> DayPart {
        if angle < -ASTRONOMICAL_DEPRESSION {
            DayPart::Night
        } else if angle < -NAUTICAL_DEPRESSION {
            DayPart::AstronomicalTwilight
        } else if angle < -CIVIL_DEPRESSION {
            DayPart::NauticalTwilight
        } else if angle < SUNRISE_DEPRESSION {
            DayPart::CivilTwilight
        } else {
            DayPart::Day
        }
    }

    /// The name of the part of the day for a reader.
    pub open spec fn spec_text(self) -> Seq<char> {
        match self {
            DayPart::Day => "Day"@,
            DayPart::CivilTwilight => "Civil Twilight"@,
            DayPart::NauticalTwilight => "Nautical Twilight"@,
            DayPart::AstronomicalTwilight => "Astronomical Twilight"@,
            DayPart::Night => "Night"@,
        }
    }

    /// The name of the part of the day for a reader.
    pub fn to_text(&self) -> (text: &'static str)
        ensures
            text@ == self.spec_text(),
    {
        match self {
            DayPart::Day => "Day",
            DayPart::CivilTwilight => "Civil Twilight",
            DayPart::NauticalTwilight => "Nautical Twilight",
            DayPart::AstronomicalTwilight => "Astronomical Twilight",
            DayPart::Night => "Night",
        }
    }

    /// Classifies an elevation angle, given in picodegrees above the horizon.
    pub fn from_elevation_angle(angle: i64) -> (part: DayPart)
        ensures
            part == DayPart::spec_from_elevation_angle(angle as int),
    {
        if angle < -ASTRONOMICAL_DEPRESSION {
            DayPart::Night
        } else if angle < -NAUTICAL_DEPRESSION {
            DayPart::AstronomicalTwilight
        } else if angle < -CIVIL_DEPRESSION {
            DayPart::NauticalTwilight
        } else if angle < SUNRISE_DEPRESSION {
            DayPart::CivilTwilight
        } else {
            DayPart::Day
        }
    }
}

/// What a run is asked to do.
#[derive(Clone, Copy, Debug, PartialEq, Eq, Structural)]
pub enum Action {
    /// Report the times of all events of the day.
    Report { json: bool },
    /// Wait until `offset` seconds after an event; before it, if negative.
    Wait { event: Event, offset: i64, run_missed_task: bool },
    /// Report the part of the day that it is now, once or again and again.
    Poll { watch: bool, json: bool },
}

/// The time of an event, or nothing where the event does not occur on the
/// day and at the place in question.
#[derive(Clone, Copy, Debug, PartialEq, Eq, Structural)]
pub struct EventTime(pub Option<Timestamp>);

impl EventTime {
    pub fn new(datetime: Option<Timestamp>) -> (event_time: Self)
        ensures
            event_time.0 == datetime,
    {
        Self(datetime)
    }

    /// Whether the event occurs.
    pub fn is_some(&self) -> (occurs: bool)
        ensures
            occurs == self.0 is Some,
    {
        self.0.is_some()
    }

    /// The local time of day of the event, where it occurs.
    pub fn time(&self) -> (time: Option<ClockTime>)
        ensures
            self.0 is None ==> time is None,
            self.0 is Some ==> time is Some && time->0@ == self.0->0.second_of_day(),
    {
        match &self.0 {
            Some(datetime) => Some(datetime.time()),
            None => None,
        }
    }

    /// The text of the event time for a reader: date, time and offset, or
    /// the word `Never`.
    pub open spec fn spec_text(self) -> Seq<char> {
        match self.0 {
            Some(datetime) => display_of(datetime.utc_seconds(), datetime.offset_seconds()),
            None => "Never"@,
        }
    }

    /// The text of the event time for a reader.
    pub fn to_text(&self) -> (text: String)
        ensures
            text@ == self.spec_text(),
    {
        match &self.0 {
            Some(datetime) => datetime.to_text(),
            None => String::from_str("Never"),
        }
    }

    /// The event time for a machine: RFC 3339 text, or nothing where the
    /// event does not occur.
    pub fn to_rfc3339(&self) -> (text: Option<String>)
        ensures
            self.0 is None ==> text is None,
            self.0 is Some ==> text is Some && text->0@ == rfc3339_of(
                self.0->0.utc_seconds(),
                self.0->0.offset_seconds(),
            ),
    {
        match &self.0 {
            Some(datetime) => Some(datetime.to_rfc3339()),
            None => None,
        }
    }
}

/// The direction in which the sun travels relative to the observer.
#[derive(Clone, Copy, Debug, PartialEq, Eq, Structural)]
pub enum Direction {
    Ascending,
    Descending,
}

/// An angle between -90 and 90 degrees, both included, in picodegrees.
///
/// As the depression of an event it says how far below the horizon the
/// centre of the sun stands; negative values lie above the horizon.
#[derive(Clone, Copy, Debug, PartialEq, Eq, Structural)]
pub struct Altitude(i64);

impl View for Altitude {
    type V = int;

    closed spec fn view(&self) -> int {
        self.0 as int
    }
}

impl Altitude {
    #[verifier::type_invariant]
    pub closed spec fn inv(self) -> bool {
        Altitude::valid(self.0 as int)
    }

    /// The picodegree values that an altitude may hold.
    pub open spec fn valid(value: int) -> bool {
        -RIGHT_ANGLE <= value <= RIGHT_ANGLE
    }

    /// What `new` reports for a value out of range, given the value's text.
    pub open spec fn range_message(found: Seq<char>) -> Seq<char> {
        "Expected a number between -90.0 and 90.0. Found '"@ + found + "'"@
    }

    /// An altitude of `alt` picodegrees; values beyond a right angle are
    /// rejected.
    pub fn new(alt: i64) -> (r: Result<Self, String>)
        ensures
            Altitude::valid(alt as int) ==> r is Ok && r->Ok_0@ == alt,
            !Altitude::valid(alt as int) ==> r is Err && r->Err_0@ == Altitude::range_message(
                decimal_text(alt as int),
            ),
    {
        if -RIGHT_ANGLE <= alt && alt <= RIGHT_ANGLE {
            Ok(Altitude(alt))
        } else {
            let found = format_decimal(alt);
            Err(join3("Expected a number between -90.0 and 90.0. Found '", found.as_str(), "'"))
        }
    }

    /// What `parse` reports for a text that is no number.
    pub open spec fn parse_message(text: Seq<char>) -> Seq<char> {
        if text.len() == 0 {
            Altitude::range_message("cannot parse float from empty string"@)
        } else {
            Altitude::range_message("invalid float literal"@)
        }
    }

    /// What `parse` returns for a text, given the number that the text
    /// writes, if it writes one.
    pub open spec fn is_parsed(
        text: Seq<char>,
        number: Option<int>,
        dropped: bool,
        r: Result<Self, String>,
    ) -> bool {
        match number {
            Some(value) => if dropped && (value == RIGHT_ANGLE || value == -RIGHT_ANGLE) {
                r is Err && r->Err_0@ == Altitude::range_message(text)
            } else if Altitude::valid(value) {
                r is Ok && r->Ok_0@ == value
            } else {
                r is Err && r->Err_0@ == Altitude::range_message(decimal_text(value))
            },
            None => r is Err && r->Err_0@ == Altitude::parse_message(text),
        }
    }

    /// The altitude that a text writes in degrees, such as `-6.3`. What the
    /// text holds beyond the twelfth decimal place is dropped, but not where
    /// that would bring a number beyond a right angle back to it: such a
    /// text is refused as it is written.
    pub fn parse(alt: &str) -> (r: Result<Self, String>)
        ensures
            Altitude::is_parsed(alt@, spec_parse_decimal(alt@), spec_drops_digits(alt@), r),
    {
        match read_decimal(alt) {
            Some(reading) => if reading.dropped && (reading.value == RIGHT_ANGLE || reading.value
                == -RIGHT_ANGLE) {
                Err(join3("Expected a number between -90.0 and 90.0. Found '", alt, "'"))
            } else {
                Self::new(reading.value)
            },
            None => {
                if alt.is_empty() {
                    Err(
                        join3(
                            "Expected a number between -90.0 and 90.0. Found '",
                            "cannot parse float from empty string",
                            "'",
                        ),
                    )
                } else {
                    Err(
                        join3(
                            "Expected a number between -90.0 and 90.0. Found '",
                            "invalid float literal",
                            "'",
                        ),
                    )
                }
            },
        }
    }

    /// The altitude in picodegrees.
    pub fn value(&self) -> (v: i64)
        ensures
            v == self@,
            Altitude::valid(v as int),
    {
        proof {
            use_type_invariant(self);
        }
        self.0
    }

    /// Two altitudes of the same size are the same altitude.
    pub proof fn lemma_view_injective(a: Altitude, b: Altitude)
        requires
            a@ == b@,
        ensures
            a == b,
    {
    }
}

/// The depression of the sun at sunrise and sunset.
pub closed spec fn sunrise_depression() -> Altitude {
    Altitude(SUNRISE_DEPRESSION)
}

/// The thresholds grow from sunrise over civil and nautical to astronomical
/// twilight, for the dawns as for the dusks.
pub proof fn lemma_depressions_ascend()
    ensures
        sunrise_depression()@ == SUNRISE_DEPRESSION,
        EventName::Sunrise.spec_depression()->0 < EventName::CivilDawn.spec_depression()->0
            < EventName::NauticalDawn.spec_depression()->0
            < EventName::AstronomicalDawn.spec_depression()->0,
        EventName::Sunset.spec_depression()->0 < EventName::CivilDusk.spec_depression()->0
            < EventName::NauticalDusk.spec_depression()->0
            < EventName::AstronomicalDusk.spec_depression()->0,
{
}

/// The plain names of the events, as a caller writes them.
#[derive(Clone, Copy, Debug, PartialEq, Eq, Structural)]
pub enum RawEventName {
    Sunrise,
    Sunset,
    CivilDawn,
    CivilDusk,
    NauticalDawn,
    NauticalDusk,
    AstronomicalDawn,
    AstronomicalDusk,
    CustomAM,
    CustomPM,
    SolarNoon,
}

impl RawEventName {
    /// The name by which a caller writes the event.
    pub open spec fn spec_name(self) -> Seq<char> {
        match self {
            RawEventName::Sunrise => "sunrise"@,
            RawEventName::Sunset => "sunset"@,
            RawEventName::CivilDawn => "civil_dawn"@,
            RawEventName::CivilDusk => "civil_dusk"@,
            RawEventName::NauticalDawn => "nautical_dawn"@,
            RawEventName::NauticalDusk => "nautical_dusk"@,
            RawEventName::AstronomicalDawn => "astronomical_dawn"@,
            RawEventName::AstronomicalDusk => "astronomical_dusk"@,
            RawEventName::CustomAM => "custom_am"@,
            RawEventName::CustomPM => "custom_pm"@,
            RawEventName::SolarNoon => "solar_noon"@,
        }
    }

    /// The event that a caller means by `name`, if that is the name of one.
    pub open spec fn spec_from_name(name: Seq<char>) -> Option<RawEventName> {
        if name == "sunrise"@ {
            Some(RawEventName::Sunrise)
        } else if name == "sunset"@ {
            Some(RawEventName::Sunset)
        } else if name == "civil_dawn"@ {
            Some(RawEventName::CivilDawn)
        } else if name == "civil_dusk"@ {
            Some(RawEventName::CivilDusk)
        } else if name == "nautical_dawn"@ {
            Some(RawEventName::NauticalDawn)
        } else if name == "nautical_dusk"@ {
            Some(RawEventName::NauticalDusk)
        } else if name == "astronomical_dawn"@ {
            Some(RawEventName::AstronomicalDawn)
        } else if name == "astronomical_dusk"@ {
            Some(RawEventName::AstronomicalDusk)
        } else if name == "custom_am"@ {
            Some(RawEventName::CustomAM)
        } else if name == "custom_pm"@ {
            Some(RawEventName::CustomPM)
        } else if name == "solar_noon"@ {
            Some(RawEventName::SolarNoon)
        } else {
            None
        }
    }

    /// All events, in the order of the catalogue.
    pub open spec fn spec_value_variants() -> Seq<RawEventName> {
        seq![
            RawEventName::Sunrise,
            RawEventName::Sunset,
            RawEventName::CivilDawn,
            RawEventName::CivilDusk,
            RawEventName::NauticalDawn,
            RawEventName::NauticalDusk,
            RawEventName::AstronomicalDawn,
            RawEventName::AstronomicalDusk,
            RawEventName::CustomAM,
            RawEventName::CustomPM,
            RawEventName::SolarNoon,
        ]
    }

    /// All events, in the order of the catalogue.
    pub fn value_variants() -> (variants: [RawEventName; 11])
        ensures
            variants@ == RawEventName::spec_value_variants(),
    {
        let variants = [
            RawEventName::Sunrise,
            RawEventName::Sunset,
            RawEventName::CivilDawn,
            RawEventName::CivilDusk,
            RawEventName::NauticalDawn,
            RawEventName::NauticalDusk,
            RawEventName::AstronomicalDawn,
            RawEventName::AstronomicalDusk,
            RawEventName::CustomAM,
            RawEventName::CustomPM,
            RawEventName::SolarNoon,
        ];
        proof {
            assert(variants@ =~= RawEventName::spec_value_variants());
        }
        variants
    }

    /// The name by which a caller writes the event; every event has one.
    pub fn to_possible_value(&self) -> (name: Option<&'static str>)
        ensures
            name is Some,
            name->0@ == self.spec_name(),
    {
        Some(
            match self {
                RawEventName::Sunrise => "sunrise",
                RawEventName::Sunset => "sunset",
                RawEventName::CivilDawn => "civil_dawn",
                RawEventName::CivilDusk => "civil_dusk",
                RawEventName::NauticalDawn => "nautical_dawn",
                RawEventName::NauticalDusk => "nautical_dusk",
                RawEventName::AstronomicalDawn => "astronomical_dawn",
                RawEventName::AstronomicalDusk => "astronomical_dusk",
                RawEventName::CustomAM => "custom_am",
                RawEventName::CustomPM => "custom_pm",
                RawEventName::SolarNoon => "solar_noon",
            },
        )
    }

    /// The event that a caller means by `name`: one of the eleven names of
    /// the catalogue, letter for letter, and nothing for any other text.
    pub fn from_name(name: &str) -> (event: Option<RawEventName>)
        ensures
            event == RawEventName::spec_from_name(name@),
    {
        if same_text(name, "sunrise") {
            Some(RawEventName::Sunrise)
        } else if same_text(name, "sunset") {
            Some(RawEventName::Sunset)
        } else if same_text(name, "civil_dawn") {
            Some(RawEventName::CivilDawn)
        } else if same_text(name, "civil_dusk") {
            Some(RawEventName::CivilDusk)
        } else if same_text(name, "nautical_dawn") {
            Some(RawEventName::NauticalDawn)
        } else if same_text(name, "nautical_dusk") {
            Some(RawEventName::NauticalDusk)
        } else if same_text(name, "astronomical_dawn") {
            Some(RawEventName::AstronomicalDawn)
        } else if same_text(name, "astronomical_dusk") {
            Some(RawEventName::AstronomicalDusk)
        } else if same_text(name, "custom_am") {
            Some(RawEventName::CustomAM)
        } else if same_text(name, "custom_pm") {
            Some(RawEventName::CustomPM)
        } else if same_text(name, "solar_noon") {
            Some(RawEventName::SolarNoon)
        } else {
            None
        }
    }

    /// Every event is found again by its name, and only a name of the
    /// catalogue finds an event.
    pub proof fn lemma_names(event: RawEventName, name: Seq<char>)
        ensures
            RawEventName::spec_from_name(event.spec_name()) == Some(event),
            RawEventName::spec_from_name(name) == Some(event) <==> name == event.spec_name(),
    {
        reveal_strlit("sunrise");
        reveal_strlit("sunset");
        reveal_strlit("civil_dawn");
        reveal_strlit("civil_dusk");
        reveal_strlit("nautical_dawn");
        reveal_strlit("nautical_dusk");
        reveal_strlit("astronomical_dawn");
        reveal_strlit("astronomical_dusk");
        reveal_strlit("custom_am");
        reveal_strlit("custom_pm");
        reveal_strlit("solar_noon");
        assert("sunrise"@.len() == 7);
        assert("sunset"@.len() == 6);
        assert("civil_dawn"@.len() == 10);
        assert("civil_dusk"@.len() == 10);
        assert("nautical_dawn"@.len() == 13);
        assert("nautical_dusk"@.len() == 13);
        assert("astronomical_dawn"@.len() == 17);
        assert("astronomical_dusk"@.len() == 17);
        assert("custom_am"@.len() == 9);
        assert("custom_pm"@.len() == 9);
        assert("solar_noon"@.len() == 10);
        assert("astronomical_dawn"@[14] == 'a');
        assert("astronomical_dusk"@[14] == 'u');
        assert("civil_dawn"@[0] == 'c');
        assert("civil_dawn"@[7] == 'a');
        assert("civil_dusk"@[0] == 'c');
        assert("civil_dusk"@[7] == 'u');
        assert("custom_am"@[7] == 'a');
        assert("custom_pm"@[7] == 'p');
        assert("nautical_dawn"@[10] == 'a');
        assert("nautical_dusk"@[10] == 'u');
        assert("solar_noon"@[0] == 's');
    }
}

/// The events by name, each with the data that it needs: the two custom
/// events carry their altitude.
#[derive(Clone, Copy, Debug, PartialEq, Eq, Structural)]
pub enum EventName {
    Sunrise,
    Sunset,
    CivilDawn,
    CivilDusk,
    NauticalDawn,
    NauticalDusk,
    AstronomicalDawn,
    AstronomicalDusk,
    CustomAM(Altitude),
    CustomPM(Altitude),
    SolarNoon,
}

impl EventName {
    /// How far below the horizon the sun stands at the event, in
    /// picodegrees; solar noon has no such threshold.
    pub open spec fn spec_depression(self) -> Option<int> {
        match self {
            EventName::Sunrise | EventName::Sunset => Some(SUNRISE_DEPRESSION as int),
            EventName::CivilDawn | EventName::CivilDusk => Some(CIVIL_DEPRESSION as int),
            EventName::NauticalDawn | EventName::NauticalDusk => Some(NAUTICAL_DEPRESSION as int),
            EventName::AstronomicalDawn | EventName::AstronomicalDusk => Some(
                ASTRONOMICAL_DEPRESSION as int,
            ),
            EventName::CustomAM(alt) | EventName::CustomPM(alt) => Some(alt@),
            EventName::SolarNoon => None,
        }
    }

    /// Whether the sun rises or sinks at the event; at solar noon it does
    /// neither.
    pub open spec fn spec_direction(self) -> Option<Direction> {
        match self {
            EventName::Sunrise
            | EventName::CivilDawn
            | EventName::NauticalDawn
            | EventName::AstronomicalDawn
            | EventName::CustomAM(_) => Some(Direction::Ascending),
            EventName::Sunset
            | EventName::CivilDusk
            | EventName::NauticalDusk
            | EventName::AstronomicalDusk
            | EventName::CustomPM(_) => Some(Direction::Descending),
            EventName::SolarNoon => None,
        }
    }

    /// The named event, with the altitude where the name is a custom one.
    pub open spec fn spec_from_raw(raw: RawEventName, custom_altitude: Option<Altitude>) -> Option<
        EventName,
    > {
        match raw {
            RawEventName::Sunrise => Some(EventName::Sunrise),
            RawEventName::Sunset => Some(EventName::Sunset),
            RawEventName::CivilDawn => Some(EventName::CivilDawn),
            RawEventName::CivilDusk => Some(EventName::CivilDusk),
            RawEventName::NauticalDawn => Some(EventName::NauticalDawn),
            RawEventName::NauticalDusk => Some(EventName::NauticalDusk),
            RawEventName::AstronomicalDawn => Some(EventName::AstronomicalDawn),
            RawEventName::AstronomicalDusk => Some(EventName::AstronomicalDusk),
            RawEventName::SolarNoon => Some(EventName::SolarNoon),
            RawEventName::CustomAM => match custom_altitude {
                Some(alt) => Some(EventName::CustomAM(alt)),
                None => None,
            },
            RawEventName::CustomPM => match custom_altitude {
                Some(alt) => Some(EventName::CustomPM(alt)),
                None => None,
            },
        }
    }

    /// Attaches the altitude to a plain name. A custom event needs one and
    /// is refused without it; the other events ignore it.
    pub fn from_raw(raw: RawEventName, custom_altitude: Option<Altitude>) -> (r: Option<EventName>)
        ensures
            r == EventName::spec_from_raw(raw, custom_altitude),
            r is None <==> (raw is CustomAM || raw is CustomPM) && custom_altitude is None,
    {
        match raw {
            RawEventName::Sunrise => Some(EventName::Sunrise),
            RawEventName::Sunset => Some(EventName::Sunset),
            RawEventName::CivilDawn => Some(EventName::CivilDawn),
            RawEventName::CivilDusk => Some(EventName::CivilDusk),
            RawEventName::NauticalDawn => Some(EventName::NauticalDawn),
            RawEventName::NauticalDusk => Some(EventName::NauticalDusk),
            RawEventName::AstronomicalDawn => Some(EventName::AstronomicalDawn),
            RawEventName::AstronomicalDusk => Some(EventName::AstronomicalDusk),
            RawEventName::SolarNoon => Some(EventName::SolarNoon),
            RawEventName::CustomAM => match custom_altitude {
                Some(alt) => Some(EventName::CustomAM(alt)),
                None => None,
            },
            RawEventName::CustomPM => match custom_altitude {
                Some(alt) => Some(EventName::CustomPM(alt)),
                None => None,
            },
        }
    }
}

/// An event that occurs when the sun reaches a given elevation relative to
/// the horizon, on its way up or down.
#[derive(Clone, Copy, Debug, PartialEq, Eq, Structural)]
pub struct FixedElevationEvent {
    pub degrees_below_horizon: Altitude,
    pub solar_direction: Direction,
}

impl FixedElevationEvent {
    pub fn new(degrees_below_horizon: Altitude, solar_direction: Direction) -> (event: Self)
        ensures
            event.degrees_below_horizon == degrees_below_horizon,
            event.solar_direction == solar_direction,
    {
        Self { degrees_below_horizon, solar_direction }
    }
}

/// An event that occurs at an elevation which varies with date and place.
#[derive(Clone, Copy, Debug, PartialEq, Eq, Structural)]
pub enum VariableElevationEvent {
    SolarNoon,
}

/// Any supported solar event. The two kinds get their times in different
/// ways: a fixed-elevation event from the hour angle at which the sun
/// reaches the elevation, solar noon from the noon fraction alone.
#[derive(Clone, Copy, Debug, PartialEq, Eq, Structural)]
pub enum Event {
    Fixed(FixedElevationEvent),
    Variable(VariableElevationEvent),
}

impl Event {
    /// The event that a name stands for.
    pub closed spec fn event_of(event: EventName) -> Event {
        match event {
            EventName::Sunrise => Event::Fixed(
                FixedElevationEvent {
                    degrees_below_horizon: Altitude(SUNRISE_DEPRESSION),
                    solar_direction: Direction::Ascending,
                },
            ),
            EventName::Sunset => Event::Fixed(
                FixedElevationEvent {
                    degrees_below_horizon: Altitude(SUNRISE_DEPRESSION),
                    solar_direction: Direction::Descending,
                },
            ),
            EventName::CivilDawn => Event::Fixed(
                FixedElevationEvent {
                    degrees_below_horizon: Altitude(CIVIL_DEPRESSION),
                    solar_direction: Direction::Ascending,
                },
            ),
            EventName::CivilDusk => Event::Fixed(
                FixedElevationEvent {
                    degrees_below_horizon: Altitude(CIVIL_DEPRESSION),
                    solar_direction: Direction::Descending,
                },
            ),
            EventName::NauticalDawn => Event::Fixed(
                FixedElevationEvent {
                    degrees_below_horizon: Altitude(NAUTICAL_DEPRESSION),
                    solar_direction: Direction::Ascending,
                },
            ),
            EventName::NauticalDusk => Event::Fixed(
                FixedElevationEvent {
                    degrees_below_horizon: Altitude(NAUTICAL_DEPRESSION),
                    solar_direction: Direction::Descending,
                },
            ),
            EventName::AstronomicalDawn => Event::Fixed(
                FixedElevationEvent {
                    degrees_below_horizon: Altitude(ASTRONOMICAL_DEPRESSION),
                    solar_direction: Direction::Ascending,
                },
            ),
            EventName::AstronomicalDusk => Event::Fixed(
                FixedElevationEvent {
                    degrees_below_horizon: Altitude(ASTRONOMICAL_DEPRESSION),
                    solar_direction: Direction::Descending,
                },
            ),
            EventName::CustomAM(alt) => Event::Fixed(
                FixedElevationEvent {
                    degrees_below_horizon: alt,
                    solar_direction: Direction::Ascending,
                },
            ),
            EventName::CustomPM(alt) => Event::Fixed(
                FixedElevationEvent {
                    degrees_below_horizon: alt,
                    solar_direction: Direction::Descending,
                },
            ),
            EventName::SolarNoon => Event::Variable(VariableElevationEvent::SolarNoon),
        }
    }

    /// Whether `result` has the elevation and the direction of the named
    /// event, or is solar noon where the name is.
    pub open spec fn spec_from_event_name(event: EventName, result: Event) -> bool {
        match result {
            Event::Fixed(fixed) => {
                &&& event.spec_depression() == Some(fixed.degrees_below_horizon@)
                &&& event.spec_direction() == Some(fixed.solar_direction)
            },
            Event::Variable(variable) => {
                &&& event is SolarNoon
                &&& variable is SolarNoon
            },
        }
    }

    /// The events of the catalogue: the dawns ascending, the dusks
    /// descending, solar noon of variable elevation.
    pub proof fn lemma_events_of()
        ensures
            Event::event_of(EventName::Sunrise) matches Event::Fixed(fixed)
                && fixed.solar_direction is Ascending,
            Event::event_of(EventName::CivilDawn) matches Event::Fixed(fixed)
                && fixed.solar_direction is Ascending,
            Event::event_of(EventName::NauticalDawn) matches Event::Fixed(fixed)
                && fixed.solar_direction is Ascending,
            Event::event_of(EventName::AstronomicalDawn) matches Event::Fixed(fixed)
                && fixed.solar_direction is Ascending,
            Event::event_of(EventName::Sunset) matches Event::Fixed(fixed)
                && fixed.solar_direction is Descending,
            Event::event_of(EventName::CivilDusk) matches Event::Fixed(fixed)
                && fixed.solar_direction is Descending,
            Event::event_of(EventName::NauticalDusk) matches Event::Fixed(fixed)
                && fixed.solar_direction is Descending,
            Event::event_of(EventName::AstronomicalDusk) matches Event::Fixed(fixed)
                && fixed.solar_direction is Descending,
            Event::event_of(EventName::SolarNoon) is Variable,
    {
    }

    /// The event of a name has the name's elevation and direction, and no
    /// other event has.
    pub proof fn lemma_event_of(event: EventName, result: Event)
        ensures
            Event::spec_from_event_name(event, result) <==> result == Event::event_of(event),
    {
    }

    /// The elevation and direction of a named event: sunrise and sunset at
    /// 0.833 degrees below the horizon, the limits of civil, nautical and
    /// astronomical twilight at 6, 12 and 18 degrees, a custom event at its
    /// own altitude; the dawn of each pair ascending, the dusk descending.
    pub fn from_event_name(event: EventName) -> (result: Event)
        ensures
            result == Event::event_of(event),
            Event::spec_from_event_name(event, result),
    {
        match event {
            EventName::Sunrise => Event::Fixed(
                FixedElevationEvent::new(Altitude(SUNRISE_DEPRESSION), Direction::Ascending),
            ),
            EventName::Sunset => Event::Fixed(
                FixedElevationEvent::new(Altitude(SUNRISE_DEPRESSION), Direction::Descending),
            ),
            EventName::CivilDawn => Event::Fixed(
                FixedElevationEvent::new(Altitude(CIVIL_DEPRESSION), Direction::Ascending),
            ),
            EventName::CivilDusk => Event::Fixed(
                FixedElevationEvent::new(Altitude(CIVIL_DEPRESSION), Direction::Descending),
            ),
            EventName::NauticalDawn => Event::Fixed(
                FixedElevationEvent::new(Altitude(NAUTICAL_DEPRESSION), Direction::Ascending),
            ),
            EventName::NauticalDusk => Event::Fixed(
                FixedElevationEvent::new(Altitude(NAUTICAL_DEPRESSION), Direction::Descending),
            ),
            EventName::AstronomicalDawn => Event::Fixed(
                FixedElevationEvent::new(Altitude(ASTRONOMICAL_DEPRESSION), Direction::Ascending),
            ),
            EventName::AstronomicalDusk => Event::Fixed(
                FixedElevationEvent::new(Altitude(ASTRONOMICAL_DEPRESSION), Direction::Descending),
            ),
            EventName::CustomAM(alt) => Event::Fixed(
                FixedElevationEvent::new(alt, Direction::Ascending),
            ),
            EventName::CustomPM(alt) => Event::Fixed(
                FixedElevationEvent::new(alt, Direction::Descending),
            ),
            EventName::SolarNoon => Event::Variable(VariableElevationEvent::SolarNoon),
        }
    }
}

/// A latitude between -90 and 90 degrees, both included, in picodegrees;
/// positive to the north.
#[derive(Clone, Copy, Debug, PartialEq, Eq, Structural)]
pub struct Latitude(i64);

impl View for Latitude {
    type V = int;

    closed spec fn view(&self) -> int {
        self.0 as int
    }
}

impl Latitude {
    #[verifier::type_invariant]
    pub closed spec fn inv(self) -> bool {
        Latitude::valid(self.0 as int)
    }

    /// The picodegree values that a latitude may hold.
    pub open spec fn valid(value: int) -> bool {
        -RIGHT_ANGLE <= value <= RIGHT_ANGLE
    }

    /// What is reported for a latitude that cannot be accepted, given the
    /// text that was found.
    pub open spec fn message(found: Seq<char>) -> Seq<char> {
        "Latitude must be between -90.0 and 90.0, inclusive. Found `"@ + found + "`."@
    }

    /// A latitude of `value` picodegrees; values beyond a right angle are
    /// rejected, never clamped.
    pub fn new(value: i64) -> (r: Result<Self, String>)
        ensures
            Latitude::valid(value as int) ==> r is Ok && r->Ok_0@ == value,
            !Latitude::valid(value as int) ==> r is Err && r->Err_0@ == Latitude::message(
                decimal_text(value as int),
            ),
    {
        if -RIGHT_ANGLE <= value && value <= RIGHT_ANGLE {
            Ok(Latitude(value))
        } else {
            let found = format_decimal(value);
            Err(
                join3(
                    "Latitude must be between -90.0 and 90.0, inclusive. Found `",
                    found.as_str(),
                    "`.",
                ),
            )
        }
    }

    /// What `parse` returns for a text, given the number that the text
    /// writes, if it writes one.
    pub open spec fn is_parsed(
        text: Seq<char>,
        number: Option<int>,
        dropped: bool,
        r: Result<Self, String>,
    ) -> bool {
        match number {
            Some(value) => if dropped && (value == RIGHT_ANGLE || value == -RIGHT_ANGLE) {
                r is Err && r->Err_0@ == Latitude::message(text)
            } else if Latitude::valid(value) {
                r is Ok && r->Ok_0@ == value
            } else {
                r is Err && r->Err_0@ == Latitude::message(decimal_text(value))
            },
            None => r is Err && r->Err_0@ == Latitude::message(text),
        }
    }

    /// The latitude that a text writes in degrees, such as `51.4769`. What
    /// the text holds beyond the twelfth decimal place is dropped, but not
    /// where that would bring a number beyond a right angle back to it: such
    /// a text is refused as it is written.
    pub fn parse(value: &str) -> (r: Result<Self, String>)
        ensures
            Latitude::is_parsed(value@, spec_parse_decimal(value@), spec_drops_digits(value@), r),
    {
        match read_decimal(value) {
            Some(reading) => if reading.dropped && (reading.value == RIGHT_ANGLE || reading.value
                == -RIGHT_ANGLE) {
                Err(
                    join3(
                        "Latitude must be between -90.0 and 90.0, inclusive. Found `",
                        value,
                        "`.",
                    ),
                )
            } else {
                Self::new(reading.value)
            },
            None => Err(
                join3(
                    "Latitude must be between -90.0 and 90.0, inclusive. Found `",
                    value,
                    "`.",
                ),
            ),
        }
    }

    /// The latitude in picodegrees.
    pub fn value(&self) -> (v: i64)
        ensures
            v == self@,
            Latitude::valid(v as int),
    {
        proof {
            use_type_invariant(self);
        }
        self.0
    }

    /// The latitude as text, in degrees.
    pub fn to_text(&self) -> (text: String)
        ensures
            text@ == decimal_text(self@),
    {
        format_decimal(self.0)
    }
}

/// A longitude between -180 and 180 degrees, both included, in picodegrees;
/// positive to the east.
#[derive(Clone, Copy, Debug, PartialEq, Eq, Structural)]
pub struct Longitude(i64);

impl View for Longitude {
    type V = int;

    closed spec fn view(&self) -> int {
        self.0 as int
    }
}

impl Longitude {
    #[verifier::type_invariant]
    pub closed spec fn inv(self) -> bool {
        Longitude::valid(self.0 as int)
    }

    /// The picodegree values that a longitude may hold.
    pub open spec fn valid(value: int) -> bool {
        -STRAIGHT_ANGLE <= value <= STRAIGHT_ANGLE
    }

    /// What `new` reports for a value out of range, given the value's text.
    pub open spec fn range_message(found: Seq<char>) -> Seq<char> {
        "Longitude must be between -180.0 and 180.0, inclusive. Found '"@ + found + "'."@
    }

    /// A longitude of `value` picodegrees; values beyond a straight angle
    /// are rejected, never clamped.
    pub fn new(value: i64) -> (r: Result<Self, String>)
        ensures
            Longitude::valid(value as int) ==> r is Ok && r->Ok_0@ == value,
            !Longitude::valid(value as int) ==> r is Err && r->Err_0@
                == Longitude::range_message(decimal_text(value as int)),
    {
        if -STRAIGHT_ANGLE <= value && value <= STRAIGHT_ANGLE {
            Ok(Longitude(value))
        } else {
            let found = format_decimal(value);
            Err(
                join3(
                    "Longitude must be between -180.0 and 180.0, inclusive. Found '",
                    found.as_str(),
                    "'.",
                ),
            )
        }
    }

    /// What `parse` reports for a text that is no number.
    pub open spec fn parse_message(found: Seq<char>) -> Seq<char> {
        "Longitude must be between -180.0 and 180.0, inclusive. Found `"@ + found + "`."@
    }

    /// What `parse` returns for a text, given the number that the text
    /// writes, if it writes one.
    pub open spec fn is_parsed(
        text: Seq<char>,
        number: Option<int>,
        dropped: bool,
        r: Result<Self, String>,
    ) -> bool {
        match number {
            Some(value) => if dropped && (value == STRAIGHT_ANGLE || value == -STRAIGHT_ANGLE) {
                r is Err && r->Err_0@ == Longitude::range_message(text)
            } else if Longitude::valid(value) {
                r is Ok && r->Ok_0@ == value
            } else {
                r is Err && r->Err_0@ == Longitude::range_message(decimal_text(value))
            },
            None => r is Err && r->Err_0@ == Longitude::parse_message(text),
        }
    }

    /// The longitude that a text writes in degrees, such as `-0.0005`. What
    /// the text holds beyond the twelfth decimal place is dropped, but not
    /// where that would bring a number beyond a straight angle back to it:
    /// such a text is refused as it is written.
    pub fn parse(value: &str) -> (r: Result<Self, String>)
        ensures
            Longitude::is_parsed(
                value@,
                spec_parse_decimal(value@),
                spec_drops_digits(value@),
                r,
            ),
    {
        match read_decimal(value) {
            Some(reading) => if reading.dropped && (reading.value == STRAIGHT_ANGLE
                || reading.value == -STRAIGHT_ANGLE) {
                Err(
                    join3(
                        "Longitude must be between -180.0 and 180.0, inclusive. Found '",
                        value,
                        "'.",
                    ),
                )
            } else {
                Self::new(reading.value)
            },
            None => Err(
                join3(
                    "Longitude must be between -180.0 and 180.0, inclusive. Found `",
                    value,
                    "`.",
                ),
            ),
        }
    }

    /// The longitude in picodegrees.
    pub fn value(&self) -> (v: i64)
        ensures
            v == self@,
            Longitude::valid(v as int),
    {
        proof {
            use_type_invariant(self);
        }
        self.0
    }

    /// The longitude as text, in degrees.
    pub fn to_text(&self) -> (text: String)
        ensures
            text@ == decimal_text(self@),
    {
        format_decimal(self.0)
    }
}

/// A position on the globe.
#[derive(Clone, Copy, Debug, PartialEq, Eq, Structural)]
pub struct Coordinates {
    pub latitude: Latitude,
    pub longitude: Longitude,
}

impl Coordinates {
    pub fn new(latitude: Latitude, longitude: Longitude) -> (coordinates: Self)
        ensures
            coordinates.latitude == latitude,
            coordinates.longitude == longitude,
    {
        Self { latitude, longitude }
    }
}

} // verus!
