//! The report of one day: every event of the catalogue and the length of
//! the day, all from the same calculations.

use vstd::prelude::*;
use vstd::string::StringExecFns;
use crate::calc::{
    event_fraction, lemma_local_seconds_at_ordered, HourAngle, HourAngles, SolarCalculations,
};
use crate::decimal::{decimal_text, format_integer, integer_text};
use crate::domain::{Coordinates, Event, EventName, EventTime};
use crate::timestamp::{display_of, Timestamp};
use crate::units::{div_toward_zero, rem_toward_zero};

verus! {

#[derive(Clone, Copy, Debug)]
pub struct SolarReport {
    pub date: Timestamp,
    pub coordinates: Coordinates,
    pub solar_noon: EventTime,
    /// Seconds from sunrise to sunset.
    pub day_length: i64,
    pub sunrise: EventTime,
    pub sunset: EventTime,
    pub civil_dawn: EventTime,
    pub civil_dusk: EventTime,
    pub nautical_dawn: EventTime,
    pub nautical_dusk: EventTime,
    pub astronomical_dawn: EventTime,
    pub astronomical_dusk: EventTime,
}

/// Whether `time` is the time that `calculations` give to the named event
/// for the hour angle of its elevation.
pub open spec fn is_time_of(
    calculations: SolarCalculations,
    name: EventName,
    hour_angle: Option<HourAngle>,
    time: EventTime,
) -> bool {
    calculations.is_event_time(Event::event_of(name), hour_angle, time)
}

/// Whether the first event is not after the second, where both occur.
pub open spec fn not_after(first: EventTime, second: EventTime) -> bool {
    first.0 is Some && second.0 is Some ==> first.0->0.utc_seconds() <= second.0->0.utc_seconds()
}

/// A length in seconds as hours, minutes and seconds.
pub open spec fn day_length_text(day_length: int) -> Seq<char> {
    integer_text(div_toward_zero(div_toward_zero(day_length, 60), 60)) + "h "@ + integer_text(
        rem_toward_zero(div_toward_zero(day_length, 60), 60),
    ) + "m "@ + integer_text(rem_toward_zero(day_length, 60)) + "s"@
}

/// The time of the named event for the hour angle of its elevation.
fn time_of(calculations: &SolarCalculations, name: EventName, hour_angle: Option<HourAngle>) -> (time:
    EventTime)
    requires
        calculations.reaches(hour_angle),
    ensures
        is_time_of(*calculations, name, hour_angle, time),
{
    calculations.event_time(Event::from_event_name(name), hour_angle)
}

impl SolarReport {
    /// Whether the report holds what `calculations` give for the hour
    /// angles and the highest elevation of the day.
    pub open spec fn reports(
        self,
        calculations: SolarCalculations,
        hour_angles: HourAngles,
        max_solar_elevation: int,
    ) -> bool {
        &&& self.date == calculations.spec_date()
        &&& self.coordinates == calculations.spec_coordinates()
        &&& self.day_length == calculations.spec_day_length(
            hour_angles.sunrise,
            max_solar_elevation,
        )
        &&& is_time_of(calculations, EventName::SolarNoon, None, self.solar_noon)
        &&& is_time_of(calculations, EventName::Sunrise, hour_angles.sunrise, self.sunrise)
        &&& is_time_of(calculations, EventName::Sunset, hour_angles.sunrise, self.sunset)
        &&& is_time_of(calculations, EventName::CivilDawn, hour_angles.civil, self.civil_dawn)
        &&& is_time_of(calculations, EventName::CivilDusk, hour_angles.civil, self.civil_dusk)
        &&& is_time_of(
            calculations,
            EventName::NauticalDawn,
            hour_angles.nautical,
            self.nautical_dawn,
        )
        &&& is_time_of(
            calculations,
            EventName::NauticalDusk,
            hour_angles.nautical,
            self.nautical_dusk,
        )
        &&& is_time_of(
            calculations,
            EventName::AstronomicalDawn,
            hour_angles.astronomical,
            self.astronomical_dawn,
        )
        &&& is_time_of(
            calculations,
            EventName::AstronomicalDusk,
            hour_angles.astronomical,
            self.astronomical_dusk,
        )
    }

    /// Whether the events of the report come in the order of the sky, as
    /// far as they occur: the dawns from the deepest to sunrise, then solar
    /// noon, then the dusks from sunset to the deepest.
    pub open spec fn in_order(self) -> bool {
        &&& not_after(self.astronomical_dawn, self.nautical_dawn)
        &&& not_after(self.astronomical_dawn, self.civil_dawn)
        &&& not_after(self.astronomical_dawn, self.sunrise)
        &&& not_after(self.nautical_dawn, self.civil_dawn)
        &&& not_after(self.nautical_dawn, self.sunrise)
        &&& not_after(self.civil_dawn, self.sunrise)
        &&& not_after(self.sunrise, self.solar_noon)
        &&& not_after(self.solar_noon, self.sunset)
        &&& not_after(self.sunset, self.civil_dusk)
        &&& not_after(self.sunset, self.nautical_dusk)
        &&& not_after(self.sunset, self.astronomical_dusk)
        &&& not_after(self.civil_dusk, self.nautical_dusk)
        &&& not_after(self.civil_dusk, self.astronomical_dusk)
        &&& not_after(self.nautical_dusk, self.astronomical_dusk)
    }

    /// Whether every event of the hour angles falls at most one day out of
    /// the day of the calculations.
    pub open spec fn within_reach(calculations: SolarCalculations, hour_angles: HourAngles) -> bool {
        &&& calculations.reaches(hour_angles.sunrise)
        &&& calculations.reaches(hour_angles.civil)
        &&& calculations.reaches(hour_angles.nautical)
        &&& calculations.reaches(hour_angles.astronomical)
    }

    /// Whether every event of the hour angles falls at most one day out of
    /// the day of the calculations.
    pub fn is_within_reach(calculations: &SolarCalculations, hour_angles: &HourAngles) -> (within:
        bool)
        ensures
            within == SolarReport::within_reach(*calculations, *hour_angles),
    {
        calculations.can_reach(hour_angles.sunrise) && calculations.can_reach(hour_angles.civil)
            && calculations.can_reach(hour_angles.nautical) && calculations.can_reach(
            hour_angles.astronomical,
        )
    }

    /// The report of the day of `solar_calculations`: solar noon, the eight
    /// events of fixed elevation, each at the hour angle of its elevation
    /// and absent without one, and the length of the day. Where the hour
    /// angles grow with the depression, the events come in the order of the
    /// sky: a deeper threshold gives an earlier dawn and a later dusk.
    pub fn new(
        solar_calculations: SolarCalculations,
        hour_angles: HourAngles,
        max_solar_elevation: i64,
    ) -> (report: SolarReport)
        requires
            SolarReport::within_reach(solar_calculations, hour_angles),
        ensures
            report.reports(solar_calculations, hour_angles, max_solar_elevation as int),
            hour_angles.ascending() ==> report.in_order(),
    {
        let sunrise = time_of(&solar_calculations, EventName::Sunrise, hour_angles.sunrise);
        let sunset = time_of(&solar_calculations, EventName::Sunset, hour_angles.sunrise);
        let civil_dawn = time_of(&solar_calculations, EventName::CivilDawn, hour_angles.civil);
        let civil_dusk = time_of(&solar_calculations, EventName::CivilDusk, hour_angles.civil);
        let nautical_dawn = time_of(&solar_calculations, EventName::NauticalDawn, hour_angles.nautical);
        let nautical_dusk = time_of(&solar_calculations, EventName::NauticalDusk, hour_angles.nautical);
        let astronomical_dawn = time_of(&solar_calculations, EventName::AstronomicalDawn, hour_angles.astronomical);
        let astronomical_dusk = time_of(&solar_calculations, EventName::AstronomicalDusk, hour_angles.astronomical);
        let solar_noon = time_of(&solar_calculations, EventName::SolarNoon, None);

        let report = SolarReport {
            date: solar_calculations.date(),
            coordinates: solar_calculations.coordinates(),
            solar_noon,
            day_length: solar_calculations.day_length(hour_angles.sunrise, max_solar_elevation),
            sunrise,
            sunset,
            civil_dawn,
            civil_dusk,
            nautical_dawn,
            nautical_dusk,
            astronomical_dawn,
            astronomical_dusk,
        };
        proof {
            if hour_angles.ascending() {
                if let Some(angle) = hour_angles.sunrise {
                    use_type_invariant(&angle);
                    angle.lemma_inv();
                }
                if let Some(angle) = hour_angles.civil {
                    use_type_invariant(&angle);
                    angle.lemma_inv();
                }
                if let Some(angle) = hour_angles.nautical {
                    use_type_invariant(&angle);
                    angle.lemma_inv();
                }
                if let Some(angle) = hour_angles.astronomical {
                    use_type_invariant(&angle);
                    angle.lemma_inv();
                }
                lemma_reported_in_order(
                    solar_calculations,
                    hour_angles,
                    max_solar_elevation as int,
                    report,
                );
            }
        }
        report
    }

    /// The report as text for a reader.
    pub open spec fn spec_format_report(self) -> Seq<char> {
        "LOCATION\n--------\nLatitude: "@ + decimal_text(self.coordinates.latitude@)
            + "\nLongitude: "@ + decimal_text(self.coordinates.longitude@)
            + "\n\nDATE\n----\n"@ + display_of(
            self.date.utc_seconds(),
            self.date.offset_seconds(),
        ) + "\n\nSolar noon is at:         "@ + self.solar_noon.spec_text()
            + "\nThe day length is:        "@ + day_length_text(self.day_length as int)
            + "\n\nSunrise is at:            "@ + self.sunrise.spec_text()
            + "\nSunset is at:             "@ + self.sunset.spec_text()
            + "\n\nCivil dawn is at:         "@ + self.civil_dawn.spec_text()
            + "\nCivil dusk is at:         "@ + self.civil_dusk.spec_text()
            + "\n\nNautical dawn is at:      "@ + self.nautical_dawn.spec_text()
            + "\nNautical dusk is at:      "@ + self.nautical_dusk.spec_text()
            + "\n\nAstronomical dawn is at:  "@ + self.astronomical_dawn.spec_text()
            + "\nAstronomical dusk is at:  "@ + self.astronomical_dusk.spec_text()
            + "\n        "@
    }

    /// The report as text for a reader: place, date, and each event with its
    /// time or the word `Never`.
    pub fn format_report(&self) -> (text: String)
        ensures
            text@ == self.spec_format_report(),
    {
        let mut text = String::from_str("LOCATION\n--------\nLatitude: ");
        text.append(self.coordinates.latitude.to_text().as_str());
        text.append("\nLongitude: ");
        text.append(self.coordinates.longitude.to_text().as_str());
        text.append("\n\nDATE\n----\n");
        text.append(self.date.to_text().as_str());
        text.append("\n\nSolar noon is at:         ");
        text.append(self.solar_noon.to_text().as_str());
        text.append("\nThe day length is:        ");
        text.append(SolarReport::day_length_hms(self.day_length).as_str());
        text.append("\n\nSunrise is at:            ");
        text.append(self.sunrise.to_text().as_str());
        text.append("\nSunset is at:             ");
        text.append(self.sunset.to_text().as_str());
        text.append("\n\nCivil dawn is at:         ");
        text.append(self.civil_dawn.to_text().as_str());
        text.append("\nCivil dusk is at:         ");
        text.append(self.civil_dusk.to_text().as_str());
        text.append("\n\nNautical dawn is at:      ");
        text.append(self.nautical_dawn.to_text().as_str());
        text.append("\nNautical dusk is at:      ");
        text.append(self.nautical_dusk.to_text().as_str());
        text.append("\n\nAstronomical dawn is at:  ");
        text.append(self.astronomical_dawn.to_text().as_str());
        text.append("\nAstronomical dusk is at:  ");
        text.append(self.astronomical_dusk.to_text().as_str());
        text.append("\n        ");
        text
    }

    /// A length in seconds as hours, minutes and seconds, such as
    /// `12h 31m 53s`.
    pub fn day_length_hms(day_length: i64) -> (text: String)
        ensures
            text@ == day_length_text(day_length as int),
    {
        let hours: i64 = (day_length / 60) / 60;
        let minutes: i64 = (day_length / 60) % 60;
        let seconds: i64 = day_length % 60;

        let mut text = format_integer(hours);
        text.append("h ");
        text.append(format_integer(minutes).as_str());
        text.append("m ");
        text.append(format_integer(seconds).as_str());
        text.append("s");
        text
    }
}

/// The fraction of the day at which an event falls, where it occurs.
pub open spec fn fraction_of(
    calculations: SolarCalculations,
    event: Event,
    hour_angle: Option<HourAngle>,
) -> int {
    match (event, hour_angle) {
        (Event::Fixed(fixed), Some(angle)) => event_fraction(
            calculations.spec_solar_noon_fraction(),
            fixed.solar_direction,
            angle@,
        ),
        _ => calculations.spec_solar_noon_fraction(),
    }
}

/// Of two events that occur, the one with the smaller day fraction is not
/// after the other.
pub proof fn lemma_events_not_after(
    calculations: SolarCalculations,
    first: Event,
    first_angle: Option<HourAngle>,
    first_time: EventTime,
    second: Event,
    second_angle: Option<HourAngle>,
    second_time: EventTime,
)
    requires
        calculations.well_formed(),
        calculations.in_reach(first, first_angle),
        calculations.in_reach(second, second_angle),
        calculations.is_event_time(first, first_angle, first_time),
        calculations.is_event_time(second, second_angle, second_time),
        first_time.0 is Some && second_time.0 is Some ==> fraction_of(
            calculations,
            first,
            first_angle,
        ) <= fraction_of(calculations, second, second_angle),
    ensures
        not_after(first_time, second_time),
{
    if first_time.0 is Some && second_time.0 is Some {
        lemma_local_seconds_at_ordered(
            calculations.spec_date().local_day(),
            fraction_of(calculations, first, first_angle),
            fraction_of(calculations, second, second_angle),
        );
    }
}

/// A deeper threshold gives an earlier dawn and a later dusk: a report for
/// hour angles that grow with the depression of the sun holds its events in
/// the order of the sky, as far as they occur.
pub proof fn lemma_reported_in_order(
    calculations: SolarCalculations,
    hour_angles: HourAngles,
    max_solar_elevation: int,
    report: SolarReport,
)
    requires
        calculations.well_formed(),
        hour_angles.valid(),
        hour_angles.ascending(),
        SolarReport::within_reach(calculations, hour_angles),
        report.reports(calculations, hour_angles, max_solar_elevation),
    ensures
        report.in_order(),
{
    Event::lemma_events_of();
    assert(not_after(report.astronomical_dawn, report.nautical_dawn)) by {
        lemma_events_not_after(
            calculations,
            Event::event_of(EventName::AstronomicalDawn),
            hour_angles.astronomical,
            report.astronomical_dawn,
            Event::event_of(EventName::NauticalDawn),
            hour_angles.nautical,
            report.nautical_dawn,
        );
    }
    assert(not_after(report.astronomical_dawn, report.civil_dawn)) by {
        lemma_events_not_after(
            calculations,
            Event::event_of(EventName::AstronomicalDawn),
            hour_angles.astronomical,
            report.astronomical_dawn,
            Event::event_of(EventName::CivilDawn),
            hour_angles.civil,
            report.civil_dawn,
        );
    }
    assert(not_after(report.astronomical_dawn, report.sunrise)) by {
        lemma_events_not_after(
            calculations,
            Event::event_of(EventName::AstronomicalDawn),
            hour_angles.astronomical,
            report.astronomical_dawn,
            Event::event_of(EventName::Sunrise),
            hour_angles.sunrise,
            report.sunrise,
        );
    }
    assert(not_after(report.nautical_dawn, report.civil_dawn)) by {
        lemma_events_not_after(
            calculations,
            Event::event_of(EventName::NauticalDawn),
            hour_angles.nautical,
            report.nautical_dawn,
            Event::event_of(EventName::CivilDawn),
            hour_angles.civil,
            report.civil_dawn,
        );
    }
    assert(not_after(report.nautical_dawn, report.sunrise)) by {
        lemma_events_not_after(
            calculations,
            Event::event_of(EventName::NauticalDawn),
            hour_angles.nautical,
            report.nautical_dawn,
            Event::event_of(EventName::Sunrise),
            hour_angles.sunrise,
            report.sunrise,
        );
    }
    assert(not_after(report.civil_dawn, report.sunrise)) by {
        lemma_events_not_after(
            calculations,
            Event::event_of(EventName::CivilDawn),
            hour_angles.civil,
            report.civil_dawn,
            Event::event_of(EventName::Sunrise),
            hour_angles.sunrise,
            report.sunrise,
        );
    }
    assert(not_after(report.sunrise, report.solar_noon)) by {
        lemma_events_not_after(
            calculations,
            Event::event_of(EventName::Sunrise),
            hour_angles.sunrise,
            report.sunrise,
            Event::event_of(EventName::SolarNoon),
            None,
            report.solar_noon,
        );
    }
    assert(not_after(report.solar_noon, report.sunset)) by {
        lemma_events_not_after(
            calculations,
            Event::event_of(EventName::SolarNoon),
            None,
            report.solar_noon,
            Event::event_of(EventName::Sunset),
            hour_angles.sunrise,
            report.sunset,
        );
    }
    assert(not_after(report.sunset, report.civil_dusk)) by {
        lemma_events_not_after(
            calculations,
            Event::event_of(EventName::Sunset),
            hour_angles.sunrise,
            report.sunset,
            Event::event_of(EventName::CivilDusk),
            hour_angles.civil,
            report.civil_dusk,
        );
    }
    assert(not_after(report.sunset, report.nautical_dusk)) by {
        lemma_events_not_after(
            calculations,
            Event::event_of(EventName::Sunset),
            hour_angles.sunrise,
            report.sunset,
            Event::event_of(EventName::NauticalDusk),
            hour_angles.nautical,
            report.nautical_dusk,
        );
    }
    assert(not_after(report.sunset, report.astronomical_dusk)) by {
        lemma_events_not_after(
            calculations,
            Event::event_of(EventName::Sunset),
            hour_angles.sunrise,
            report.sunset,
            Event::event_of(EventName::AstronomicalDusk),
            hour_angles.astronomical,
            report.astronomical_dusk,
        );
    }
    assert(not_after(report.civil_dusk, report.nautical_dusk)) by {
        lemma_events_not_after(
            calculations,
            Event::event_of(EventName::CivilDusk),
            hour_angles.civil,
            report.civil_dusk,
            Event::event_of(EventName::NauticalDusk),
            hour_angles.nautical,
            report.nautical_dusk,
        );
    }
    assert(not_after(report.civil_dusk, report.astronomical_dusk)) by {
        lemma_events_not_after(
            calculations,
            Event::event_of(EventName::CivilDusk),
            hour_angles.civil,
            report.civil_dusk,
            Event::event_of(EventName::AstronomicalDusk),
            hour_angles.astronomical,
            report.astronomical_dusk,
        );
    }
    assert(not_after(report.nautical_dusk, report.astronomical_dusk)) by {
        lemma_events_not_after(
            calculations,
            Event::event_of(EventName::NauticalDusk),
            hour_angles.nautical,
            report.nautical_dusk,
            Event::event_of(EventName::AstronomicalDusk),
            hour_angles.astronomical,
            report.astronomical_dusk,
        );
    }
}

} // verus!
