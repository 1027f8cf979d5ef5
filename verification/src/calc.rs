//! Event times for one date and place.
//!
//! The solar position itself (declination, equation of time, refraction) is
//! trigonometry and comes from the caller, as do the hour angles at which the
//! sun reaches an elevation. What is decided here is how those quantities
//! become times of day, dates and the length of the day.

use vstd::prelude::*;
use crate::domain::{
    sunrise_depression, Coordinates, Direction, Event, EventName, EventTime, FixedElevationEvent,
    Longitude, VariableElevationEvent,
};
use crate::timestamp::{Timestamp, MAX_TIMESTAMP};
use crate::units::{
    div_toward_zero, rem_toward_zero, SECONDS_PER_DAY, STRAIGHT_ANGLE, SUNRISE_DEPRESSION,
    TIME_UNITS_PER_ANGLE_UNIT, UNITS_PER_DAY, UNITS_PER_DEGREE, UNITS_PER_HOUR, UNITS_PER_MINUTE,
    UNITS_PER_SECOND,
};

verus! {

/// The angle by which the sun stands away from the meridian at an event,
/// between 0 and 180 degrees, in picodegrees.
#[derive(Clone, Copy, Debug, PartialEq, Eq, Structural)]
pub struct HourAngle(i64);

impl View for HourAngle {
    type V = int;

    closed spec fn view(&self) -> int {
        self.0 as int
    }
}

impl HourAngle {
    #[verifier::type_invariant]
    pub closed spec fn inv(self) -> bool {
        HourAngle::valid(self.0 as int)
    }

    /// The picodegree values that an hour angle may hold.
    pub open spec fn valid(value: int) -> bool {
        0 <= value <= STRAIGHT_ANGLE
    }

    /// What holds of every hour angle that `new` hands out is that it is
    /// one that an hour angle may hold.
    pub proof fn lemma_inv(self)
        requires
            self.inv(),
        ensures
            HourAngle::valid(self@),
    {
    }

    /// An hour angle of `value` picodegrees; `None` where it is negative or
    /// beyond a straight angle.
    pub fn new(value: i64) -> (r: Option<HourAngle>)
        ensures
            r is Some <==> HourAngle::valid(value as int),
            r is Some ==> r->0@ == value,
    {
        if 0 <= value && value <= STRAIGHT_ANGLE {
            Some(HourAngle(value))
        } else {
            None
        }
    }

    /// The cosines, in units of a million-millionth, that an angle can
    /// have: from -1 to 1.
    pub open spec fn is_cosine(cosine: int) -> bool {
        -UNITS_PER_DEGREE <= cosine <= UNITS_PER_DEGREE
    }

    /// The hour angle of an event from its cosine, in units of a
    /// million-millionth, and the arc cosine of that, in picodegrees. Where
    /// the cosine lies beyond -1 or 1, the sun does not reach the elevation
    /// of the event on that day, and there is no hour angle, whatever `arc`
    /// holds.
    pub fn from_cosine(cosine: i64, arc: i64) -> (r: Option<HourAngle>)
        ensures
            r is Some <==> HourAngle::is_cosine(cosine as int) && HourAngle::valid(arc as int),
            r is Some ==> r->0@ == arc,
    {
        if -UNITS_PER_DEGREE <= cosine && cosine <= UNITS_PER_DEGREE {
            HourAngle::new(arc)
        } else {
            None
        }
    }

    /// The hour angle in picodegrees.
    pub fn value(&self) -> (v: i64)
        ensures
            v == self@,
            HourAngle::valid(v as int),
    {
        proof {
            use_type_invariant(self);
        }
        self.0
    }
}

/// The hour angles of the four elevations of a report, each absent where
/// the sun does not reach the elevation on the day in question.
#[derive(Clone, Copy, Debug, PartialEq, Eq, Structural)]
pub struct HourAngles {
    /// At 0.833 degrees below the horizon: sunrise and sunset.
    pub sunrise: Option<HourAngle>,
    /// At 6 degrees: civil dawn and dusk.
    pub civil: Option<HourAngle>,
    /// At 12 degrees: nautical dawn and dusk.
    pub nautical: Option<HourAngle>,
    /// At 18 degrees: astronomical dawn and dusk.
    pub astronomical: Option<HourAngle>,
}

/// Whether the first hour angle is not larger than the second, where both
/// are there.
pub open spec fn not_larger(first: Option<HourAngle>, second: Option<HourAngle>) -> bool {
    first is Some && second is Some ==> first->0@ <= second->0@
}

impl HourAngles {
    /// Whether each hour angle that is there lies between nothing and a
    /// straight angle, as every `HourAngle` that `new` hands out does.
    pub open spec fn valid(self) -> bool {
        &&& self.sunrise is Some ==> HourAngle::valid(self.sunrise->0@)
        &&& self.civil is Some ==> HourAngle::valid(self.civil->0@)
        &&& self.nautical is Some ==> HourAngle::valid(self.nautical->0@)
        &&& self.astronomical is Some ==> HourAngle::valid(self.astronomical->0@)
    }

    /// Whether the hour angles grow with the depression of the sun, as far
    /// as they are there: a deeper elevation is reached further from noon.
    pub open spec fn ascending(self) -> bool {
        &&& not_larger(self.sunrise, self.civil)
        &&& not_larger(self.sunrise, self.nautical)
        &&& not_larger(self.sunrise, self.astronomical)
        &&& not_larger(self.civil, self.nautical)
        &&& not_larger(self.civil, self.astronomical)
        &&& not_larger(self.nautical, self.astronomical)
    }

    /// Whether the hour angles grow with the depression of the sun, as far
    /// as they are there.
    pub fn is_ascending(&self) -> (ascending: bool)
        ensures
            ascending == self.ascending(),
    {
        in_order(self.sunrise, self.civil) && in_order(self.sunrise, self.nautical) && in_order(
            self.sunrise,
            self.astronomical,
        ) && in_order(self.civil, self.nautical) && in_order(self.civil, self.astronomical)
            && in_order(self.nautical, self.astronomical)
    }
}

/// Whether the first hour angle is not larger than the second, where both
/// are there.
pub fn in_order(first: Option<HourAngle>, second: Option<HourAngle>) -> (ordered: bool)
    ensures
        ordered == not_larger(first, second),
{
    match (first, second) {
        (Some(first), Some(second)) => first.value() <= second.value(),
        _ => true,
    }
}

/// The fraction of the local day at which the sun crosses the meridian:
/// twelve hours, less four minutes for each degree of longitude east, less
/// the equation of time, plus the offset of local time from UTC. It may fall
/// outside the day.
pub open spec fn noon_fraction(longitude: int, equation_of_time: int, offset: int) -> int {
    UNITS_PER_DAY / 2 - longitude * TIME_UNITS_PER_ANGLE_UNIT - equation_of_time + offset
        * UNITS_PER_SECOND
}

/// The fraction of the local day at which the sun crosses the meridian, for
/// a longitude, the equation of time as a fraction of a day, and the offset
/// of local time in seconds east of UTC; `None` where it lies more than a
/// day out of the day.
pub fn solar_noon_fraction(longitude: Longitude, equation_of_time: i64, offset: i32) -> (r: Option<
    i64,
>)
    ensures
        r is Some <==> convertible(
            noon_fraction(longitude@, equation_of_time as int, offset as int),
        ),
        r is Some ==> r->0 == noon_fraction(longitude@, equation_of_time as int, offset as int),
{
    let half_day: i128 = (UNITS_PER_DAY / 2) as i128;
    let turn: i128 = (longitude.value() * TIME_UNITS_PER_ANGLE_UNIT) as i128;
    let zone: i128 = offset as i128 * 1_000_000_000_000;
    let noon: i128 = half_day - turn - equation_of_time as i128 + zone;
    if -(UNITS_PER_DAY as i128) <= noon && noon < 2 * (UNITS_PER_DAY as i128) {
        Some(noon as i64)
    } else {
        None
    }
}

/// True solar time as a fraction of a day: the local time of day plus the
/// equation of time, plus four minutes for each degree of longitude east,
/// less the offset of local time, with whole days taken out toward zero.
pub open spec fn true_solar_time(
    second_of_day: int,
    longitude: int,
    equation_of_time: int,
    offset: int,
) -> int {
    rem_toward_zero(
        second_of_day * UNITS_PER_SECOND + equation_of_time + longitude * TIME_UNITS_PER_ANGLE_UNIT
            - offset * UNITS_PER_SECOND,
        UNITS_PER_DAY as int,
    )
}

/// The hour angle of the sun for a true solar time, in picodegrees: a
/// degree for every four minutes, counted from solar noon.
pub open spec fn hour_angle_at(true_solar_time: int) -> int {
    if true_solar_time < 0 {
        div_toward_zero(true_solar_time, TIME_UNITS_PER_ANGLE_UNIT as int) + STRAIGHT_ANGLE
    } else {
        div_toward_zero(true_solar_time, TIME_UNITS_PER_ANGLE_UNIT as int) - STRAIGHT_ANGLE
    }
}

/// The hour angle of the sun, in picodegrees, at the time of day of `date`,
/// for a longitude and the equation of time as a fraction of a day.
pub fn true_hour_angle(date: &Timestamp, longitude: Longitude, equation_of_time: i64) -> (angle:
    i64)
    ensures
        angle == hour_angle_at(
            true_solar_time(
                date.second_of_day(),
                longitude@,
                equation_of_time as int,
                date.offset_seconds(),
            ),
        ),
{
    let time: i128 = (date.time().num_seconds_from_midnight() as i64 * UNITS_PER_SECOND) as i128;
    let turn: i128 = (longitude.value() * TIME_UNITS_PER_ANGLE_UNIT) as i128;
    let zone: i128 = (date.offset() as i64 * UNITS_PER_SECOND) as i128;
    let apparent: i128 = time + equation_of_time as i128 + turn - zone;
    let true_solar_time: i128 = apparent % UNITS_PER_DAY as i128;
    if true_solar_time < 0 {
        (true_solar_time / TIME_UNITS_PER_ANGLE_UNIT as i128 + STRAIGHT_ANGLE as i128) as i64
    } else {
        (true_solar_time / TIME_UNITS_PER_ANGLE_UNIT as i128 - STRAIGHT_ANGLE as i128) as i64
    }
}

/// The bands of elevation by which the refraction of the atmosphere is
/// computed.
#[derive(Clone, Copy, Debug, PartialEq, Eq, Structural)]
pub enum RefractionBand {
    /// Above 85 degrees: no refraction.
    Overhead,
    /// Above 5 and up to 85 degrees: a series in the cotangent.
    High,
    /// Above -0.575 and up to 5 degrees: a cubic polynomial.
    Horizon,
    /// Up to -0.575 degrees: another term in the cotangent.
    Below,
}

/// The elevation above which there is no refraction: 85 degrees.
pub const OVERHEAD_ELEVATION: i64 = 85_000_000_000_000;

/// The elevation above which the series in the cotangent holds: 5 degrees.
pub const HIGH_ELEVATION: i64 = 5_000_000_000_000;

/// The elevation above which the polynomial holds: -0.575 degrees.
pub const HORIZON_ELEVATION: i64 = -575_000_000_000;

impl RefractionBand {
    /// The band of an elevation in picodegrees.
    pub open spec fn spec_from_elevation(elevation: int) -> RefractionBand {
        if elevation > OVERHEAD_ELEVATION {
            RefractionBand::Overhead
        } else if elevation > HIGH_ELEVATION {
            RefractionBand::High
        } else if elevation > HORIZON_ELEVATION {
            RefractionBand::Horizon
        } else {
            RefractionBand::Below
        }
    }

    /// The band of an elevation in picodegrees.
    pub fn from_elevation(elevation: i64) -> (band: RefractionBand)
        ensures
            band == RefractionBand::spec_from_elevation(elevation as int),
    {
        if elevation > OVERHEAD_ELEVATION {
            RefractionBand::Overhead
        } else if elevation > HIGH_ELEVATION {
            RefractionBand::High
        } else if elevation > HORIZON_ELEVATION {
            RefractionBand::Horizon
        } else {
            RefractionBand::Below
        }
    }
}

/// The fraction of a day at which an event falls, for a noon fraction and an
/// hour angle: before noon for an ascending sun, after it for a descending
/// one, by the time the earth takes to turn through the hour angle.
pub open spec fn event_fraction(noon: int, direction: Direction, hour_angle: int) -> int {
    match direction {
        Direction::Ascending => noon - hour_angle * TIME_UNITS_PER_ANGLE_UNIT,
        Direction::Descending => noon + hour_angle * TIME_UNITS_PER_ANGLE_UNIT,
    }
}

/// By how many days the date moves for a day fraction: to the day before
/// for a negative fraction, to the next day from a whole day on.
pub open spec fn day_shift(fraction: int) -> int {
    if fraction < 0 {
        -1
    } else if fraction >= UNITS_PER_DAY {
        1
    } else {
        0
    }
}

/// The day fraction brought into the day to which `day_shift` moves.
pub open spec fn fraction_within_day(fraction: int) -> int {
    fraction - day_shift(fraction) * UNITS_PER_DAY
}

/// The hour of a fraction within the day: 24 times the fraction, truncated.
pub open spec fn hour_of(within: int) -> int {
    within / (UNITS_PER_HOUR as int)
}

/// The minute: 60 times what the hour left over, truncated.
pub open spec fn minute_of(within: int) -> int {
    (within % (UNITS_PER_HOUR as int)) / (UNITS_PER_MINUTE as int)
}

/// The second: 60 times what the minute left over, truncated.
pub open spec fn second_of(within: int) -> int {
    ((within % (UNITS_PER_HOUR as int)) % (UNITS_PER_MINUTE as int)) / (UNITS_PER_SECOND as int)
}

/// Local seconds since the epoch of the moment that lies the day fraction
/// `fraction` into the local day `day`.
pub open spec fn local_seconds_at(day: int, fraction: int) -> int {
    let within = fraction_within_day(fraction);
    (day + day_shift(fraction)) * SECONDS_PER_DAY + hour_of(within) * 3600 + minute_of(within) * 60
        + second_of(within)
}

/// The day fractions that can be turned into a time: at most one day out of
/// the day on either side.
pub open spec fn convertible(fraction: int) -> bool {
    -UNITS_PER_DAY <= fraction < 2 * UNITS_PER_DAY
}

/// Hour, minute and second together are the whole seconds of the fraction:
/// what is left of a second is dropped, not rounded.
pub proof fn lemma_whole_seconds(within: int)
    requires
        0 <= within < UNITS_PER_DAY,
    ensures
        hour_of(within) * 3600 + minute_of(within) * 60 + second_of(within) == within / (
        UNITS_PER_SECOND as int),
        0 <= hour_of(within) < 24,
        0 <= minute_of(within) < 60,
        0 <= second_of(within) < 60,
{
    let h = within / (UNITS_PER_HOUR as int);
    let r1 = within % (UNITS_PER_HOUR as int);
    let m = r1 / (UNITS_PER_MINUTE as int);
    let r2 = r1 % (UNITS_PER_MINUTE as int);
    let s = r2 / (UNITS_PER_SECOND as int);
    let r3 = r2 % (UNITS_PER_SECOND as int);
    assert(within == (h * 3600 + m * 60 + s) * UNITS_PER_SECOND + r3);
    vstd::arithmetic::div_mod::lemma_fundamental_div_mod_converse(
        within,
        UNITS_PER_SECOND as int,
        h * 3600 + m * 60 + s,
        r3,
    );
}

/// The moment of a day fraction is the start of the day plus the whole
/// seconds of the fraction, on whichever day it falls.
pub proof fn lemma_local_seconds_at(day: int, fraction: int)
    requires
        convertible(fraction),
    ensures
        local_seconds_at(day, fraction) == day * SECONDS_PER_DAY + fraction / (
        UNITS_PER_SECOND as int),
{
    let shift = day_shift(fraction);
    let within = fraction_within_day(fraction);
    lemma_whole_seconds(within);
    let q = within / (UNITS_PER_SECOND as int);
    let r = within % (UNITS_PER_SECOND as int);
    assert(fraction == (shift * SECONDS_PER_DAY + q) * UNITS_PER_SECOND + r);
    vstd::arithmetic::div_mod::lemma_fundamental_div_mod_converse(
        fraction,
        UNITS_PER_SECOND as int,
        shift * SECONDS_PER_DAY + q,
        r,
    );
}

/// A later day fraction gives a moment that is not earlier, and one that is
/// later by a second or more gives a later moment.
pub proof fn lemma_local_seconds_at_ordered(day: int, earlier: int, later: int)
    requires
        convertible(earlier),
        convertible(later),
        earlier <= later,
    ensures
        local_seconds_at(day, earlier) <= local_seconds_at(day, later),
        later - earlier >= UNITS_PER_SECOND ==> local_seconds_at(day, earlier) < local_seconds_at(
            day,
            later,
        ),
{
    lemma_local_seconds_at(day, earlier);
    lemma_local_seconds_at(day, later);
    vstd::arithmetic::div_mod::lemma_div_is_ordered(earlier, later, UNITS_PER_SECOND as int);
    if later - earlier >= UNITS_PER_SECOND {
        vstd::arithmetic::div_mod::lemma_div_is_ordered(
            earlier + UNITS_PER_SECOND,
            later,
            UNITS_PER_SECOND as int,
        );
        vstd::arithmetic::div_mod::lemma_div_plus_one(earlier, UNITS_PER_SECOND as int);
    }
}

/// The quantities of one date and place from which all event times of that
/// day are derived, computed once and then only read.
#[derive(Clone, Copy, Debug)]
pub struct SolarCalculations {
    date: Timestamp,
    coordinates: Coordinates,
    solar_declination: i64,
    solar_noon_fraction: i64,
    corrected_solar_elevation_angle: i64,
}

impl SolarCalculations {
    #[verifier::type_invariant]
    pub closed spec fn inv(self) -> bool {
        self.well_formed()
    }

    /// The date and offset for which the calculations stand.
    pub closed spec fn spec_date(self) -> Timestamp {
        self.date
    }

    /// The place for which the calculations stand.
    pub closed spec fn spec_coordinates(self) -> Coordinates {
        self.coordinates
    }

    /// The sun's declination in picodegrees.
    pub closed spec fn spec_solar_declination(self) -> int {
        self.solar_declination as int
    }

    /// The fraction of the local day at which the sun crosses the meridian.
    pub closed spec fn spec_solar_noon_fraction(self) -> int {
        self.solar_noon_fraction as int
    }

    /// The sun's elevation at the time of `date`, corrected for refraction,
    /// in picodegrees.
    pub closed spec fn spec_corrected_solar_elevation_angle(self) -> int {
        self.corrected_solar_elevation_angle as int
    }

    /// The dates for which event times can be held: two days inside the
    /// range of timestamps, since an event may fall on the day before or
    /// after.
    pub open spec fn date_in_range(date: Timestamp) -> bool {
        &&& date.well_formed()
        &&& -MAX_TIMESTAMP + 2 * SECONDS_PER_DAY <= date.utc_seconds() <= MAX_TIMESTAMP - 2
            * SECONDS_PER_DAY
    }

    /// What holds of every value that `new` hands out: the date is in
    /// range, and solar noon is at most one day out of the day.
    pub open spec fn well_formed(self) -> bool {
        &&& SolarCalculations::date_in_range(self.spec_date())
        &&& convertible(self.spec_solar_noon_fraction())
    }

    /// Whether the time of `event` can be held for the hour angle: an event
    /// of fixed elevation that occurs must fall at most one day out of the
    /// day.
    pub open spec fn in_reach(self, event: Event, hour_angle: Option<HourAngle>) -> bool {
        match (event, hour_angle) {
            (Event::Fixed(fixed), Some(angle)) => convertible(
                event_fraction(self.spec_solar_noon_fraction(), fixed.solar_direction, angle@),
            ),
            _ => true,
        }
    }

    /// Whether both events of an hour angle, the ascending and the
    /// descending one, fall at most one day out of the day.
    pub open spec fn reaches(self, hour_angle: Option<HourAngle>) -> bool {
        hour_angle is Some ==> {
            &&& convertible(
                event_fraction(
                    self.spec_solar_noon_fraction(),
                    Direction::Ascending,
                    hour_angle->0@,
                ),
            )
            &&& convertible(
                event_fraction(
                    self.spec_solar_noon_fraction(),
                    Direction::Descending,
                    hour_angle->0@,
                ),
            )
        }
    }

    /// The noon fraction of a date and place for an equation of time.
    pub open spec fn noon_of(date: Timestamp, coordinates: Coordinates, equation_of_time: int) -> int {
        noon_fraction(coordinates.longitude@, equation_of_time, date.offset_seconds())
    }

    /// Gathers the quantities of one date and place: the sun's declination
    /// and its elevation at the time of `date`, corrected for refraction,
    /// both in picodegrees, and the fraction of the day at which it crosses
    /// the meridian, from the equation of time (as a fraction of a day).
    /// `None` where the date is out of range or solar noon lies more than a
    /// day out of the day.
    pub fn new(
        date: Timestamp,
        coordinates: Coordinates,
        solar_declination: i64,
        equation_of_time: i64,
        corrected_solar_elevation_angle: i64,
    ) -> (r: Option<Self>)
        ensures
            r is Some <==> SolarCalculations::date_in_range(date) && convertible(
                SolarCalculations::noon_of(date, coordinates, equation_of_time as int),
            ),
            r is Some ==> {
                &&& r->0.spec_date() == date
                &&& r->0.spec_coordinates() == coordinates
                &&& r->0.spec_solar_declination() == solar_declination
                &&& r->0.spec_solar_noon_fraction() == SolarCalculations::noon_of(
                    date,
                    coordinates,
                    equation_of_time as int,
                )
                &&& r->0.spec_corrected_solar_elevation_angle() == corrected_solar_elevation_angle
            },
    {
        let seconds: i64 = date.timestamp();
        if -MAX_TIMESTAMP + 2 * SECONDS_PER_DAY <= seconds && seconds <= MAX_TIMESTAMP - 2
            * SECONDS_PER_DAY {
            match solar_noon_fraction(coordinates.longitude, equation_of_time, date.offset()) {
                Some(solar_noon_fraction) => Some(
                    SolarCalculations {
                        date,
                        coordinates,
                        solar_declination,
                        solar_noon_fraction,
                        corrected_solar_elevation_angle,
                    },
                ),
                None => None,
            }
        } else {
            None
        }
    }

    pub fn date(&self) -> (date: Timestamp)
        ensures
            date == self.spec_date(),
            self.well_formed(),
    {
        proof {
            use_type_invariant(self);
        }
        self.date
    }

    pub fn coordinates(&self) -> (coordinates: Coordinates)
        ensures
            coordinates == self.spec_coordinates(),
    {
        self.coordinates
    }

    pub fn solar_declination(&self) -> (declination: i64)
        ensures
            declination == self.spec_solar_declination(),
    {
        self.solar_declination
    }

    pub fn solar_noon_fraction(&self) -> (fraction: i64)
        ensures
            fraction == self.spec_solar_noon_fraction(),
            self.well_formed(),
    {
        proof {
            use_type_invariant(self);
        }
        self.solar_noon_fraction
    }

    pub fn corrected_solar_elevation_angle(&self) -> (angle: i64)
        ensures
            angle == self.spec_corrected_solar_elevation_angle(),
    {
        self.corrected_solar_elevation_angle
    }

    /// Whether `moment` is the moment that lies the day fraction `fraction`
    /// into the local day of the date, read at the offset of the date.
    pub open spec fn is_moment_at(self, moment: Timestamp, fraction: int) -> bool {
        &&& moment.well_formed()
        &&& moment.offset_seconds() == self.spec_date().offset_seconds()
        &&& moment.local_seconds() == local_seconds_at(self.spec_date().local_day(), fraction)
    }

    /// The time of an event with the given hour angle, where it has one; an
    /// event of variable elevation falls on solar noon.
    pub open spec fn is_event_time(
        self,
        event: Event,
        hour_angle: Option<HourAngle>,
        time: EventTime,
    ) -> bool {
        match event {
            Event::Fixed(fixed) => match hour_angle {
                Some(angle) => time.0 is Some && self.is_moment_at(
                    time.0->0,
                    event_fraction(self.spec_solar_noon_fraction(), fixed.solar_direction, angle@),
                ),
                None => time.0 is None,
            },
            Event::Variable(_) => time.0 is Some && self.is_moment_at(
                time.0->0,
                self.spec_solar_noon_fraction(),
            ),
        }
    }

    /// The time of solar noon, which occurs on every day.
    pub fn solar_noon(&self) -> (noon: EventTime)
        ensures
            noon.0 is Some,
            self.is_moment_at(noon.0->0, self.spec_solar_noon_fraction()),
    {
        proof {
            use_type_invariant(self);
        }
        let solar_noon = self.day_fraction_to_datetime(self.solar_noon_fraction);
        EventTime::new(Some(solar_noon))
    }

    /// The date and time that lie `day_fraction` into the local day of the
    /// date. A negative fraction falls on the day before and a fraction of a
    /// whole day or more on the day after; hour, minute and second are
    /// truncated, not rounded.
    pub fn day_fraction_to_datetime(&self, day_fraction: i64) -> (moment: Timestamp)
        requires
            convertible(day_fraction as int),
        ensures
            self.is_moment_at(moment, day_fraction as int),
    {
        proof {
            use_type_invariant(self);
        }
        let shift: i64 = if day_fraction < 0 {
            -1
        } else if day_fraction >= UNITS_PER_DAY {
            1
        } else {
            0
        };
        let within: i64 = day_fraction - shift * UNITS_PER_DAY;
        let hour: i64 = within / UNITS_PER_HOUR;
        let minute: i64 = (within % UNITS_PER_HOUR) / UNITS_PER_MINUTE;
        let second: i64 = ((within % UNITS_PER_HOUR) % UNITS_PER_MINUTE) / UNITS_PER_SECOND;
        proof {
            lemma_whole_seconds(within as int);
        }
        let offset: i32 = self.date.offset();
        let day: i64 = self.date.day();
        let local: i64 = (day + shift) * SECONDS_PER_DAY + hour * 3600 + minute * 60 + second;
        let moment = Timestamp::new(local - offset as i64, offset);
        moment.unwrap()
    }

    /// Whether the time of `event` can be held for the hour angle.
    pub fn is_in_reach(&self, event: Event, hour_angle: Option<HourAngle>) -> (in_reach: bool)
        ensures
            in_reach == self.in_reach(event, hour_angle),
    {
        proof {
            use_type_invariant(self);
        }
        match (event, hour_angle) {
            (Event::Fixed(fixed), Some(angle)) => {
                let turn: i64 = angle.value() * TIME_UNITS_PER_ANGLE_UNIT;
                let day_fraction: i64 = match fixed.solar_direction {
                    Direction::Ascending => self.solar_noon_fraction - turn,
                    Direction::Descending => self.solar_noon_fraction + turn,
                };
                -UNITS_PER_DAY <= day_fraction && day_fraction < 2 * UNITS_PER_DAY
            },
            _ => true,
        }
    }

    /// Whether both events of an hour angle, the ascending and the
    /// descending one, fall at most one day out of the day.
    pub fn can_reach(&self, hour_angle: Option<HourAngle>) -> (reaches: bool)
        ensures
            reaches == self.reaches(hour_angle),
    {
        proof {
            use_type_invariant(self);
        }
        match hour_angle {
            Some(angle) => {
                let turn: i64 = angle.value() * TIME_UNITS_PER_ANGLE_UNIT;
                -UNITS_PER_DAY <= self.solar_noon_fraction - turn && self.solar_noon_fraction
                    + turn < 2 * UNITS_PER_DAY
            },
            None => true,
        }
    }

    /// The time of `event`, given the hour angle at which the sun reaches
    /// the elevation of the event; without an hour angle a fixed-elevation
    /// event does not occur. Solar noon needs no hour angle and always
    /// occurs. An event that occurs must fall at most one day out of the
    /// day.
    pub fn event_time(&self, event: Event, hour_angle: Option<HourAngle>) -> (time: EventTime)
        requires
            self.in_reach(event, hour_angle),
        ensures
            self.is_event_time(event, hour_angle, time),
    {
        proof {
            use_type_invariant(self);
        }
        match event {
            Event::Fixed(fixed) => {
                match hour_angle {
                    Some(angle) => {
                        let turn: i64 = angle.value() * TIME_UNITS_PER_ANGLE_UNIT;
                        let day_fraction: i64 = match fixed.solar_direction {
                            Direction::Ascending => self.solar_noon_fraction - turn,
                            Direction::Descending => self.solar_noon_fraction + turn,
                        };
                        let event_time = self.day_fraction_to_datetime(day_fraction);
                        EventTime::new(Some(event_time))
                    },
                    None => EventTime::new(None),
                }
            },
            Event::Variable(variable) => match variable {
                VariableElevationEvent::SolarNoon => self.solar_noon(),
            },
        }
    }

    /// Seconds from sunrise to sunset for the hour angle of sunrise and
    /// sunset, where there is one.
    pub open spec fn spec_day_length(self, hour_angle: Option<HourAngle>, max_elevation: int) -> int {
        match hour_angle {
            Some(angle) => {
                let noon = self.spec_solar_noon_fraction();
                let day = self.spec_date().local_day();
                local_seconds_at(day, event_fraction(noon, Direction::Descending, angle@))
                    - local_seconds_at(day, event_fraction(noon, Direction::Ascending, angle@))
            },
            None => if max_elevation >= SUNRISE_DEPRESSION {
                SECONDS_PER_DAY as int
            } else {
                0
            },
        }
    }

    /// The length of the day in seconds: from sunrise to sunset where the
    /// sun rises and sets, that is, where `sunrise_hour_angle` holds the
    /// hour angle at which it stands 0.833 degrees below the horizon.
    /// Otherwise the whole day where the sun, at its highest
    /// (`max_solar_elevation`, in picodegrees, corrected for refraction),
    /// reaches 0.833 degrees, and nothing where it does not.
    pub fn day_length(&self, sunrise_hour_angle: Option<HourAngle>, max_solar_elevation: i64) -> (seconds:
        i64)
        requires
            self.reaches(sunrise_hour_angle),
        ensures
            seconds == self.spec_day_length(sunrise_hour_angle, max_solar_elevation as int),
            0 <= seconds <= SECONDS_PER_DAY,
    {
        proof {
            use_type_invariant(self);
            if let Some(angle) = sunrise_hour_angle {
                use_type_invariant(&angle);
                lemma_day_length_bounds(*self, angle);
            }
        }
        let sunrise = self.event_time(Event::from_event_name(EventName::Sunrise), sunrise_hour_angle);
        let sunset = self.event_time(Event::from_event_name(EventName::Sunset), sunrise_hour_angle);
        match (sunrise.0, sunset.0) {
            (Some(sunrise), Some(sunset)) => sunset.seconds_since(&sunrise),
            _ => {
                if max_solar_elevation >= SUNRISE_DEPRESSION {
                    24 * 3600
                } else {
                    0
                }
            },
        }
    }
}

/// On every day on which the sun rises and sets, sunrise is not after solar
/// noon and solar noon is not after sunset; where the hour angle of sunrise
/// amounts to a second of time or more (1/240 of a degree), sunrise is before
/// solar noon and solar noon before sunset.
pub proof fn lemma_sunrise_noon_sunset(
    calculations: SolarCalculations,
    hour_angle: HourAngle,
    sunrise: EventTime,
    noon: EventTime,
    sunset: EventTime,
)
    requires
        calculations.well_formed(),
        HourAngle::valid(hour_angle@),
        calculations.reaches(Some(hour_angle)),
        calculations.is_event_time(
            Event::Fixed(
                FixedElevationEvent {
                    degrees_below_horizon: sunrise_depression(),
                    solar_direction: Direction::Ascending,
                },
            ),
            Some(hour_angle),
            sunrise,
        ),
        calculations.is_event_time(
            Event::Variable(VariableElevationEvent::SolarNoon),
            None,
            noon,
        ),
        calculations.is_event_time(
            Event::Fixed(
                FixedElevationEvent {
                    degrees_below_horizon: sunrise_depression(),
                    solar_direction: Direction::Descending,
                },
            ),
            Some(hour_angle),
            sunset,
        ),
    ensures
        sunrise.0 is Some && noon.0 is Some && sunset.0 is Some,
        sunrise.0->0.utc_seconds() <= noon.0->0.utc_seconds() <= sunset.0->0.utc_seconds(),
        hour_angle@ * TIME_UNITS_PER_ANGLE_UNIT >= UNITS_PER_SECOND ==> sunrise.0->0.utc_seconds()
            < noon.0->0.utc_seconds() < sunset.0->0.utc_seconds(),
{
    let day = calculations.spec_date().local_day();
    let middle = calculations.spec_solar_noon_fraction();
    let rise = event_fraction(middle, Direction::Ascending, hour_angle@);
    let set = event_fraction(middle, Direction::Descending, hour_angle@);
    lemma_local_seconds_at_ordered(day, rise, middle);
    lemma_local_seconds_at_ordered(day, middle, set);
}

/// From sunrise to sunset it is never less than nothing and never more than
/// a whole day.
pub proof fn lemma_day_length_bounds(calculations: SolarCalculations, hour_angle: HourAngle)
    requires
        calculations.well_formed(),
        HourAngle::valid(hour_angle@),
        calculations.reaches(Some(hour_angle)),
    ensures
        0 <= calculations.spec_day_length(Some(hour_angle), 0) <= SECONDS_PER_DAY,
{
    let day = calculations.spec_date().local_day();
    let middle = calculations.spec_solar_noon_fraction();
    let rise = event_fraction(middle, Direction::Ascending, hour_angle@);
    let set = event_fraction(middle, Direction::Descending, hour_angle@);
    lemma_local_seconds_at(day, rise);
    lemma_local_seconds_at(day, set);
    let unit = UNITS_PER_SECOND as int;
    vstd::arithmetic::div_mod::lemma_div_is_ordered(rise, set, unit);
    vstd::arithmetic::div_mod::lemma_fundamental_div_mod(rise, unit);
    vstd::arithmetic::div_mod::lemma_mod_bound(rise, unit);
    vstd::arithmetic::div_mod::lemma_fundamental_div_mod_converse(
        rise + SECONDS_PER_DAY * unit,
        unit,
        rise / unit + SECONDS_PER_DAY,
        rise % unit,
    );
    vstd::arithmetic::div_mod::lemma_div_is_ordered(set, rise + SECONDS_PER_DAY * unit, unit);
}

/// The elevation threshold enters an event time only through the hour
/// angle, and a larger hour angle puts the ascending event earlier and the
/// descending event later: the dawns come in the order astronomical,
/// nautical, civil, sunrise, and the dusks in the reverse order, whenever
/// their hour angles are so ordered.
pub proof fn lemma_larger_hour_angle_widens(
    calculations: SolarCalculations,
    smaller: HourAngle,
    larger: HourAngle,
)
    requires
        calculations.well_formed(),
        HourAngle::valid(smaller@),
        HourAngle::valid(larger@),
        smaller@ <= larger@,
        calculations.reaches(Some(larger)),
    ensures
        local_seconds_at(
            calculations.spec_date().local_day(),
            event_fraction(
                calculations.spec_solar_noon_fraction(),
                Direction::Ascending,
                larger@,
            ),
        ) <= local_seconds_at(
            calculations.spec_date().local_day(),
            event_fraction(
                calculations.spec_solar_noon_fraction(),
                Direction::Ascending,
                smaller@,
            ),
        ),
        local_seconds_at(
            calculations.spec_date().local_day(),
            event_fraction(
                calculations.spec_solar_noon_fraction(),
                Direction::Descending,
                smaller@,
            ),
        ) <= local_seconds_at(
            calculations.spec_date().local_day(),
            event_fraction(
                calculations.spec_solar_noon_fraction(),
                Direction::Descending,
                larger@,
            ),
        ),
{
    let day = calculations.spec_date().local_day();
    let middle = calculations.spec_solar_noon_fraction();
    lemma_local_seconds_at_ordered(
        day,
        event_fraction(middle, Direction::Ascending, larger@),
        event_fraction(middle, Direction::Ascending, smaller@),
    );
    lemma_local_seconds_at_ordered(
        day,
        event_fraction(middle, Direction::Descending, smaller@),
        event_fraction(middle, Direction::Descending, larger@),
    );
}

/// A whole number of seconds since midnight, taken as a day fraction, comes
/// back as the same time on the same day: nothing is lost on the way from a
/// time of day to a day fraction and back.
pub proof fn lemma_day_fraction_round_trip(
    calculations: SolarCalculations,
    seconds: int,
    moment: Timestamp,
)
    requires
        calculations.well_formed(),
        0 <= seconds < SECONDS_PER_DAY,
        calculations.is_moment_at(moment, seconds * UNITS_PER_SECOND),
    ensures
        moment.local_day() == calculations.spec_date().local_day(),
        moment.second_of_day() == seconds,
        hour_of(seconds * UNITS_PER_SECOND) == seconds / 3600,
        minute_of(seconds * UNITS_PER_SECOND) == (seconds / 60) % 60,
        second_of(seconds * UNITS_PER_SECOND) == seconds % 60,
{
    let day = calculations.spec_date().local_day();
    let fraction = seconds * UNITS_PER_SECOND;
    lemma_local_seconds_at(day, fraction);
    vstd::arithmetic::div_mod::lemma_fundamental_div_mod_converse(
        fraction,
        UNITS_PER_SECOND as int,
        seconds,
        0,
    );
    vstd::arithmetic::div_mod::lemma_fundamental_div_mod_converse(
        day * SECONDS_PER_DAY + seconds,
        SECONDS_PER_DAY as int,
        day,
        seconds,
    );
    lemma_whole_seconds(fraction);
    let h = hour_of(fraction);
    let m = minute_of(fraction);
    let s = second_of(fraction);
    vstd::arithmetic::div_mod::lemma_fundamental_div_mod_converse(seconds, 3600, h, m * 60 + s);
    vstd::arithmetic::div_mod::lemma_fundamental_div_mod_converse(seconds, 60, h * 60 + m, s);
    vstd::arithmetic::div_mod::lemma_fundamental_div_mod_converse(h * 60 + m, 60, h, m);
}

} // verus!
