//! The Julian date of a moment and the day fraction of a time of day.

use vstd::prelude::*;
use crate::timestamp::{civil_of_day, ClockTime, Timestamp, EPOCH_DAY};
use crate::units::{div_toward_zero, floor_mod, SECONDS_PER_DAY, UNITS_PER_SECOND};

verus! {

/// The day number of the calendar date, by the formula of the solar
/// position algorithm; its divisions round toward zero.
pub open spec fn julian_day_number(year: int, month: int, day: int) -> int {
    367 * year - div_toward_zero(7 * (year + div_toward_zero(month + 9, 12)), 4) + div_toward_zero(
        275 * month,
        9,
    ) + day + 1721014
}

/// The day number of the calendar date.
pub fn julian_day(year: i32, month: u32, day: u32) -> (number: i64)
    requires
        month <= 12,
        day <= 31,
    ensures
        number == julian_day_number(year as int, month as int, day as int),
{
    let y: i64 = year as i64;
    let m: i64 = month as i64;
    let d: i64 = day as i64;
    367 * y - 7 * (y + (m + 9) / 12) / 4 + 275 * m / 9 + d + 1721014
}

pub trait DateTimeExt {
    /// The Julian date of the moment, counted in seconds: 86 400 times the
    /// Julian date, whose days begin at noon.
    spec fn julian_seconds(&self) -> int;

    /// The Julian date of the moment, read in UTC and counted in seconds.
    fn to_julian_date(&self) -> (seconds: i64)
        ensures
            seconds == self.julian_seconds(),
    ;
}

impl DateTimeExt for Timestamp {
    open spec fn julian_seconds(&self) -> int {
        let date = civil_of_day(self.utc_seconds() / (SECONDS_PER_DAY as int) + EPOCH_DAY);
        julian_day_number(date.0, date.1, date.2) * SECONDS_PER_DAY + self.utc_seconds() % (
        SECONDS_PER_DAY as int) - SECONDS_PER_DAY / 2
    }

    fn to_julian_date(&self) -> (seconds: i64) {
        let date = self.utc_date();
        let number: i64 = julian_day(date.0, date.1, date.2);
        let second: i64 = floor_mod(self.timestamp(), SECONDS_PER_DAY);
        number * SECONDS_PER_DAY + second - SECONDS_PER_DAY / 2
    }
}

pub trait NaiveTimeExt {
    /// The time of day as a fraction of the day.
    spec fn spec_day_fraction(&self) -> int;

    /// The time of day as a fraction of the day.
    fn day_fraction(&self) -> (fraction: i64)
        ensures
            fraction == self.spec_day_fraction(),
    ;
}

impl NaiveTimeExt for ClockTime {
    open spec fn spec_day_fraction(&self) -> int {
        self@ * UNITS_PER_SECOND
    }

    fn day_fraction(&self) -> (fraction: i64) {
        self.num_seconds_from_midnight() as i64 * UNITS_PER_SECOND
    }
}

} // verus!
