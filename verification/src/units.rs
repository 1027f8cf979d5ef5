//! Fixed-point units shared by the whole library.
//!
//! An angle is a whole number of picodegrees. A fraction of a day is a whole
//! number of picoseconds, so that every whole second of a day and every
//! decimal fraction of up to twelve places is held exactly, and so that one
//! degree of hour angle is exactly [`TIME_UNITS_PER_DEGREE`] units of time.

use vstd::prelude::*;

verus! {

/// Fixed-point units in one degree of arc.
pub const UNITS_PER_DEGREE: i64 = 1_000_000_000_000;

/// Fixed-point units in one second of time.
pub const UNITS_PER_SECOND: i64 = 1_000_000_000_000;

/// Seconds in one civil day.
pub const SECONDS_PER_DAY: i64 = 86_400;

/// Fixed-point units in one civil day.
pub const UNITS_PER_DAY: i64 = 86_400_000_000_000_000;

/// Fixed-point units in one hour.
pub const UNITS_PER_HOUR: i64 = 3_600_000_000_000_000;

/// Fixed-point units in one minute.
pub const UNITS_PER_MINUTE: i64 = 60_000_000_000_000;

/// Units of time that correspond to one unit of hour angle: the earth turns
/// 360 degrees in 86 400 seconds, and both scales have the same number of
/// units per whole.
pub const TIME_UNITS_PER_ANGLE_UNIT: i64 = 240;

/// The sun's centre is this far below the horizon at sunrise and sunset
/// (0.833 degrees: refraction plus the solar radius).
pub const SUNRISE_DEPRESSION: i64 = 833_000_000_000;

/// Depression of the sun at the limits of civil twilight (6 degrees).
pub const CIVIL_DEPRESSION: i64 = 6_000_000_000_000;

/// Depression of the sun at the limits of nautical twilight (12 degrees).
pub const NAUTICAL_DEPRESSION: i64 = 12_000_000_000_000;

/// Depression of the sun at the limits of astronomical twilight (18 degrees).
pub const ASTRONOMICAL_DEPRESSION: i64 = 18_000_000_000_000;

/// A right angle (90 degrees).
pub const RIGHT_ANGLE: i64 = 90_000_000_000_000;

/// A straight angle (180 degrees).
pub const STRAIGHT_ANGLE: i64 = 180_000_000_000_000;

/// The quotient of `a` by `b`, rounded down.
pub fn floor_div(a: i64, b: i64) -> (q: i64)
    requires
        b > 0,
    ensures
        q == a as int / b as int,
{
    if a >= 0 {
        a / b
    } else {
        let m: i64 = -(a + 1);
        proof {
            lemma_floor_of_negative(a as int, b as int);
        }
        -(m / b) - 1
    }
}

/// What is left of `a` after taking out `floor_div(a, b)` times `b`: never
/// negative.
pub fn floor_mod(a: i64, b: i64) -> (r: i64)
    requires
        b > 0,
    ensures
        r == a as int % b as int,
        0 <= r < b,
{
    if a >= 0 {
        a % b
    } else {
        let m: i64 = -(a + 1);
        proof {
            lemma_floor_of_negative(a as int, b as int);
        }
        b - 1 - (m % b)
    }
}

/// Rounding down a negative quotient, in terms of a quotient of numbers that
/// are not negative.
pub proof fn lemma_floor_of_negative(a: int, b: int)
    requires
        a < 0,
        b > 0,
    ensures
        a / b == -((-(a + 1)) / b) - 1,
        a % b == b - 1 - ((-(a + 1)) % b),
{
    let m = -(a + 1);
    let q = m / b;
    let r = m % b;
    assert(m == b * q + r && 0 <= r < b) by {
        vstd::arithmetic::div_mod::lemma_fundamental_div_mod(m, b);
        vstd::arithmetic::div_mod::lemma_mod_bound(m, b);
    }
    assert(a == (-q - 1) * b + (b - 1 - r)) by (nonlinear_arith)
        requires
            m == b * q + r,
            m == -(a + 1),
    ;
    vstd::arithmetic::div_mod::lemma_fundamental_div_mod_converse(a, b, -q - 1, b - 1 - r);
}

/// The quotient of `a` by `b`, rounded toward zero.
pub open spec fn div_toward_zero(a: int, b: int) -> int {
    if a >= 0 {
        a / b
    } else {
        -((-a) / b)
    }
}

/// What is left of `a` after taking out `div_toward_zero(a, b)` times `b`:
/// it has the sign of `a`.
pub open spec fn rem_toward_zero(a: int, b: int) -> int {
    a - b * div_toward_zero(a, b)
}

} // verus!
