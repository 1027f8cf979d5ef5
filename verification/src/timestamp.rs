//! Moments in time with a fixed offset from UTC, and times of day.
//!
//! A [`Timestamp`] holds whole seconds since the Unix epoch and the offset
//! of its local time in seconds east of UTC. The calendar and the textual
//! forms are chrono's; everything else is arithmetic on seconds.

use vstd::prelude::*;
use crate::decimal::{digit_char, digit_to_char};
use crate::units::{floor_div, floor_mod, SECONDS_PER_DAY};

verus! {

/// The largest distance from the Unix epoch, in seconds, that a timestamp
/// may have: a little over 253 000 years, well inside chrono's range.
pub const MAX_TIMESTAMP: i64 = 8_000_000_000_000;

/// The largest offset from UTC in either direction, in seconds.
pub const MAX_OFFSET: i32 = 86_399;

/// The day number of 1970-01-01, where 0001-01-01 is day 1.
pub const EPOCH_DAY: i64 = 719_163;

/// The largest day number, in either direction, whose civil date is asked
/// for.
pub const MAX_DAY_NUMBER: i32 = 93_400_000;

/// Year, month and day of the proleptic Gregorian calendar for a day number
/// counted from 0001-01-01 as day 1: what chrono's
/// `NaiveDate::from_num_days_from_ce_opt` holds in `year()`, `month()` and
/// `day()`.
pub uninterp spec fn civil_of_day(day: int) -> (int, int, int);

/// The text that chrono's `Display` gives for the moment `seconds` after the
/// Unix epoch at `offset` seconds east of UTC.
pub uninterp spec fn display_of(seconds: int, offset: int) -> Seq<char>;

/// The text that chrono's `to_rfc3339` gives for the moment `seconds` after
/// the Unix epoch at `offset` seconds east of UTC.
pub uninterp spec fn rfc3339_of(seconds: int, offset: int) -> Seq<char>;

/// What chrono reports when a text does not have the form asked for.
#[verifier::external_type_specification]
#[verifier::external_body]
pub struct ExParseError(chrono::ParseError);

/// Seconds from midnight to the time of day that chrono's
/// `NaiveTime::parse_from_str` reads from `text` by `pattern`, where it reads
/// one.
pub uninterp spec fn parsed_time(text: Seq<char>, pattern: Seq<char>) -> Option<int>;

/// The day number, counted from 0001-01-01 as day 1, of the date that
/// chrono's `NaiveDate::parse_from_str` reads from `text` by `pattern`, where
/// it reads one.
pub uninterp spec fn parsed_date(text: Seq<char>, pattern: Seq<char>) -> Option<int>;

/// Seconds east of UTC of the date and time that chrono's
/// `DateTime::parse_from_str` reads from `text` by `pattern`, where it reads
/// one.
pub uninterp spec fn parsed_offset(text: Seq<char>, pattern: Seq<char>) -> Option<int>;

/// Calls `NaiveTime::parse_from_str` and, with `signed_duration_since` and
/// `num_seconds`, counts the seconds from midnight to the time read. The
/// contract names the result and claims that it lies between 0 and 86 400:
/// a time of day has fewer than 86 400 seconds, and a leap second adds one.
#[verifier::external_body]
pub(crate) fn chrono_parse_time(text: &str, pattern: &str) -> (r: Result<i64, chrono::ParseError>)
    ensures
        match r {
            Ok(seconds) => parsed_time(text@, pattern@) == Some(seconds as int) && 0 <= seconds
                <= SECONDS_PER_DAY,
            Err(_) => parsed_time(text@, pattern@) is None,
        },
{
    match chrono::NaiveTime::parse_from_str(text, pattern) {
        Ok(time) => Ok(time.signed_duration_since(chrono::NaiveTime::MIN).num_seconds()),
        Err(error) => Err(error),
    }
}

/// Calls `NaiveDate::parse_from_str` and reads the day number of the date
/// with `num_days_from_ce`. The contract only names the result.
#[verifier::external_body]
pub(crate) fn chrono_parse_date(text: &str, pattern: &str) -> (r: Result<i32, chrono::ParseError>)
    ensures
        match r {
            Ok(day) => parsed_date(text@, pattern@) == Some(day as int),
            Err(_) => parsed_date(text@, pattern@) is None,
        },
{
    match chrono::NaiveDate::parse_from_str(text, pattern) {
        Ok(date) => Ok(chrono::Datelike::num_days_from_ce(&date)),
        Err(error) => Err(error),
    }
}

/// Calls `DateTime::parse_from_str` and reads the offset of the result with
/// `local_minus_utc`. The contract names the result and claims that it is
/// less than a day in either direction, which is all that a `FixedOffset`
/// can hold.
#[verifier::external_body]
pub(crate) fn chrono_parse_offset(text: &str, pattern: &str) -> (r: Result<
    i32,
    chrono::ParseError,
>)
    ensures
        match r {
            Ok(offset) => parsed_offset(text@, pattern@) == Some(offset as int) && -MAX_OFFSET
                <= offset <= MAX_OFFSET,
            Err(_) => parsed_offset(text@, pattern@) is None,
        },
{
    match chrono::DateTime::parse_from_str(text, pattern) {
        Ok(datetime) => Ok(datetime.offset().local_minus_utc()),
        Err(error) => Err(error),
    }
}

/// Calls `NaiveDate::from_num_days_from_ce_opt` and reads `year()`,
/// `month()` and `day()` from the date. The contract names the result and
/// claims that the month lies in 1..=12 and the day in 1..=31, as the
/// documentation of `Datelike` says.
#[verifier::external_body]
fn chrono_civil(day: i32) -> (date: (i32, u32, u32))
    requires
        -MAX_DAY_NUMBER <= day <= MAX_DAY_NUMBER,
    ensures
        (date.0 as int, date.1 as int, date.2 as int) == civil_of_day(day as int),
        1 <= date.1 <= 12,
        1 <= date.2 <= 31,
{
    let date = chrono::NaiveDate::from_num_days_from_ce_opt(day).unwrap();
    (chrono::Datelike::year(&date), chrono::Datelike::month(&date), chrono::Datelike::day(&date))
}

/// Builds the `DateTime<FixedOffset>` with `DateTime::from_timestamp` and
/// `with_timezone` and formats it with its `Display`. The contract only
/// names the result.
#[verifier::external_body]
fn chrono_display(seconds: i64, offset: i32) -> (text: String)
    requires
        Timestamp::valid(seconds as int, offset as int),
    ensures
        text@ == display_of(seconds as int, offset as int),
{
    let zone = chrono::FixedOffset::east_opt(offset).unwrap();
    chrono::DateTime::from_timestamp(seconds, 0).unwrap().with_timezone(&zone).to_string()
}

/// Builds the `DateTime<FixedOffset>` with `DateTime::from_timestamp` and
/// `with_timezone` and formats it with `to_rfc3339`. The contract only names
/// the result.
#[verifier::external_body]
fn chrono_rfc3339(seconds: i64, offset: i32) -> (text: String)
    requires
        Timestamp::valid(seconds as int, offset as int),
    ensures
        text@ == rfc3339_of(seconds as int, offset as int),
{
    let zone = chrono::FixedOffset::east_opt(offset).unwrap();
    chrono::DateTime::from_timestamp(seconds, 0).unwrap().with_timezone(&zone).to_rfc3339()
}

/// A time of day, to the second.
#[derive(Clone, Copy, Debug, PartialEq, Eq, Structural)]
pub struct ClockTime(u32);

impl View for ClockTime {
    type V = int;

    /// Seconds since midnight.
    closed spec fn view(&self) -> int {
        self.0 as int
    }
}

/// The two decimal digits of `n`, for `n` below 100.
pub open spec fn two_digits(n: int) -> Seq<char> {
    seq![digit_char(n / 10), digit_char(n % 10)]
}

/// A time of day as `HH:MM:SS`.
pub open spec fn clock_text(seconds: int) -> Seq<char> {
    two_digits(seconds / 3600) + seq![':'] + two_digits((seconds / 60) % 60) + seq![':']
        + two_digits(seconds % 60)
}

impl ClockTime {
    #[verifier::type_invariant]
    pub closed spec fn inv(self) -> bool {
        self.0 < SECONDS_PER_DAY
    }

    /// The time `hour:min:sec`; `None` unless the hour is below 24 and
    /// minute and second are below 60.
    pub fn from_hms(hour: u32, min: u32, sec: u32) -> (time: Option<ClockTime>)
        ensures
            time is Some <==> hour < 24 && min < 60 && sec < 60,
            time is Some ==> time->0@ == hour * 3600 + min * 60 + sec,
    {
        if hour < 24 && min < 60 && sec < 60 {
            Some(ClockTime(hour * 3600 + min * 60 + sec))
        } else {
            None
        }
    }

    /// The time `seconds` after midnight; `None` from 86 400 on.
    pub fn from_num_seconds_from_midnight(seconds: u32) -> (time: Option<ClockTime>)
        ensures
            time is Some <==> seconds < SECONDS_PER_DAY,
            time is Some ==> time->0@ == seconds,
    {
        if seconds < 86_400 {
            Some(ClockTime(seconds))
        } else {
            None
        }
    }

    /// Seconds since midnight.
    pub fn num_seconds_from_midnight(&self) -> (seconds: u32)
        ensures
            seconds == self@,
            seconds < SECONDS_PER_DAY,
    {
        proof {
            use_type_invariant(self);
        }
        self.0
    }

    pub fn hour(&self) -> (hour: u32)
        ensures
            hour == self@ / 3600,
            hour < 24,
    {
        proof {
            use_type_invariant(self);
        }
        self.0 / 3600
    }

    pub fn minute(&self) -> (minute: u32)
        ensures
            minute == (self@ / 60) % 60,
            minute < 60,
    {
        (self.0 / 60) % 60
    }

    pub fn second(&self) -> (second: u32)
        ensures
            second == self@ % 60,
            second < 60,
    {
        self.0 % 60
    }

    /// The time as `HH:MM:SS`.
    pub fn to_text(&self) -> (text: String)
        ensures
            text@ == clock_text(self@),
    {
        let mut text = String::new();
        let hour: u32 = self.hour();
        let minute: u32 = self.minute();
        let second: u32 = self.second();
        text.push(digit_to_char((hour / 10) as u64));
        text.push(digit_to_char((hour % 10) as u64));
        text.push(':');
        text.push(digit_to_char((minute / 10) as u64));
        text.push(digit_to_char((minute % 10) as u64));
        text.push(':');
        text.push(digit_to_char((second / 10) as u64));
        text.push(digit_to_char((second % 10) as u64));
        proof {
            assert(text@ =~= clock_text(self@));
        }
        text
    }
}

/// Nanoseconds in one second.
pub const NANOS_PER_SECOND: u32 = 1_000_000_000;

/// A reading of the wall clock: whole seconds since the Unix epoch and the
/// nanoseconds of the second under way.
#[derive(Clone, Copy, Debug, PartialEq, Eq, Structural)]
pub struct ClockReading {
    seconds: i64,
    nanos: u32,
}

impl ClockReading {
    #[verifier::type_invariant]
    pub closed spec fn inv(self) -> bool {
        ClockReading::valid(self.seconds as int, self.nanos as int)
    }

    /// The readings that can be held: seconds within the range of
    /// timestamps, nanoseconds below a whole second.
    pub open spec fn valid(seconds: int, nanos: int) -> bool {
        &&& -MAX_TIMESTAMP <= seconds <= MAX_TIMESTAMP
        &&& 0 <= nanos < NANOS_PER_SECOND
    }

    /// Whole seconds since the Unix epoch.
    pub closed spec fn spec_seconds(self) -> int {
        self.seconds as int
    }

    /// Nanoseconds since the last whole second.
    pub closed spec fn spec_nanos(self) -> int {
        self.nanos as int
    }

    /// Whether the value is one that `new` hands out.
    pub open spec fn well_formed(self) -> bool {
        ClockReading::valid(self.spec_seconds(), self.spec_nanos())
    }

    /// The reading of `seconds` and `nanos`; `None` where either is out of
    /// range.
    pub fn new(seconds: i64, nanos: u32) -> (r: Option<ClockReading>)
        ensures
            r is Some <==> ClockReading::valid(seconds as int, nanos as int),
            r is Some ==> r->0.spec_seconds() == seconds && r->0.spec_nanos() == nanos,
    {
        if -MAX_TIMESTAMP <= seconds && seconds <= MAX_TIMESTAMP && nanos < NANOS_PER_SECOND {
            Some(ClockReading { seconds, nanos })
        } else {
            None
        }
    }

    /// Whole seconds since the Unix epoch.
    pub fn seconds(&self) -> (seconds: i64)
        ensures
            seconds == self.spec_seconds(),
            self.well_formed(),
    {
        proof {
            use_type_invariant(self);
        }
        self.seconds
    }

    /// Nanoseconds since the last whole second.
    pub fn nanos(&self) -> (nanos: u32)
        ensures
            nanos == self.spec_nanos(),
            self.well_formed(),
    {
        proof {
            use_type_invariant(self);
        }
        self.nanos
    }

    /// Whether `moment` lies strictly before this reading.
    pub open spec fn spec_is_after(self, moment: Timestamp) -> bool {
        moment.utc_seconds() < self.spec_seconds() || (moment.utc_seconds() == self.spec_seconds()
            && self.spec_nanos() > 0)
    }

    /// Whole seconds from this reading to `moment`, rounded toward zero;
    /// negative where the moment lies a second or more in the past.
    pub open spec fn spec_seconds_until(self, moment: Timestamp) -> int {
        if self.spec_nanos() == 0 || moment.utc_seconds() <= self.spec_seconds() {
            moment.utc_seconds() - self.spec_seconds()
        } else {
            moment.utc_seconds() - self.spec_seconds() - 1
        }
    }

    /// Whether `moment` lies strictly before this reading.
    pub fn is_after(&self, moment: &Timestamp) -> (after: bool)
        ensures
            after == self.spec_is_after(*moment),
    {
        let target: i64 = moment.timestamp();
        target < self.seconds || (target == self.seconds && self.nanos > 0)
    }

    /// Whole seconds from this reading to `moment`, rounded toward zero.
    pub fn seconds_until(&self, moment: &Timestamp) -> (seconds: i64)
        ensures
            seconds == self.spec_seconds_until(*moment),
            self.well_formed(),
            moment.well_formed(),
    {
        proof {
            use_type_invariant(self);
        }
        let target: i64 = moment.timestamp();
        if self.nanos == 0 || target <= self.seconds {
            target - self.seconds
        } else {
            target - self.seconds - 1
        }
    }
}

/// A moment in time, to the second, together with the fixed offset of the
/// local time in which it is read.
#[derive(Clone, Copy, Debug, PartialEq, Eq, Structural)]
pub struct Timestamp {
    seconds: i64,
    offset: i32,
}

impl Timestamp {
    #[verifier::type_invariant]
    pub closed spec fn inv(self) -> bool {
        Timestamp::valid(self.seconds as int, self.offset as int)
    }

    /// The pairs of seconds since the Unix epoch and offset that a timestamp
    /// may hold.
    pub open spec fn valid(seconds: int, offset: int) -> bool {
        &&& -MAX_TIMESTAMP <= seconds <= MAX_TIMESTAMP
        &&& -MAX_OFFSET <= offset <= MAX_OFFSET
    }

    /// Seconds since 1970-01-01T00:00:00 UTC.
    pub closed spec fn utc_seconds(self) -> int {
        self.seconds as int
    }

    /// Seconds that local time is ahead of UTC.
    pub closed spec fn offset_seconds(self) -> int {
        self.offset as int
    }

    /// Whether the value is one that `new` hands out.
    pub open spec fn well_formed(self) -> bool {
        Timestamp::valid(self.utc_seconds(), self.offset_seconds())
    }

    /// Seconds of local civil time since 1970-01-01T00:00:00 local time.
    pub open spec fn local_seconds(self) -> int {
        self.utc_seconds() + self.offset_seconds()
    }

    /// The local calendar day, counted from 1970-01-01 as day 0.
    pub open spec fn local_day(self) -> int {
        self.local_seconds() / (SECONDS_PER_DAY as int)
    }

    /// Seconds since local midnight.
    pub open spec fn second_of_day(self) -> int {
        self.local_seconds() % (SECONDS_PER_DAY as int)
    }

    /// The moment `seconds` after the Unix epoch, read at `offset` seconds
    /// east of UTC; `None` where either is out of range.
    pub fn new(seconds: i64, offset: i32) -> (r: Option<Timestamp>)
        ensures
            r is Some <==> Timestamp::valid(seconds as int, offset as int),
            r is Some ==> r->0.utc_seconds() == seconds && r->0.offset_seconds() == offset,
    {
        if -MAX_TIMESTAMP <= seconds && seconds <= MAX_TIMESTAMP && -MAX_OFFSET <= offset && offset
            <= MAX_OFFSET {
            Some(Timestamp { seconds, offset })
        } else {
            None
        }
    }

    /// Noon of the local day `day`, counted from 1970-01-01 as day 0, at
    /// `offset` seconds east of UTC; `None` where the day or the offset is
    /// out of range.
    pub fn local_noon(day: i64, offset: i32) -> (r: Option<Timestamp>)
        ensures
            r is Some <==> Timestamp::valid(
                day * SECONDS_PER_DAY + SECONDS_PER_DAY / 2 - offset,
                offset as int,
            ),
            r is Some ==> r->0.utc_seconds() == day * SECONDS_PER_DAY + SECONDS_PER_DAY / 2
                - offset && r->0.offset_seconds() == offset,
    {
        if day < -MAX_TIMESTAMP || day > MAX_TIMESTAMP {
            None
        } else {
            Timestamp::new(day * SECONDS_PER_DAY + SECONDS_PER_DAY / 2 - offset as i64, offset)
        }
    }

    /// Two timestamps of the same moment and offset are the same timestamp.
    pub proof fn lemma_same(a: Timestamp, b: Timestamp)
        requires
            a.utc_seconds() == b.utc_seconds(),
            a.offset_seconds() == b.offset_seconds(),
        ensures
            a == b,
    {
    }

    /// Seconds since 1970-01-01T00:00:00 UTC.
    pub fn timestamp(&self) -> (seconds: i64)
        ensures
            seconds == self.utc_seconds(),
            self.well_formed(),
    {
        proof {
            use_type_invariant(self);
        }
        self.seconds
    }

    /// Seconds that local time is ahead of UTC.
    pub fn offset(&self) -> (offset: i32)
        ensures
            offset == self.offset_seconds(),
            self.well_formed(),
    {
        proof {
            use_type_invariant(self);
        }
        self.offset
    }

    /// The local time of day.
    pub fn time(&self) -> (time: ClockTime)
        ensures
            time@ == self.second_of_day(),
    {
        proof {
            use_type_invariant(self);
        }
        let local: i64 = self.seconds + self.offset as i64;
        let second: i64 = floor_mod(local, SECONDS_PER_DAY);
        ClockTime(second as u32)
    }

    /// The local calendar day, counted from 1970-01-01 as day 0.
    pub fn day(&self) -> (day: i64)
        ensures
            day == self.local_day(),
    {
        proof {
            use_type_invariant(self);
        }
        floor_div(self.seconds + self.offset as i64, SECONDS_PER_DAY)
    }

    /// The moment `delta` seconds later (earlier, if negative) at the same
    /// offset; `None` where that lies beyond the range of timestamps.
    pub fn checked_add_seconds(&self, delta: i64) -> (r: Option<Timestamp>)
        ensures
            r is Some <==> Timestamp::valid(self.utc_seconds() + delta, self.offset_seconds()),
            r is Some ==> r->0.utc_seconds() == self.utc_seconds() + delta
                && r->0.offset_seconds() == self.offset_seconds(),
    {
        proof {
            use_type_invariant(self);
        }
        if delta < -2 * MAX_TIMESTAMP || delta > 2 * MAX_TIMESTAMP {
            None
        } else {
            Timestamp::new(self.seconds + delta, self.offset)
        }
    }

    /// Seconds from `earlier` to this moment; negative where this one comes
    /// first.
    pub fn seconds_since(&self, earlier: &Timestamp) -> (seconds: i64)
        ensures
            seconds == self.utc_seconds() - earlier.utc_seconds(),
    {
        proof {
            use_type_invariant(self);
            use_type_invariant(earlier);
        }
        self.seconds - earlier.seconds
    }

    /// Year, month and day of the UTC date.
    pub fn utc_date(&self) -> (date: (i32, u32, u32))
        ensures
            (date.0 as int, date.1 as int, date.2 as int) == civil_of_day(
                self.utc_seconds() / (SECONDS_PER_DAY as int) + EPOCH_DAY,
            ),
            1 <= date.1 <= 12,
            1 <= date.2 <= 31,
    {
        proof {
            use_type_invariant(self);
        }
        let day: i64 = floor_div(self.seconds, SECONDS_PER_DAY) + EPOCH_DAY;
        chrono_civil(day as i32)
    }

    /// Date, time and offset as chrono displays them, such as
    /// `2020-03-25 12:00:00 +00:00`.
    pub fn to_text(&self) -> (text: String)
        ensures
            text@ == display_of(self.utc_seconds(), self.offset_seconds()),
    {
        proof {
            use_type_invariant(self);
        }
        chrono_display(self.seconds, self.offset)
    }

    /// Date, time and offset in the form of RFC 3339, such as
    /// `2020-03-25T12:00:00+00:00`.
    pub fn to_rfc3339(&self) -> (text: String)
        ensures
            text@ == rfc3339_of(self.utc_seconds(), self.offset_seconds()),
    {
        proof {
            use_type_invariant(self);
        }
        chrono_rfc3339(self.seconds, self.offset)
    }
}

} // verus!
