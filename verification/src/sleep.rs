//! Sleeping until a moment of the wall clock.
//!
//! The sleep itself is armed by the caller, against the real-time clock and
//! as often as it is woken; what is decided here is whether the moment has
//! come and, if not, for how many seconds the timer is to be armed.

use vstd::prelude::*;
use crate::timestamp::{ClockReading, Timestamp};

verus! {

/// Why the sleep could not be set up or taken down.
#[derive(Debug)]
pub enum Error {
    /// The operating system refused a timer call, with this error number.
    Errno(i32),
    /// The signal handler could not be installed; the text says why.
    Io(String),
}

/// Formats `errno::Errno` with its `Display`, which asks the operating
/// system to describe the error number. Nothing is claimed of the text.
#[verifier::external_body]
fn errno_description(code: i32) -> (text: String) {
    errno::Errno(code).to_string()
}

impl Error {
    /// The description of the error: of an error number whatever the
    /// operating system says of it, otherwise the text that the error holds.
    pub fn to_text(&self) -> (text: String)
        ensures
            self matches Error::Io(message) ==> text@ == message@,
    {
        match self {
            Error::Errno(code) => errno_description(*code),
            Error::Io(message) => message.clone(),
        }
    }
}

/// What to do next while sleeping until a moment.
#[derive(Clone, Copy, Debug, PartialEq, Eq, Structural)]
pub enum SleepStep {
    /// The moment has passed by a second or more: the sleep is over.
    Finished,
    /// Arm a timer for this many seconds from now, wait for it, and ask
    /// again.
    Arm(i64),
}

/// One step of sleeping until `time`, given the wall clock's reading of the
/// present. The sleep is over once the whole seconds from now to `time`,
/// rounded toward zero, are negative; until then the timer is armed for
/// those seconds, against the clock and not for a span measured once.
pub fn sleep_until(time: &Timestamp, now: &ClockReading) -> (step: SleepStep)
    ensures
        now.spec_seconds_until(*time) < 0 ==> step == SleepStep::Finished,
        now.spec_seconds_until(*time) >= 0 ==> (step matches SleepStep::Arm(seconds) && seconds
            == now.spec_seconds_until(*time)),
        step is Finished <==> now.spec_seconds() > time.utc_seconds(),
{
    let seconds_to_sleep: i64 = now.seconds_until(time);
    if seconds_to_sleep < 0 {
        SleepStep::Finished
    } else {
        SleepStep::Arm(seconds_to_sleep)
    }
}

} // verus!
