//! What can go wrong: before any calculation (configuration) and while
//! waiting for an event (runtime).

use vstd::prelude::*;
use vstd::string::StringExecFns;
use crate::decimal::{format_integer, integer_text};
use crate::sleep;
use crate::timestamp::{display_of, Timestamp};

verus! {

#[derive(Debug)]
pub enum HeliocronError {
    Config(ConfigErrorKind),
    Runtime(RuntimeErrorKind),
}

#[derive(Debug, Clone, Copy)]
pub enum ConfigErrorKind {
    InvalidCoordindates(&'static str),
    InvalidTomlFile,
    ParseDate,
    ParseAltitude,
    ParseOffset,
    InvalidEvent,
}

impl ConfigErrorKind {
    /// The message of each kind of configuration error.
    pub open spec fn spec_as_str(self) -> Seq<char> {
        match self {
            ConfigErrorKind::InvalidCoordindates(msg) => msg@,
            ConfigErrorKind::InvalidTomlFile => {
                "Error parsing TOML file. Ensure that it is of the correct format."@
            },
            ConfigErrorKind::ParseDate => {
                "Error parsing date. Ensure the date is formatted correctly."@
            },
            ConfigErrorKind::ParseAltitude => {
                "Error parsing altitude. Must be a number between -90.0 and 90.0."@
            },
            ConfigErrorKind::ParseOffset => {
                "Error parsing offset. Expected a string in the format HH:MM:SS or HH:MM."@
            },
            ConfigErrorKind::InvalidEvent => "Error parsing event."@,
        }
    }

    pub fn as_str(&self) -> (message: &str)
        ensures
            message@ == self.spec_as_str(),
    {
        match *self {
            ConfigErrorKind::InvalidCoordindates(msg) => msg,
            ConfigErrorKind::InvalidTomlFile => {
                "Error parsing TOML file. Ensure that it is of the correct format."
            },
            ConfigErrorKind::ParseDate => {
                "Error parsing date. Ensure the date is formatted correctly."
            },
            ConfigErrorKind::ParseAltitude => {
                "Error parsing altitude. Must be a number between -90.0 and 90.0."
            },
            ConfigErrorKind::ParseOffset => {
                "Error parsing offset. Expected a string in the format HH:MM:SS or HH:MM."
            },
            ConfigErrorKind::InvalidEvent => "Error parsing event.",
        }
    }

    /// What a reader is told of a configuration error.
    pub open spec fn spec_text(self) -> Seq<char> {
        match self {
            ConfigErrorKind::InvalidCoordindates(msg) => "Config error: Invalid coordinates - "@
                + msg@,
            _ => "Config error: "@ + self.spec_as_str(),
        }
    }

    /// What a reader is told of a configuration error.
    pub fn to_text(&self) -> (text: String)
        ensures
            text@ == self.spec_text(),
    {
        match self {
            ConfigErrorKind::InvalidCoordindates(msg) => {
                String::from_str("Config error: Invalid coordinates - ").concat(msg)
            },
            _ => String::from_str("Config error: ").concat(self.as_str()),
        }
    }
}

#[derive(Debug)]
pub enum RuntimeErrorKind {
    /// The event does not occur on the day and at the place in question.
    NonOccurringEvent,
    /// The moment to wait for, held here, lay in the past when the wait
    /// began.
    PastEvent(Timestamp),
    /// The wait ended this many seconds after its moment, beyond what is
    /// tolerated.
    EventMissed(i64),
    /// The sleep could not be set up or taken down.
    SleepError(sleep::Error),
}

impl RuntimeErrorKind {
    /// What a reader is told of a runtime error, but for the description of
    /// an error number, which is the operating system's.
    pub open spec fn spec_text(self) -> Seq<char> {
        match self {
            RuntimeErrorKind::NonOccurringEvent => {
                "Runtime error: The chosen event does not occur on this day."@
            },
            RuntimeErrorKind::PastEvent(when) => "Runtime error: The chosen event occurred in the past: "@
                + display_of(when.utc_seconds(), when.offset_seconds())
                + ". Cannot wait a negative amount of time."@,
            RuntimeErrorKind::EventMissed(by) => "Runtime error: Event missed by "@ + integer_text(
                by as int,
            ) + "s"@,
            RuntimeErrorKind::SleepError(sleep::Error::Io(message)) => "Runtime error: "@
                + message@,
            RuntimeErrorKind::SleepError(sleep::Error::Errno(_)) => "Runtime error: "@,
        }
    }

    /// What a reader is told of a runtime error. Where the sleep failed with
    /// an error number, the text goes on with the operating system's
    /// description of it.
    pub fn to_text(&self) -> (text: String)
        ensures
            !(self matches RuntimeErrorKind::SleepError(sleep::Error::Errno(_))) ==> text@
                == self.spec_text(),
            self.spec_text().is_prefix_of(text@),
    {
        match self {
            RuntimeErrorKind::NonOccurringEvent => String::from_str(
                "Runtime error: The chosen event does not occur on this day.",
            ),
            RuntimeErrorKind::PastEvent(when) => {
                let mut text = String::from_str(
                    "Runtime error: The chosen event occurred in the past: ",
                );
                let shown = when.to_text();
                text.append(shown.as_str());
                text.append(". Cannot wait a negative amount of time.");
                text
            },
            RuntimeErrorKind::EventMissed(by) => {
                let mut text = String::from_str("Runtime error: Event missed by ");
                let shown = format_integer(*by);
                text.append(shown.as_str());
                text.append("s");
                text
            },
            RuntimeErrorKind::SleepError(error) => {
                let mut text = String::from_str("Runtime error: ");
                let shown = error.to_text();
                text.append(shown.as_str());
                text
            },
        }
    }
}

impl HeliocronError {
    /// What a reader is told of the error.
    pub open spec fn spec_text(self) -> Seq<char> {
        match self {
            HeliocronError::Config(kind) => kind.spec_text(),
            HeliocronError::Runtime(kind) => kind.spec_text(),
        }
    }

    /// What a reader is told of the error. Where the sleep failed with an
    /// error number, the text goes on with the operating system's
    /// description of it.
    pub fn to_text(&self) -> (text: String)
        ensures
            !(self matches HeliocronError::Runtime(
                RuntimeErrorKind::SleepError(sleep::Error::Errno(_)),
            )) ==> text@ == self.spec_text(),
            self.spec_text().is_prefix_of(text@),
    {
        match self {
            HeliocronError::Config(kind) => kind.to_text(),
            HeliocronError::Runtime(kind) => kind.to_text(),
        }
    }
}

impl From<chrono::ParseError> for HeliocronError {
    fn from(_err: chrono::ParseError) -> (error: Self) {
        HeliocronError::Config(ConfigErrorKind::ParseDate)
    }
}

impl vstd::std_specs::convert::FromSpecImpl<chrono::ParseError> for HeliocronError {
    open spec fn obeys_from_spec() -> bool {
        true
    }

    open spec fn from_spec(_err: chrono::ParseError) -> Self {
        HeliocronError::Config(ConfigErrorKind::ParseDate)
    }
}

impl From<sleep::Error> for HeliocronError {
    fn from(err: sleep::Error) -> (error: Self) {
        HeliocronError::Runtime(RuntimeErrorKind::SleepError(err))
    }
}

impl vstd::std_specs::convert::FromSpecImpl<sleep::Error> for HeliocronError {
    open spec fn obeys_from_spec() -> bool {
        true
    }

    open spec fn from_spec(err: sleep::Error) -> Self {
        HeliocronError::Runtime(RuntimeErrorKind::SleepError(err))
    }
}

} // verus!
