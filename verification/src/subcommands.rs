//! Waiting for an event.
//!
//! The caller owns the clock and the sleep. Each time it has something to
//! report (it is about to start, or its timer has fired) it reads the clock
//! and asks [`wait`] what to do next.

use vstd::prelude::*;
use crate::domain::EventTime;
use crate::errors::{HeliocronError, RuntimeErrorKind};
use crate::sleep::{sleep_until, SleepStep};
use crate::timestamp::{ClockReading, Timestamp};

verus! {

/// Seconds by which a wait may end late without the event counting as
/// missed.
pub const MISSED_TOLERANCE: i64 = 30;

/// Where a wait stands.
#[derive(Clone, Copy, Debug, PartialEq, Eq, Structural)]
pub enum WaitState {
    /// Nothing has been decided yet.
    NotStarted,
    /// The caller sleeps until the moment held here.
    Sleeping(Timestamp),
    /// The wait is over, one way or the other.
    Done,
}

/// What the caller is to do.
#[derive(Debug)]
pub enum WaitAction {
    /// Sleep until `until`, `seconds` from now by the wall clock, and ask
    /// again on waking.
    Sleep { until: Timestamp, seconds: i64 },
    /// The moment has come: go on with the task.
    Run,
    /// Give up with this error; the task is not run.
    Fail(HeliocronError),
}

/// The state after a step and what the caller is to do.
#[derive(Debug)]
pub struct WaitStep {
    pub state: WaitState,
    pub action: WaitAction,
}

/// Whether `until` is the moment `offset` seconds after `event`, at the
/// offset from UTC of `event`.
pub open spec fn is_wait_moment(until: Timestamp, event: Timestamp, offset: int) -> bool {
    &&& until.utc_seconds() == event.utc_seconds() + offset
    &&& until.offset_seconds() == event.offset_seconds()
}

/// Seconds by which the clock has passed `until`, rounded toward zero.
pub open spec fn missed_by(until: Timestamp, now: ClockReading) -> int {
    -now.spec_seconds_until(until)
}

/// The step that `wait` takes before anything has been decided.
pub open spec fn is_first_step(
    event_time: EventTime,
    offset: int,
    now: ClockReading,
    step: WaitStep,
) -> bool {
    match event_time.0 {
        None => {
            &&& step.state is Done
            &&& step.action matches WaitAction::Fail(
                HeliocronError::Runtime(RuntimeErrorKind::NonOccurringEvent),
            )
        },
        Some(event) => {
            if now.spec_seconds() > event.utc_seconds() + offset || (now.spec_seconds()
                == event.utc_seconds() + offset && now.spec_nanos() > 0) {
                &&& step.state is Done
                &&& step.action matches WaitAction::Fail(
                    HeliocronError::Runtime(RuntimeErrorKind::PastEvent(until)),
                )
                &&& is_wait_moment(until, event, offset)
            } else {
                &&& step.action matches WaitAction::Sleep { until, seconds }
                &&& is_wait_moment(until, event, offset)
                &&& seconds == now.spec_seconds_until(until)
                &&& step.state == WaitState::Sleeping(until)
            }
        },
    }
}

/// The step that `wait` takes when the caller has woken from its sleep
/// until `until`.
pub open spec fn is_waking_step(
    until: Timestamp,
    run_missed_task: bool,
    now: ClockReading,
    step: WaitStep,
) -> bool {
    if now.spec_seconds_until(until) >= 0 {
        &&& step.state == WaitState::Sleeping(until)
        &&& step.action matches WaitAction::Sleep { until: again, seconds }
        &&& again == until
        &&& seconds == now.spec_seconds_until(until)
    } else if run_missed_task || missed_by(until, now) <= MISSED_TOLERANCE {
        &&& step.state is Done
        &&& step.action is Run
    } else {
        &&& step.state is Done
        &&& step.action matches WaitAction::Fail(
            HeliocronError::Runtime(RuntimeErrorKind::EventMissed(by)),
        )
        &&& by == missed_by(until, now)
    }
}

/// What `wait` returns in each state.
pub open spec fn is_wait_step(
    event_time: EventTime,
    offset: int,
    run_missed_task: bool,
    state: WaitState,
    now: ClockReading,
    step: WaitStep,
) -> bool {
    match state {
        WaitState::NotStarted => is_first_step(event_time, offset, now, step),
        WaitState::Sleeping(until) => is_waking_step(until, run_missed_task, now, step),
        WaitState::Done => step.state is Done && step.action is Run,
    }
}

/// One step of waiting until `offset` seconds after an event.
///
/// Before the wait has started: an event that does not occur fails the wait,
/// and so does a moment that lies before the present, by however little;
/// otherwise the caller is sent to sleep until the moment. On waking: while
/// the moment has not passed by a whole second the caller is sent back to
/// sleep; after that the task is run if the moment was missed by no more
/// than 30 seconds or `run_missed_task` is set, and the wait fails with the
/// seconds by which it was missed if not.
pub fn wait(
    event_time: EventTime,
    offset: i64,
    run_missed_task: bool,
    state: WaitState,
    now: &ClockReading,
) -> (step: WaitStep)
    requires
        state is NotStarted && event_time.0 is Some ==> Timestamp::valid(
            event_time.0->0.utc_seconds() + offset,
            event_time.0->0.offset_seconds(),
        ),
    ensures
        is_wait_step(event_time, offset as int, run_missed_task, state, *now, step),
{
    match state {
        WaitState::NotStarted => match event_time.0 {
            Some(datetime) => {
                let wait_until = datetime.checked_add_seconds(offset).unwrap();
                if now.is_after(&wait_until) {
                    WaitStep {
                        state: WaitState::Done,
                        action: WaitAction::Fail(
                            HeliocronError::Runtime(RuntimeErrorKind::PastEvent(wait_until)),
                        ),
                    }
                } else {
                    let seconds: i64 = now.seconds_until(&wait_until);
                    WaitStep {
                        state: WaitState::Sleeping(wait_until),
                        action: WaitAction::Sleep { until: wait_until, seconds },
                    }
                }
            },
            None => WaitStep {
                state: WaitState::Done,
                action: WaitAction::Fail(
                    HeliocronError::Runtime(RuntimeErrorKind::NonOccurringEvent),
                ),
            },
        },
        WaitState::Sleeping(wait_until) => match sleep_until(&wait_until, now) {
            SleepStep::Arm(seconds) => WaitStep {
                state: WaitState::Sleeping(wait_until),
                action: WaitAction::Sleep { until: wait_until, seconds },
            },
            SleepStep::Finished => {
                if run_missed_task {
                    WaitStep { state: WaitState::Done, action: WaitAction::Run }
                } else {
                    let missed_by: i64 = -now.seconds_until(&wait_until);
                    if missed_by > MISSED_TOLERANCE {
                        WaitStep {
                            state: WaitState::Done,
                            action: WaitAction::Fail(
                                HeliocronError::Runtime(RuntimeErrorKind::EventMissed(missed_by)),
                            ),
                        }
                    } else {
                        WaitStep { state: WaitState::Done, action: WaitAction::Run }
                    }
                }
            },
        },
        WaitState::Done => WaitStep { state: WaitState::Done, action: WaitAction::Run },
    }
}

} // verus!
