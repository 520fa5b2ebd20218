//! One turn of the polling loop.
//!
//! Each turn the loop asks the three probes, hands their answers and the time
//! to [`poll`], and then does what the returned plan says: log, run the sleep
//! command if the timer fired, and wait before the next turn.

use crate::probe::{idle_prevented_or_default, prevented_or_default};
use crate::timer::{step, TimerEvent, TimerState, Transition};
use crate::trigger::{sleep_trigger, sleep_wanted};
use vstd::prelude::*;

verus! {

/// The pause between two turns of the loop, in seconds.
pub const POLL_INTERVAL_SECONDS: u64 = 1;

/// The extra pause after the sleep command, in seconds. It gives the machine
/// time to suspend, so that the loop does not trigger again right on wake.
pub const COOLDOWN_SECONDS: u64 = 10;

/// The answers of the three probes for one turn.
#[derive(Clone, Copy, Debug, PartialEq, Eq)]
pub struct Readings {
    /// Whether the primary display is asleep.
    pub display_sleeping: bool,
    /// Whether the session is locked.
    pub device_locked: bool,
    /// Whether idle sleep is being prevented, or why that is not known.
    pub idle_prevented: Result<bool, &'static str>,
}

/// What the loop is to do in one turn, in this order.
#[derive(Clone, Copy, Debug, PartialEq, Eq)]
pub struct Plan {
    /// The failure of the idle-sleep-assertion probe to report, if it failed.
    pub probe_error: Option<&'static str>,
    /// What the timer did. On `Fired` the sleep command is to be run.
    pub event: Option<TimerEvent>,
    /// The timer state to bring to the next turn.
    pub state: TimerState,
    /// How long to wait before the next turn, in seconds.
    pub pause_seconds: u64,
}

/// How the sleep command ended.
#[derive(Clone, Copy, Debug, PartialEq, Eq, Structural)]
pub enum CommandOutcome {
    /// The command could not be started.
    NotStarted,
    /// The command ran and ended, with an exit code unless a signal ended it.
    Exited { code: Option<i32> },
}

/// Whether the readings of one turn meet the sleep trigger. A probe that
/// failed to tell whether idle sleep is prevented counts as "not prevented".
pub open spec fn readings_trigger(readings: Readings) -> bool {
    sleep_wanted(
        readings.display_sleeping,
        readings.device_locked,
        prevented_or_default(readings.idle_prevented),
    )
}

/// The failure that a turn reports: that of the probe, if it failed.
pub open spec fn reported_error(readings: Readings) -> Option<&'static str> {
    match readings.idle_prevented {
        Ok(_) => None,
        Err(message) => Some(message),
    }
}

/// The pause that follows a turn with the given event, in seconds: the poll
/// interval, and the cooldown before it if the sleep command was run.
pub open spec fn pause_after(event: Option<TimerEvent>) -> int {
    if event == Some(TimerEvent::Fired) {
        COOLDOWN_SECONDS + POLL_INTERVAL_SECONDS
    } else {
        POLL_INTERVAL_SECONDS as int
    }
}

/// Plans one turn of the loop from the timer state of the turn before, the
/// probes' answers and the time.
///
/// The timer is advanced by one tick on the sleep trigger of the readings. A
/// failure of the idle-sleep-assertion probe is handed back for the log and
/// otherwise treated as "idle sleep is not being prevented".
pub fn poll(state: TimerState, readings: Readings, now: u128) -> (plan: Plan)
    ensures
        (Transition { state: plan.state, event: plan.event }) == step(state, readings_trigger(readings), now),
        plan.probe_error == reported_error(readings),
        plan.pause_seconds == pause_after(plan.event),
        // A failed probe changes nothing but the report.
        readings.idle_prevented is Err ==> readings_trigger(readings) == sleep_wanted(
            readings.display_sleeping,
            readings.device_locked,
            false,
        ),
        readings.idle_prevented is Err <==> plan.probe_error is Some,
        // The machine is put to sleep only while the display is dark, and a
        // display that is awake leaves no count running.
        plan.event == Some(TimerEvent::Fired) ==> readings.display_sleeping,
        !readings.display_sleeping ==> plan.state is Idle,
{
    let probe_error = match readings.idle_prevented {
        Ok(_) => None,
        Err(message) => Some(message),
    };
    let idle_prevented = idle_prevented_or_default(readings.idle_prevented);
    let trigger = sleep_trigger(readings.display_sleeping, readings.device_locked, idle_prevented);
    let transition = state.tick(trigger, now);
    let pause_seconds = match transition.event {
        Some(TimerEvent::Fired) => COOLDOWN_SECONDS + POLL_INTERVAL_SECONDS,
        _ => POLL_INTERVAL_SECONDS,
    };
    Plan { probe_error, event: transition.event, state: transition.state, pause_seconds }
}

/// Whether the sleep command failed: it did unless it ran and ended with exit
/// code zero. The loop does not go on after a failure.
pub fn sleep_command_failed(outcome: CommandOutcome) -> (failed: bool)
    ensures
        failed == (outcome != CommandOutcome::Exited { code: Some(0) }),
{
    match outcome {
        CommandOutcome::NotStarted => true,
        CommandOutcome::Exited { code: None } => true,
        CommandOutcome::Exited { code: Some(code) } => code != 0,
    }
}

} // verus!
