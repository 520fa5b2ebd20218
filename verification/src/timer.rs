//! The sleep debounce timer.
//!
//! The timer holds at most one mark: the moment at which the sleep trigger was
//! first seen to hold. While the trigger keeps holding the mark stays where it
//! is; once it is a full grace period old the timer fires and forgets it. A
//! single tick without the trigger forgets the mark at once.
//!
//! Time is a plain count of nanoseconds on a monotonic clock whose origin the
//! caller picks (the moment the daemon started, say).

use vstd::prelude::*;

verus! {

/// How long the trigger must hold without a break before the timer fires.
pub const SLEEP_AFTER_SECONDS: u64 = 5;

/// Nanoseconds in one second.
pub const NANOS_PER_SECOND: u128 = 1_000_000_000;

/// The grace period in nanoseconds.
pub const SLEEP_AFTER_NANOS: u128 = 5_000_000_000;

/// The state of the timer between two ticks.
#[derive(Clone, Copy, Debug, PartialEq, Eq, Structural)]
pub enum TimerState {
    /// No mark is held.
    Idle,
    /// The trigger has held on every tick since the moment `since`.
    Counting { since: u128 },
}

/// What a tick did, for the caller to act on and to log.
#[derive(Clone, Copy, Debug, PartialEq, Eq, Structural)]
pub enum TimerEvent {
    /// The trigger was seen for the first time and the mark was set.
    Started,
    /// The grace period is over: the machine is to be put to sleep now.
    Fired,
    /// The trigger went away while a count was in progress.
    Canceled,
}

/// The result of one tick: the state to carry into the next tick, and the
/// event of this one, if there was any.
#[derive(Clone, Copy, Debug, PartialEq, Eq, Structural)]
pub struct Transition {
    pub state: TimerState,
    pub event: Option<TimerEvent>,
}

/// The time that has passed from `since` to `now`. A clock that seems to have
/// run backwards counts as no time at all.
pub open spec fn elapsed(since: u128, now: u128) -> nat {
    if now >= since {
        (now - since) as nat
    } else {
        0
    }
}

/// Whether a mark set at `since` is a full grace period old at `now`.
pub open spec fn grace_over(since: u128, now: u128) -> bool {
    elapsed(since, now) >= SLEEP_AFTER_SECONDS as nat * NANOS_PER_SECOND as nat
}

/// The transition relation of the timer.
pub open spec fn step(state: TimerState, trigger: bool, now: u128) -> Transition {
    match state {
        TimerState::Idle => if trigger {
            Transition { state: TimerState::Counting { since: now }, event: Some(TimerEvent::Started) }
        } else {
            Transition { state: TimerState::Idle, event: None }
        },
        TimerState::Counting { since } => if !trigger {
            Transition { state: TimerState::Idle, event: Some(TimerEvent::Canceled) }
        } else if grace_over(since, now) {
            Transition { state: TimerState::Idle, event: Some(TimerEvent::Fired) }
        } else {
            Transition { state: TimerState::Counting { since }, event: None }
        },
    }
}

impl TimerState {
    /// The state at process start: no mark.
    pub fn new() -> (state: TimerState)
        ensures
            state == TimerState::Idle,
    {
        TimerState::Idle
    }

    /// Whether a count is in progress.
    pub fn is_counting(&self) -> (counting: bool)
        ensures
            counting == (*self is Counting),
    {
        match self {
            TimerState::Idle => false,
            TimerState::Counting { .. } => true,
        }
    }

    /// The mark, if one is held.
    pub fn since(&self) -> (mark: Option<u128>)
        ensures
            mark == (match *self {
                TimerState::Idle => None::<u128>,
                TimerState::Counting { since } => Some(since),
            }),
    {
        match self {
            TimerState::Idle => None,
            TimerState::Counting { since } => Some(*since),
        }
    }

    /// The mark, when there is one, does not lie after `now`.
    pub open spec fn marked_by(&self, now: u128) -> bool {
        match *self {
            TimerState::Idle => true,
            TimerState::Counting { since } => since <= now,
        }
    }

    /// Advances the timer by one tick taken at `now`.
    ///
    /// From `Idle` a tick with the trigger sets the mark to `now`. While
    /// counting, a tick with the trigger fires once the mark is a grace period
    /// old and leaves the mark alone before that. A tick without the trigger
    /// always ends in `Idle`, and reports a cancellation only if a count was in
    /// progress.
    pub fn tick(self, trigger: bool, now: u128) -> (t: Transition)
        ensures
            t == step(self, trigger, now),
            // The action fires only on a trigger, out of a count that is a
            // grace period old, and leaves the timer idle.
            t.event == Some(TimerEvent::Fired) <==> (trigger && self is Counting && grace_over(
                self->since,
                now,
            )),
            t.event == Some(TimerEvent::Fired) ==> t.state is Idle,
            // Without the trigger the timer is idle afterwards and never fires.
            !trigger ==> t.state is Idle && t.event != Some(TimerEvent::Fired),
            // A cancellation is reported only when a count was in progress.
            t.event == Some(TimerEvent::Canceled) <==> (!trigger && self is Counting),
            // A mark is set only out of `Idle`, and at `now`.
            t.event == Some(TimerEvent::Started) <==> (trigger && self is Idle),
            t.event == Some(TimerEvent::Started) ==> t.state == (TimerState::Counting { since: now }),
            // A mark that survives the tick has not moved.
            self is Counting && t.state is Counting ==> t.state == self,
    {
        match self {
            TimerState::Idle => {
                if trigger {
                    Transition { state: TimerState::Counting { since: now }, event: Some(TimerEvent::Started) }
                } else {
                    Transition { state: TimerState::Idle, event: None }
                }
            },
            TimerState::Counting { since } => {
                if !trigger {
                    Transition { state: TimerState::Idle, event: Some(TimerEvent::Canceled) }
                } else if has_grace_passed(since, now) {
                    Transition { state: TimerState::Idle, event: Some(TimerEvent::Fired) }
                } else {
                    Transition { state: TimerState::Counting { since }, event: None }
                }
            },
        }
    }
}

/// Whether a mark set at `since` is a full grace period old at `now`.
pub fn has_grace_passed(since: u128, now: u128) -> (over: bool)
    ensures
        over == grace_over(since, now),
        over <==> now as int - since as int >= 5_000_000_000,
{
    now >= since && now - since >= SLEEP_AFTER_NANOS
}

} // verus!
