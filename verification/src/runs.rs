//! Whole runs of the debounce timer, and what holds of every one of them.
//!
//! A run is a sequence of ticks fed to the timer one after the other. Nothing
//! here is executable: the functions describe runs, and the proofs state what
//! the timer guarantees over any number of ticks.

use crate::timer::{grace_over, step, TimerEvent, TimerState, Transition};
use vstd::prelude::*;

verus! {

/// One reading fed to the timer: whether the trigger held, and when.
#[derive(Clone, Copy, Debug, PartialEq, Eq, Structural)]
pub struct Tick {
    pub trigger: bool,
    pub now: u128,
}

/// The state reached from `state` after all of `ticks`, first to last.
pub open spec fn run(state: TimerState, ticks: Seq<Tick>) -> TimerState
    decreases ticks.len(),
{
    if ticks.len() == 0 {
        state
    } else {
        step(run(state, ticks.drop_last()), ticks.last().trigger, ticks.last().now).state
    }
}

/// The state in which tick number `i` (from zero) finds the timer.
pub open spec fn state_before(state: TimerState, ticks: Seq<Tick>, i: int) -> TimerState {
    run(state, ticks.take(i))
}

/// The event of tick number `i` (from zero) of a run that starts in `state`.
pub open spec fn event_at(state: TimerState, ticks: Seq<Tick>, i: int) -> Option<TimerEvent> {
    step(state_before(state, ticks, i), ticks[i].trigger, ticks[i].now).event
}

/// Whether the trigger holds on every tick from number `from` to number `to`,
/// both included.
pub open spec fn triggered_throughout(ticks: Seq<Tick>, from: int, to: int) -> bool {
    forall|j: int| from <= j <= to ==> (#[trigger] ticks[j]).trigger
}

/// Whether no tick of the sequence has the trigger holding.
pub open spec fn never_triggered(ticks: Seq<Tick>) -> bool {
    forall|j: int| 0 <= j < ticks.len() ==> !(#[trigger] ticks[j]).trigger
}

/// Whether the clock never runs backwards from one tick to the next.
pub open spec fn clock_monotonic(ticks: Seq<Tick>) -> bool {
    forall|i: int, j: int| 0 <= i <= j < ticks.len() ==> (#[trigger] ticks[i]).now <= (#[trigger] ticks[j]).now
}

/// The state after tick number `i` is one step on from the state before it.
pub proof fn lemma_run_step(state: TimerState, ticks: Seq<Tick>, i: int)
    requires
        0 <= i < ticks.len(),
    ensures
        state_before(state, ticks, i + 1) == step(
            state_before(state, ticks, i),
            ticks[i].trigger,
            ticks[i].now,
        ).state,
        state_before(state, ticks, 0) == state,
{
    assert(ticks.take(i + 1).drop_last() =~= ticks.take(i));
    assert(ticks.take(i + 1).last() == ticks[i]);
    assert(ticks.take(0).len() == 0);
}

/// While the trigger holds tick after tick and the grace period has not yet
/// passed since the first of them, the timer keeps counting from that first
/// tick and nothing happens.
proof fn lemma_counting_until_grace(ticks: Seq<Tick>, n: int)
    requires
        0 < n <= ticks.len(),
        triggered_throughout(ticks, 0, n - 1),
        forall|j: int| 0 < j < n ==> !grace_over(ticks[0].now, (#[trigger] ticks[j]).now),
    ensures
        state_before(TimerState::Idle, ticks, n) == (TimerState::Counting { since: ticks[0].now }),
        forall|j: int| 0 < j < n ==> (#[trigger] event_at(TimerState::Idle, ticks, j)) is None,
    decreases n,
{
    lemma_run_step(TimerState::Idle, ticks, n - 1);
    assert(ticks[n - 1].trigger);
    if n > 1 {
        lemma_counting_until_grace(ticks, n - 1);
        assert(!grace_over(ticks[0].now, ticks[n - 1].now));
        assert forall|j: int| 0 < j < n implies (#[trigger] event_at(TimerState::Idle, ticks, j)) is None by {
            if j == n - 1 {
                assert(event_at(TimerState::Idle, ticks, j) is None);
            }
        }
    }
}

/// Debounce: starting idle, with the trigger holding on every tick, nothing
/// fires while less than the grace period has passed since the first tick;
/// the first tick at which the grace period has passed fires; and that tick
/// leaves the timer idle again. So up to and including that tick the action
/// fires exactly once.
///
/// Tick number `k` is the first at which the grace period since tick zero has
/// passed.
pub proof fn lemma_sustained_trigger_fires_once(ticks: Seq<Tick>, k: int)
    requires
        0 < k < ticks.len(),
        triggered_throughout(ticks, 0, k),
        forall|j: int| 0 < j < k ==> !grace_over(ticks[0].now, (#[trigger] ticks[j]).now),
        grace_over(ticks[0].now, ticks[k].now),
    ensures
        event_at(TimerState::Idle, ticks, 0) == Some(TimerEvent::Started),
        forall|j: int| 0 <= j < k ==> (#[trigger] event_at(TimerState::Idle, ticks, j)) != Some(TimerEvent::Fired),
        forall|j: int|
            0 < j <= k ==> (#[trigger] state_before(TimerState::Idle, ticks, j)) == (TimerState::Counting {
                since: ticks[0].now,
            }),
        event_at(TimerState::Idle, ticks, k) == Some(TimerEvent::Fired),
        state_before(TimerState::Idle, ticks, k + 1) == TimerState::Idle,
{
    lemma_run_step(TimerState::Idle, ticks, 0);
    assert(ticks[0].trigger);
    assert forall|j: int| 0 < j <= k implies (#[trigger] state_before(TimerState::Idle, ticks, j)) == (
    TimerState::Counting { since: ticks[0].now }) by {
        assert forall|i: int| 0 < i < j implies !grace_over(ticks[0].now, (#[trigger] ticks[i]).now) by {}
        assert(triggered_throughout(ticks, 0, j - 1));
        lemma_counting_until_grace(ticks, j);
    }
    lemma_counting_until_grace(ticks, k);
    assert forall|j: int| 0 <= j < k implies (#[trigger] event_at(TimerState::Idle, ticks, j)) != Some(
        TimerEvent::Fired,
    ) by {
        if j > 0 {
            assert(event_at(TimerState::Idle, ticks, j) is None);
        }
    }
    lemma_run_step(TimerState::Idle, ticks, k);
    assert(ticks[k].trigger);
}

/// Whenever the timer counts, it counts from a tick of this run on which the
/// trigger started to hold, and the trigger has held on every tick since.
///
/// Returns the number of the tick that set the mark held before tick `n`.
pub proof fn lemma_count_has_origin(ticks: Seq<Tick>, n: int) -> (s: int)
    requires
        0 <= n <= ticks.len(),
        state_before(TimerState::Idle, ticks, n) is Counting,
    ensures
        0 <= s < n,
        state_before(TimerState::Idle, ticks, n) == (TimerState::Counting { since: ticks[s].now }),
        event_at(TimerState::Idle, ticks, s) == Some(TimerEvent::Started),
        triggered_throughout(ticks, s, n - 1),
    decreases n,
{
    if n == 0 {
        // No tick has been taken yet, so the timer is still idle.
        assert(ticks.take(0).len() == 0);
        0
    } else {
        lemma_run_step(TimerState::Idle, ticks, n - 1);
        let before = state_before(TimerState::Idle, ticks, n - 1);
        assert(ticks[n - 1].trigger);
        match before {
            TimerState::Idle => {
                n - 1
            },
            TimerState::Counting { since } => {
                let s = lemma_count_has_origin(ticks, n - 1);
                assert forall|j: int| s <= j <= n - 1 implies (#[trigger] ticks[j]).trigger by {
                    if j < n - 1 {
                        assert(triggered_throughout(ticks, s, n - 2));
                    }
                }
                s
            },
        }
    }
}

/// Nothing fires early: in any run that starts idle, whatever the readings, a
/// tick that fires comes a full grace period after a tick that started the
/// count, with the trigger holding on every tick from the one to the other.
///
/// Returns the number of the tick that started the count which tick `i` ends.
pub proof fn lemma_fire_needs_unbroken_grace(ticks: Seq<Tick>, i: int) -> (s: int)
    requires
        0 <= i < ticks.len(),
        event_at(TimerState::Idle, ticks, i) == Some(TimerEvent::Fired),
    ensures
        0 <= s < i,
        event_at(TimerState::Idle, ticks, s) == Some(TimerEvent::Started),
        triggered_throughout(ticks, s, i),
        grace_over(ticks[s].now, ticks[i].now),
        state_before(TimerState::Idle, ticks, i + 1) == TimerState::Idle,
{
    lemma_run_step(TimerState::Idle, ticks, i);
    let s = lemma_count_has_origin(ticks, i);
    assert forall|j: int| s <= j <= i implies (#[trigger] ticks[j]).trigger by {
        if j < i {
            assert(triggered_throughout(ticks, s, i - 1));
        }
    }
    s
}

/// A tick without the trigger that finds the timer counting resets it to idle
/// and reports a cancellation, not a firing, however old the mark is.
pub proof fn lemma_lost_trigger_cancels(since: u128, now: u128)
    ensures
        step(TimerState::Counting { since }, false, now) == (Transition {
            state: TimerState::Idle,
            event: Some(TimerEvent::Canceled),
        }),
{
}

/// The same at any point of any run: where tick `i` finds the timer counting
/// and comes without the trigger, it cancels the count and leaves the timer
/// idle.
pub proof fn lemma_lost_trigger_cancels_in_run(state: TimerState, ticks: Seq<Tick>, i: int)
    requires
        0 <= i < ticks.len(),
        state_before(state, ticks, i) is Counting,
        !ticks[i].trigger,
    ensures
        event_at(state, ticks, i) == Some(TimerEvent::Canceled),
        state_before(state, ticks, i + 1) == TimerState::Idle,
{
    lemma_run_step(state, ticks, i);
}

/// An idle timer that never sees the trigger stays idle and reports nothing:
/// no tick changes the state, and no tick is a cancellation.
pub proof fn lemma_idle_without_trigger_is_silent(ticks: Seq<Tick>)
    requires
        never_triggered(ticks),
    ensures
        forall|n: int| 0 <= n <= ticks.len() ==> (#[trigger] state_before(TimerState::Idle, ticks, n)) == TimerState::Idle,
        forall|i: int| 0 <= i < ticks.len() ==> (#[trigger] event_at(TimerState::Idle, ticks, i)) is None,
        run(TimerState::Idle, ticks) == TimerState::Idle,
{
    assert forall|n: int| 0 <= n <= ticks.len() implies (#[trigger] state_before(TimerState::Idle, ticks, n))
        == TimerState::Idle by {
        lemma_idle_prefix(ticks, n);
    }
    assert forall|i: int| 0 <= i < ticks.len() implies (#[trigger] event_at(TimerState::Idle, ticks, i)) is None by {
        lemma_idle_prefix(ticks, i);
        assert(!ticks[i].trigger);
    }
    lemma_idle_prefix(ticks, ticks.len() as int);
    assert(ticks.take(ticks.len() as int) =~= ticks);
}

proof fn lemma_idle_prefix(ticks: Seq<Tick>, n: int)
    requires
        never_triggered(ticks),
        0 <= n <= ticks.len(),
    ensures
        state_before(TimerState::Idle, ticks, n) == TimerState::Idle,
    decreases n,
{
    if n == 0 {
        assert(ticks.take(0).len() == 0);
    } else {
        lemma_idle_prefix(ticks, n - 1);
        lemma_run_step(TimerState::Idle, ticks, n - 1);
        assert(!ticks[n - 1].trigger);
    }
}

/// One tick keeps the mark behind the clock: if the mark did not lie after an
/// earlier reading of the clock, the mark held after a tick at `now` does not
/// lie after `now`; and a mark that is still held is the one held before.
pub proof fn lemma_step_keeps_mark_behind_clock(state: TimerState, trigger: bool, earlier: u128, now: u128)
    requires
        state.marked_by(earlier),
        earlier <= now,
    ensures
        step(state, trigger, now).state.marked_by(now),
        state is Counting && step(state, trigger, now).state is Counting ==> step(state, trigger, now).state
            == state,
{
}

/// On a clock that never runs backwards the mark, while one is held, is never
/// later than the tick that has just been taken.
pub proof fn lemma_mark_never_ahead_of_clock(ticks: Seq<Tick>, n: int)
    requires
        clock_monotonic(ticks),
        0 < n <= ticks.len(),
    ensures
        state_before(TimerState::Idle, ticks, n).marked_by(ticks[n - 1].now),
    decreases n,
{
    lemma_run_step(TimerState::Idle, ticks, n - 1);
    if n > 1 {
        lemma_mark_never_ahead_of_clock(ticks, n - 1);
        assert(ticks[n - 2].now <= ticks[n - 1].now);
        lemma_step_keeps_mark_behind_clock(
            state_before(TimerState::Idle, ticks, n - 1),
            ticks[n - 1].trigger,
            ticks[n - 2].now,
            ticks[n - 1].now,
        );
    }
}

} // verus!
