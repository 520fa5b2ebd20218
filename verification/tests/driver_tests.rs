use sleeping_apple::driver::{
    poll, sleep_command_failed, CommandOutcome, Plan, Readings, COOLDOWN_SECONDS, POLL_INTERVAL_SECONDS,
};
use sleeping_apple::probe::{prevent_user_idle_system_sleep, AssertionEntry, AssertionsStatus};
use sleeping_apple::timer::{TimerEvent, TimerState, NANOS_PER_SECOND};

fn secs(n: u128) -> u128 {
    n * NANOS_PER_SECOND
}

fn dark(idle_prevented: Result<bool, &'static str>) -> Readings {
    Readings { display_sleeping: true, device_locked: false, idle_prevented }
}

#[test]
fn intervals() {
    assert_eq!(POLL_INTERVAL_SECONDS, 1);
    assert_eq!(COOLDOWN_SECONDS, 10);
}

#[test]
fn dark_display_starts_the_timer() {
    let plan = poll(TimerState::Idle, dark(Ok(false)), secs(3));
    assert_eq!(
        plan,
        Plan {
            probe_error: None,
            event: Some(TimerEvent::Started),
            state: TimerState::Counting { since: secs(3) },
            pause_seconds: 1,
        }
    );
}

#[test]
fn idle_prevention_holds_the_timer_back() {
    let plan = poll(TimerState::Idle, dark(Ok(true)), secs(3));
    assert_eq!(plan, Plan { probe_error: None, event: None, state: TimerState::Idle, pause_seconds: 1 });
}

#[test]
fn lock_overrides_idle_prevention_in_a_turn() {
    let readings = Readings { display_sleeping: true, device_locked: true, idle_prevented: Ok(true) };
    let plan = poll(TimerState::Idle, readings, secs(3));
    assert_eq!(plan.event, Some(TimerEvent::Started));
    assert_eq!(plan.state, TimerState::Counting { since: secs(3) });
}

#[test]
fn lit_display_cancels_a_count() {
    let readings = Readings { display_sleeping: false, device_locked: true, idle_prevented: Ok(false) };
    let plan = poll(TimerState::Counting { since: 0 }, readings, secs(60));
    assert_eq!(
        plan,
        Plan { probe_error: None, event: Some(TimerEvent::Canceled), state: TimerState::Idle, pause_seconds: 1 }
    );
}

#[test]
fn firing_adds_the_cooldown_to_the_pause() {
    let plan = poll(TimerState::Counting { since: secs(1) }, dark(Ok(false)), secs(6));
    assert_eq!(
        plan,
        Plan { probe_error: None, event: Some(TimerEvent::Fired), state: TimerState::Idle, pause_seconds: 11 }
    );
}

#[test]
fn probe_error_is_reported_and_treated_as_not_prevented() {
    let plan = poll(TimerState::Idle, dark(Err("Key not found")), secs(2));
    assert_eq!(
        plan,
        Plan {
            probe_error: Some("Key not found"),
            event: Some(TimerEvent::Started),
            state: TimerState::Counting { since: secs(2) },
            pause_seconds: 1,
        }
    );
    // Apart from the report the turn goes as with a probe that said "no".
    let quiet = poll(TimerState::Idle, dark(Ok(false)), secs(2));
    assert_eq!(plan.state, quiet.state);
    assert_eq!(plan.event, quiet.event);
    assert_eq!(plan.pause_seconds, quiet.pause_seconds);
}

#[test]
fn probe_error_from_a_failed_request_runs_through_a_turn() {
    let answer = prevent_user_idle_system_sleep(AssertionsStatus { status: 7, table: None });
    let plan = poll(TimerState::Counting { since: 0 }, dark(answer), secs(5));
    assert_eq!(plan.probe_error, Some("IOPMCopyAssertionsStatus failed"));
    assert_eq!(plan.event, Some(TimerEvent::Fired));
    assert_eq!(plan.state, TimerState::Idle);
    assert_eq!(plan.pause_seconds, 11);
}

#[test]
fn active_assertion_from_the_probe_cancels_a_count() {
    let answer = prevent_user_idle_system_sleep(AssertionsStatus {
        status: 0,
        table: Some(AssertionEntry::Number(1)),
    });
    let plan = poll(TimerState::Counting { since: 0 }, dark(answer), secs(9));
    assert_eq!(plan.probe_error, None);
    assert_eq!(plan.event, Some(TimerEvent::Canceled));
    assert_eq!(plan.state, TimerState::Idle);
}

#[test]
fn six_dark_turns_put_the_machine_to_sleep_once() {
    let mut state = TimerState::new();
    let mut fired = Vec::new();
    for i in 0..6u128 {
        let plan = poll(state, dark(Ok(false)), secs(i));
        if plan.event == Some(TimerEvent::Fired) {
            fired.push(i);
        }
        state = plan.state;
    }
    assert_eq!(fired, vec![5]);
    assert_eq!(state, TimerState::Idle);
}

#[test]
fn sleep_command_outcomes() {
    assert!(!sleep_command_failed(CommandOutcome::Exited { code: Some(0) }));
    assert!(sleep_command_failed(CommandOutcome::Exited { code: Some(1) }));
    assert!(sleep_command_failed(CommandOutcome::Exited { code: Some(-1) }));
    assert!(sleep_command_failed(CommandOutcome::Exited { code: None }));
    assert!(sleep_command_failed(CommandOutcome::NotStarted));
}
