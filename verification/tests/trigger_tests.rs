use sleeping_apple::trigger::sleep_trigger;

#[test]
fn trigger_truth_table() {
    // (display_sleeping, device_locked, idle_prevented) -> trigger
    assert_eq!(sleep_trigger(false, false, false), false);
    assert_eq!(sleep_trigger(false, false, true), false);
    assert_eq!(sleep_trigger(false, true, false), false);
    assert_eq!(sleep_trigger(false, true, true), false);
    assert_eq!(sleep_trigger(true, false, false), true);
    assert_eq!(sleep_trigger(true, false, true), false);
    assert_eq!(sleep_trigger(true, true, false), true);
    assert_eq!(sleep_trigger(true, true, true), true);
}

#[test]
fn trigger_matches_formula_on_every_combination() {
    for display_sleeping in [false, true] {
        for device_locked in [false, true] {
            for idle_prevented in [false, true] {
                assert_eq!(
                    sleep_trigger(display_sleeping, device_locked, idle_prevented),
                    display_sleeping && (!idle_prevented || device_locked)
                );
            }
        }
    }
}

#[test]
fn lock_overrides_idle_prevention() {
    assert!(!sleep_trigger(true, false, true));
    assert!(sleep_trigger(true, true, true));
}

#[test]
fn awake_display_never_triggers() {
    assert!(!sleep_trigger(false, true, false));
    assert!(!sleep_trigger(false, true, true));
}
