//! The condition under which the machine should be heading for sleep.

use vstd::prelude::*;

verus! {

/// The sleep trigger: the display is dark, and either nothing asks for the
/// system to stay awake or the session is locked. A lock counts as the user's
/// own wish to let the machine sleep, so it overrides any idle-sleep assertion
/// that a background process may hold.
pub open spec fn sleep_wanted(display_sleeping: bool, device_locked: bool, idle_prevented: bool) -> bool {
    display_sleeping && (!idle_prevented || device_locked)
}

/// Evaluates the sleep trigger for one tick.
pub fn sleep_trigger(display_sleeping: bool, device_locked: bool, idle_prevented: bool) -> (wanted: bool)
    ensures
        wanted == sleep_wanted(display_sleeping, device_locked, idle_prevented),
        !display_sleeping ==> !wanted,
        display_sleeping && device_locked ==> wanted,
        display_sleeping && !device_locked ==> wanted == !idle_prevented,
{
    display_sleeping && (!idle_prevented || device_locked)
}

} // verus!
