//! What the three state probes make of the operating system's answers.
//!
//! The caller asks the operating system and hands over what came back as
//! plain values. Each function here turns one such answer into the fact that
//! the sleep trigger needs. Whatever cannot be found out degrades to the answer
//! that never forces the machine to sleep by mistake of the probe alone: a
//! display that cannot be queried is not asleep, a session whose state is
//! unknown is not locked.

use vstd::prelude::*;

verus! {

/// What the session attribute table held under the lock-state key.
#[derive(Clone, Copy, Debug, PartialEq, Eq, Structural)]
pub enum SessionLookup {
    /// The table could not be obtained.
    NoTable,
    /// The table has no entry under the key.
    KeyAbsent,
    /// The boolean found under the key.
    Value(bool),
}

/// What the power-assertion status table held under the key for assertions
/// that prevent idle system sleep.
#[derive(Clone, Copy, Debug, PartialEq, Eq, Structural)]
pub enum AssertionEntry {
    /// The table has no entry under the key.
    KeyAbsent,
    /// The entry cannot be read as a number.
    NotANumber,
    /// The number found under the key.
    Number(i64),
}

/// What the request for the power-assertion status table brought back.
#[derive(Clone, Copy, Debug, PartialEq, Eq, Structural)]
pub struct AssertionsStatus {
    /// The status code of the request; zero means success.
    pub status: i32,
    /// What the table held, or `None` where the request brought no table to
    /// look into.
    pub table: Option<AssertionEntry>,
}

/// Why the idle-sleep-assertion probe has no answer.
#[derive(Clone, Copy, Debug, PartialEq, Eq, Structural)]
pub enum ProbeFailure {
    /// The request failed or brought no table.
    RequestFailed,
    /// The table has no entry under the expected key.
    KeyNotFound,
    /// The entry is not a number.
    NotANumber,
}

/// The message under which a failure of the probe is reported.
pub open spec fn failure_message(failure: ProbeFailure) -> Seq<char> {
    match failure {
        ProbeFailure::RequestFailed => "IOPMCopyAssertionsStatus failed"@,
        ProbeFailure::KeyNotFound => "Key not found"@,
        ProbeFailure::NotANumber => "Failed to convert CFNumber"@,
    }
}

/// Whether a request that ended with `status` and a table that was or was not
/// missing can be read at all.
pub open spec fn table_usable(status: i32, table_missing: bool) -> bool {
    status == 0 && !table_missing
}

/// What the probe answers to a given reading: whether idle sleep is being
/// prevented, which is so exactly when the number under the key is not zero,
/// or the reason for which that cannot be told.
pub open spec fn idle_sleep_verdict(reading: AssertionsStatus) -> Result<bool, ProbeFailure> {
    if !table_usable(reading.status, reading.table is None) {
        Err(ProbeFailure::RequestFailed)
    } else {
        match reading.table->0 {
            AssertionEntry::KeyAbsent => Err(ProbeFailure::KeyNotFound),
            AssertionEntry::NotANumber => Err(ProbeFailure::NotANumber),
            AssertionEntry::Number(count) => Ok(count != 0),
        }
    }
}

/// Display-sleep probe: the primary display is asleep only if it could be
/// queried and said so.
pub fn is_display_asleep(primary: Option<bool>) -> (asleep: bool)
    ensures
        asleep == (primary == Some(true)),
{
    match primary {
        Some(asleep) => asleep,
        None => false,
    }
}

/// Lock-state probe: the session is locked only if the table was there, had the
/// entry, and the entry was true.
pub fn is_macos_locked(lookup: SessionLookup) -> (locked: bool)
    ensures
        locked == (lookup == SessionLookup::Value(true)),
{
    match lookup {
        SessionLookup::NoTable => false,
        SessionLookup::KeyAbsent => false,
        SessionLookup::Value(locked) => locked,
    }
}

/// Whether the caller may go on to look into the table, given the status code
/// of the request and whether a table came back at all.
pub fn assertions_table_usable(status: i32, table_missing: bool) -> (usable: bool)
    ensures
        usable == table_usable(status, table_missing),
{
    status == 0 && !table_missing
}

/// Idle-sleep-assertion probe: whether some process currently prevents idle
/// system sleep.
///
/// The answer is `Ok` exactly when the request succeeded, a table came back,
/// and the table holds a number under the key; it is then `true` exactly when
/// that number is not zero. Every other reading gives the message of its
/// failure.
pub fn prevent_user_idle_system_sleep(reading: AssertionsStatus) -> (answer: Result<bool, &'static str>)
    ensures
        match idle_sleep_verdict(reading) {
            Ok(prevented) => answer == Ok::<bool, &'static str>(prevented),
            Err(failure) => answer is Err && answer->Err_0@ == failure_message(failure),
        },
        answer is Err <==> (reading.status != 0 || !(reading.table matches Some(AssertionEntry::Number(_)))),
{
    if !assertions_table_usable(reading.status, reading.table.is_none()) {
        return Err("IOPMCopyAssertionsStatus failed");
    }
    match reading.table {
        None => Err("IOPMCopyAssertionsStatus failed"),
        Some(AssertionEntry::KeyAbsent) => Err("Key not found"),
        Some(AssertionEntry::NotANumber) => Err("Failed to convert CFNumber"),
        Some(AssertionEntry::Number(count)) => Ok(count != 0),
    }
}

/// The fact that the sleep trigger is fed when the probe answered `answer`: a
/// probe without an answer counts as "idle sleep is not being prevented".
pub open spec fn prevented_or_default(answer: Result<bool, &'static str>) -> bool {
    match answer {
        Ok(prevented) => prevented,
        Err(_) => false,
    }
}

/// Settles the probe's answer for the sleep trigger. A failure of the probe is
/// taken as "not prevented": missing a real assertion risks an unwanted sleep,
/// which is the lesser harm than a machine that never sleeps.
pub fn idle_prevented_or_default(answer: Result<bool, &'static str>) -> (prevented: bool)
    ensures
        prevented == prevented_or_default(answer),
        answer is Err ==> !prevented,
        prevented <==> answer == Ok::<bool, &'static str>(true),
{
    match answer {
        Ok(prevented) => prevented,
        Err(_) => false,
    }
}

/// Three different failures have three different messages.
pub proof fn lemma_failure_messages_differ(a: ProbeFailure, b: ProbeFailure)
    requires
        a != b,
    ensures
        failure_message(a) != failure_message(b),
{
    reveal_strlit("IOPMCopyAssertionsStatus failed");
    reveal_strlit("Key not found");
    reveal_strlit("Failed to convert CFNumber");
    assert(failure_message(ProbeFailure::RequestFailed).len() == 31);
    assert(failure_message(ProbeFailure::KeyNotFound).len() == 13);
    assert(failure_message(ProbeFailure::NotANumber).len() == 26);
}

} // verus!
