//! The termination service: validates a pid against the current process
//! table, issues the kill primitive, and surfaces the outcome as a
//! typed result rather than a log line or a fault.

use vstd::prelude::*;
use crate::accessor::{kill_by_pid, new_system, table_pids};
use crate::record::{TerminationOutcome, TerminationResult};

verus! {

/// Maps what the accessor's kill primitive handed back to the typed
/// outcome: no process found, signal sent, or signal refused. The
/// accessor in use cannot attribute a refusal to missing rights, so a
/// refusal surfaces as `Failed`, never as `PermissionDenied`.
pub fn termination_from_raw(pid: u32, raw: Option<bool>) -> (r: TerminationResult)
    ensures
        r.pid == pid,
        raw is None <==> r.outcome is NotFound,
        raw == Some(true) <==> r.outcome is Killed,
        raw == Some(false) <==> r.outcome is Failed,
{
    let outcome = match raw {
        None => TerminationOutcome::NotFound,
        Some(true) => TerminationOutcome::Killed,
        Some(false) => TerminationOutcome::Failed,
    };
    TerminationResult { pid, outcome }
}

/// Terminates a pid against a given system handle: a pid absent from
/// the handle's table yields `NotFound` and nothing else, an expected
/// outcome rather than a fault; a present pid yields `Killed` or
/// `Failed` as the signal went through or not.
pub fn terminate_in(sys: &sysinfo::System, pid: u32) -> (r: TerminationResult)
    ensures
        r.pid == pid,
        !table_pids(*sys).contains(pid) <==> r.outcome is NotFound,
        table_pids(*sys).contains(pid) ==> r.outcome is Killed || r.outcome is Failed,
{
    let raw = kill_by_pid(sys, pid);
    proof {
        match raw {
            Some(b) => {
                assert(b || !b);
                assert(raw == Some(true) || raw == Some(false));
            },
            None => {},
        }
    }
    termination_from_raw(pid, raw)
}

/// Terminates a process by pid against a fresh reading of the OS
/// process table. Whatever the OS reported, the result names the pid it
/// was asked about, and its outcome is `Killed`, `NotFound` or
/// `Failed`.
pub fn kill_process(pid: u32) -> (r: TerminationResult)
    ensures
        r.pid == pid,
        r.outcome is Killed || r.outcome is NotFound || r.outcome is Failed,
{
    let sys = new_system();
    terminate_in(&sys, pid)
}

} // verus!
