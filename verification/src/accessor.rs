//! The OS process accessor: the narrow trusted boundary behind which the
//! outside system-information crate enumerates processes, reports the
//! core count, and delivers termination signals, plus the two clock
//! primitives a snapshot pass needs. Everything else in the crate is
//! verified against the contracts stated here.

use vstd::prelude::*;
use crate::record::{ProcStatus, RawProcess};

verus! {

#[verifier::external_type_specification]
#[verifier::external_body]
pub struct ExSystem(sysinfo::System);

#[verifier::external_type_specification]
#[verifier::external_body]
pub struct ExProcessStatus(sysinfo::ProcessStatus);

/// The set of pids present in a system handle's last-refreshed process
/// table. Only the trusted items below say anything about it.
pub uninterp spec fn table_pids(sys: sysinfo::System) -> Set<u32>;

/// Relies on sysinfo::System::new_with_specifics: builds a handle and
/// takes a first reading of per-process CPU time and memory.
#[verifier::external_body]
pub(crate) fn new_system() -> (sys: sysinfo::System) {
    sysinfo::System::new_with_specifics(
        sysinfo::RefreshKind::nothing()
            .with_cpu(sysinfo::CpuRefreshKind::everything())
            .with_memory(sysinfo::MemoryRefreshKind::everything())
            .with_processes(sysinfo::ProcessRefreshKind::nothing().with_cpu().with_memory()),
    )
}

/// Relies on sysinfo::System::refresh_specifics: re-reads per-process
/// CPU time and memory from the OS, replacing the handle's table.
#[verifier::external_body]
pub(crate) fn refresh_table(sys: &mut sysinfo::System) {
    sys.refresh_specifics(
        sysinfo::RefreshKind::nothing()
            .with_cpu(sysinfo::CpuRefreshKind::everything())
            .with_memory(sysinfo::MemoryRefreshKind::everything())
            .with_processes(sysinfo::ProcessRefreshKind::nothing().with_cpu().with_memory()),
    );
}

/// Relies on sysinfo::ProcessStatus: each of its variants is mapped to
/// the library's status kind, the platform-specific ones to `Unknown`.
#[verifier::external_body]
pub(crate) fn status_of(s: sysinfo::ProcessStatus) -> ProcStatus {
    match s {
        sysinfo::ProcessStatus::Run => ProcStatus::Running,
        sysinfo::ProcessStatus::Sleep => ProcStatus::Sleeping,
        sysinfo::ProcessStatus::Stop => ProcStatus::Stopped,
        sysinfo::ProcessStatus::Zombie => ProcStatus::Zombie,
        _ => ProcStatus::Unknown,
    }
}

/// Relies on sysinfo::System::processes: the table is keyed by pid, so
/// no pid appears twice in one reading, and the rows read out are
/// exactly the pids of the table. `accumulated_cpu_time` is the
/// process's cumulative CPU time in CPU-milliseconds.
#[verifier::external_body]
pub(crate) fn process_table(sys: &sysinfo::System) -> (r: Vec<RawProcess>)
    ensures
        forall|i: int, j: int| 0 <= i < j < r@.len() ==> r@[i].pid != r@[j].pid,
        forall|i: int| 0 <= i < r@.len() ==> table_pids(*sys).contains(r@[i].pid),
{
    sys.processes()
        .iter()
        .map(|(pid, p)| RawProcess {
            pid: pid.as_u32(),
            name: p.name().to_string_lossy().to_string(),
            memory_bytes: p.memory(),
            cpu_time_ms: p.accumulated_cpu_time(),
            status: status_of(p.status()),
        })
        .collect()
}

/// Relies on sysinfo::System::physical_core_count: the machine's
/// physical core count, or nothing where the platform cannot report it.
#[verifier::external_body]
pub(crate) fn physical_cores() -> (r: Option<usize>) {
    sysinfo::System::physical_core_count()
}

/// Relies on sysinfo::System::process and sysinfo::Process::kill: the
/// lookup finds the pid exactly when it is in the handle's table, and
/// the kill reports whether the termination signal was sent.
#[verifier::external_body]
pub(crate) fn kill_by_pid(sys: &sysinfo::System, pid: u32) -> (r: Option<bool>)
    ensures
        r is None <==> !table_pids(*sys).contains(pid),
{
    sys.process(sysinfo::Pid::from_u32(pid)).map(|p| p.kill())
}

/// Relies on std::time::SystemTime::now: milliseconds since the Unix
/// epoch, read as zero if the clock stands before the epoch.
#[verifier::external_body]
pub(crate) fn now_millis() -> (r: u64) {
    match std::time::SystemTime::now().duration_since(std::time::UNIX_EPOCH) {
        Ok(d) => d.as_millis() as u64,
        Err(_) => 0,
    }
}

/// Relies on std::sync::mpsc::Receiver::recv_timeout: with the sender
/// held open and silent, the call blocks until the timeout elapses.
#[verifier::external_body]
pub(crate) fn sleep_millis(ms: u64) {
    let (tx, rx) = std::sync::mpsc::channel::<()>();
    let _ = rx.recv_timeout(std::time::Duration::from_millis(ms));
    drop(tx);
}

} // verus!
