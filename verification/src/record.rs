//! The value types that the service hands out: process records, the
//! ephemeral CPU samples held between two readings, and the outcome
//! types of termination and environment failures.

use vstd::prelude::*;

verus! {

/// The scheduling state of a process at the time of a reading.
#[derive(Clone, Copy, Debug, PartialEq, Eq, Structural)]
pub enum ProcStatus {
    Running,
    Sleeping,
    Stopped,
    Zombie,
    Unknown,
}

/// One row of a raw OS process-table reading: identity, memory footprint,
/// and the cumulative CPU time consumed so far, in CPU-milliseconds.
#[derive(Clone, Debug)]
pub struct RawProcess {
    pub pid: u32,
    pub name: String,
    pub memory_bytes: u64,
    pub cpu_time_ms: u64,
    pub status: ProcStatus,
}

/// An ephemeral CPU-time sample, held only across the two readings of one
/// snapshot pass and discarded afterwards.
#[derive(Clone, Copy, Debug, PartialEq, Eq, Structural)]
pub struct CpuSample {
    pub pid: u32,
    pub raw_cpu_ticks: u64,
    pub timestamp_ms: u64,
}

/// An immutable snapshot record for one process. `cpu` is utilization in
/// hundredths of one percent of a single core's capacity, so `10000`
/// means one fully saturated core's worth of work.
#[derive(Clone, Debug)]
pub struct Process {
    pub pid: u32,
    pub name: String,
    pub cpu: u64,
    pub mem: u64,
    pub status: ProcStatus,
}

/// How a termination request ended. The accessor in use reports failures
/// it cannot attribute (including missing rights) as `Failed`.
#[derive(Clone, Copy, Debug, PartialEq, Eq, Structural)]
pub enum TerminationOutcome {
    Killed,
    NotFound,
    PermissionDenied,
    Failed,
}

/// The surfaced result of a termination request for one pid.
#[derive(Clone, Copy, Debug, PartialEq, Eq, Structural)]
pub struct TerminationResult {
    pub pid: u32,
    pub outcome: TerminationOutcome,
}

/// A fatal per-call failure: the platform could not report what a
/// snapshot pass needs.
#[derive(Clone, Copy, Debug, PartialEq, Eq, Structural)]
pub enum EnvironmentError {
    CoreCountUnavailable,
}

} // verus!
