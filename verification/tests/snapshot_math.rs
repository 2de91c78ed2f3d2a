use procmon::listener::{ProcessListener, DEFAULT_PERIOD_MS};
use procmon::record::{CpuSample, EnvironmentError, ProcStatus, RawProcess, TerminationOutcome};
use procmon::sampler::cpu_centi_percent;
use procmon::snapshot::{build_snapshot, core_count_from_raw, find_prev, samples_of};
use procmon::control::termination_from_raw;

fn raw(pid: u32, name: &str, mem: u64, ticks: u64, status: ProcStatus) -> RawProcess {
    RawProcess {
        pid,
        name: name.to_string(),
        memory_bytes: mem,
        cpu_time_ms: ticks,
        status,
    }
}

fn sample(pid: u32, ticks: u64, ts: u64) -> CpuSample {
    CpuSample { pid, raw_cpu_ticks: ticks, timestamp_ms: ts }
}

#[test]
fn sampler_exact_conversion() {
    // Ticks 100 -> 150 over 200 ms of wall time on a 4-core machine:
    // 50 CPU-ms / 200 ms = 25%, normalized by 4 cores = 6.25%.
    assert_eq!(cpu_centi_percent(100, 150, 200, 4), 625);
}

#[test]
fn sampler_idle_and_reversed_counters() {
    assert_eq!(cpu_centi_percent(150, 150, 200, 4), 0);
    assert_eq!(cpu_centi_percent(200, 150, 200, 4), 0);
}

#[test]
fn sampler_clamps_to_one_core() {
    assert_eq!(cpu_centi_percent(0, u64::MAX, 1, 1), 10000);
    assert_eq!(cpu_centi_percent(0, 801, 200, 4), 10000);
    assert_eq!(cpu_centi_percent(0, 800, 200, 4), 10000);
    assert_eq!(cpu_centi_percent(0, 799, 200, 4), 9987);
}

#[test]
fn snapshot_joins_by_pid() {
    let samples = vec![sample(42, 100, 0), sample(7, 1000, 0)];
    let second = vec![
        raw(42, "worker", 4096, 150, ProcStatus::Running),
        raw(7, "idler", 512, 1000, ProcStatus::Sleeping),
    ];
    let records = build_snapshot(&samples, &second, 200, 4);
    assert_eq!(records.len(), 2);
    assert_eq!(records[0].pid, 42);
    assert_eq!(records[0].name, "worker");
    assert_eq!(records[0].mem, 4096);
    assert_eq!(records[0].status, ProcStatus::Running);
    assert_eq!(records[0].cpu, 625);
    assert_eq!(records[1].pid, 7);
    assert_eq!(records[1].cpu, 0);
}

#[test]
fn snapshot_new_pid_has_no_baseline() {
    let samples = vec![sample(1, 100, 0)];
    let second = vec![raw(99, "fresh", 64, 5000, ProcStatus::Running)];
    let records = build_snapshot(&samples, &second, 200, 2);
    assert_eq!(records.len(), 1);
    assert_eq!(records[0].pid, 99);
    assert_eq!(records[0].cpu, 0);
}

#[test]
fn snapshot_drops_exited_pid() {
    let samples = vec![sample(1, 100, 0), sample(2, 100, 0)];
    let second = vec![raw(2, "survivor", 64, 120, ProcStatus::Running)];
    let records = build_snapshot(&samples, &second, 200, 1);
    assert_eq!(records.len(), 1);
    assert!(records.iter().all(|p| p.pid != 1));
}

#[test]
fn snapshot_clock_stall_counts_as_one_millisecond() {
    // The second reading carries an earlier clock than the sample: the
    // elapsed time is read as 1 ms and the quotient clamps to one core.
    let samples = vec![sample(3, 100, 500)];
    let second = vec![raw(3, "busy", 64, 150, ProcStatus::Running)];
    let records = build_snapshot(&samples, &second, 400, 1);
    assert_eq!(records[0].cpu, 10000);
}

#[test]
fn snapshot_identity_from_second_reading_alone() {
    // Identity fields must not depend on the baseline samples or the
    // clock: only the utilization may differ between the two passes.
    let second = vec![
        raw(10, "stable", 2048, 700, ProcStatus::Sleeping),
        raw(11, "also-stable", 1024, 900, ProcStatus::Zombie),
    ];
    let a = build_snapshot(&vec![sample(10, 100, 0)], &second, 250, 2);
    let b = build_snapshot(&vec![sample(11, 850, 40)], &second, 300, 8);
    assert_eq!(a.len(), b.len());
    for (x, y) in a.iter().zip(b.iter()) {
        assert_eq!(x.pid, y.pid);
        assert_eq!(x.name, y.name);
        assert_eq!(x.mem, y.mem);
        assert_eq!(x.status, y.status);
    }
    assert_ne!(a[0].cpu, b[0].cpu);
}

#[test]
fn samples_project_reading() {
    let table = vec![raw(5, "a", 1, 111, ProcStatus::Running), raw(6, "b", 2, 222,
        ProcStatus::Stopped)];
    let s = samples_of(&table, 77);
    assert_eq!(s.len(), 2);
    assert_eq!(s[0], sample(5, 111, 77));
    assert_eq!(s[1], sample(6, 222, 77));
    assert_eq!(find_prev(&s, 6), Some(sample(6, 222, 77)));
    assert_eq!(find_prev(&s, 8), None);
}

#[test]
fn core_count_validation() {
    assert_eq!(core_count_from_raw(None), Err(EnvironmentError::CoreCountUnavailable));
    assert_eq!(core_count_from_raw(Some(0)), Err(EnvironmentError::CoreCountUnavailable));
    assert_eq!(core_count_from_raw(Some(8)), Ok(8));
    assert_eq!(core_count_from_raw(Some(1)), Ok(1));
}

#[test]
fn termination_outcome_mapping() {
    let r = termination_from_raw(12, None);
    assert_eq!(r.pid, 12);
    assert_eq!(r.outcome, TerminationOutcome::NotFound);
    assert_eq!(termination_from_raw(12, Some(true)).outcome, TerminationOutcome::Killed);
    assert_eq!(termination_from_raw(12, Some(false)).outcome, TerminationOutcome::Failed);
}

#[test]
fn listener_lifecycle() {
    let mut l = ProcessListener::new();
    assert_eq!(l.period_ms, DEFAULT_PERIOD_MS);
    assert!(!l.should_poll());
    assert!(l.start());
    assert!(l.should_poll());
    assert!(!l.start());
    assert!(l.should_poll());
    l.stop();
    assert!(!l.should_poll());
    l.stop();
    assert!(!l.should_poll());
    assert!(!l.start());
    assert!(!l.should_poll());
}

#[test]
fn listener_custom_period() {
    let l = ProcessListener::with_period(1000);
    assert_eq!(l.period_ms, 1000);
    assert!(!l.should_poll());
}
