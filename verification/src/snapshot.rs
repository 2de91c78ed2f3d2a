//! The snapshot service: takes two process-table readings at least the
//! minimum sampling interval apart, joins them by pid, and assembles the
//! list of process records with normalized CPU utilization.
//!
//! The assembly is a total, deterministic function of the two readings
//! and the clock values: `build_snapshot` carries an exact contract, and
//! `get_processes` only adds the trusted readings around it.

use vstd::prelude::*;
use crate::accessor::{new_system, now_millis, physical_cores, process_table, refresh_table,
    sleep_millis};
use crate::record::{CpuSample, EnvironmentError, Process, RawProcess};
use crate::sampler::{cpu_centi_percent, cpu_centi_spec, FULL_CORE_CENTI_PERCENT,
    MIN_SAMPLE_INTERVAL_MS};

verus! {

/// The baseline sample for a pid: the first one in the reading that
/// carries it, or nothing for a pid that only appeared afterwards.
pub open spec fn prev_sample(samples: Seq<CpuSample>, pid: u32) -> Option<CpuSample>
    decreases samples.len(),
{
    if samples.len() == 0 {
        None
    } else if samples[0].pid == pid {
        Some(samples[0])
    } else {
        prev_sample(samples.drop_first(), pid)
    }
}

/// Wall time since a sample was taken, read as one millisecond where the
/// clock did not advance, so that the utilization quotient stays defined.
pub open spec fn elapsed_of(now_ms: u64, ts_ms: u64) -> u64 {
    if now_ms > ts_ms {
        (now_ms - ts_ms) as u64
    } else {
        1u64
    }
}

/// The utilization owed to one row of the second reading: zero without a
/// baseline, else the sampler's figure over the baseline and the clock.
pub open spec fn cpu_of(samples: Seq<CpuSample>, raw: RawProcess, now_ms: u64, cores: u32) -> int {
    match prev_sample(samples, raw.pid) {
        None => 0,
        Some(s) => cpu_centi_spec(
            s.raw_cpu_ticks,
            raw.cpu_time_ms,
            elapsed_of(now_ms, s.timestamp_ms),
            cores,
        ),
    }
}

/// One record of a snapshot: identity, memory and status come from the
/// row of the second reading, utilization from the join with the first.
pub open spec fn record_matches(
    p: Process,
    samples: Seq<CpuSample>,
    raw: RawProcess,
    now_ms: u64,
    cores: u32,
) -> bool {
    &&& p.pid == raw.pid
    &&& p.name@ == raw.name@
    &&& p.mem == raw.memory_bytes
    &&& p.status == raw.status
    &&& p.cpu == cpu_of(samples, raw, now_ms, cores)
}

/// A record's utilization never exceeds one core's capacity, whatever
/// the readings and the clock said.
pub proof fn lemma_cpu_of_bounded(samples: Seq<CpuSample>, raw: RawProcess, now_ms: u64, cores: u32)
    requires
        cores >= 1,
    ensures
        0 <= cpu_of(samples, raw, now_ms, cores) <= FULL_CORE_CENTI_PERCENT,
{
    match prev_sample(samples, raw.pid) {
        None => {},
        Some(s) => {
            crate::sampler::lemma_cpu_centi_bounded(
                s.raw_cpu_ticks,
                raw.cpu_time_ms,
                elapsed_of(now_ms, s.timestamp_ms),
                cores,
            );
        },
    }
}

/// A snapshot has exactly one record per row of its reading and keeps
/// each row's name: a non-empty reading whose rows all carry a name
/// yields a non-empty snapshot whose records all carry a name.
pub proof fn lemma_snapshot_keeps_names(
    records: Seq<Process>,
    samples: Seq<CpuSample>,
    second: Seq<RawProcess>,
    now_ms: u64,
    cores: u32,
)
    requires
        records.len() == second.len(),
        forall|i: int| 0 <= i < records.len() ==> record_matches(#[trigger] records[i], samples,
            second[i], now_ms, cores),
        second.len() > 0,
        forall|i: int| 0 <= i < second.len() ==> (#[trigger] second[i].name)@.len() > 0,
    ensures
        records.len() > 0,
        forall|i: int| 0 <= i < records.len() ==> (#[trigger] records[i].name)@.len() > 0,
{
    assert forall|i: int| 0 <= i < records.len() implies (#[trigger] records[i].name)@.len() > 0
        by {
        assert(record_matches(records[i], samples, second[i], now_ms, cores));
        assert(second[i].name@.len() > 0);
    }
}

/// A record's identity is taken from the current reading alone: two
/// snapshots assembled from the same second reading agree on the pid,
/// name, memory and status of every record, whatever baseline samples,
/// clock value and core count each pass used. Only the utilization may
/// differ between repeated passes.
pub proof fn lemma_identity_from_reading(
    r1: Seq<Process>,
    samples1: Seq<CpuSample>,
    now1: u64,
    cores1: u32,
    r2: Seq<Process>,
    samples2: Seq<CpuSample>,
    now2: u64,
    cores2: u32,
    second: Seq<RawProcess>,
)
    requires
        r1.len() == second.len(),
        forall|i: int| 0 <= i < r1.len() ==> record_matches(#[trigger] r1[i], samples1, second[i],
            now1, cores1),
        r2.len() == second.len(),
        forall|i: int| 0 <= i < r2.len() ==> record_matches(#[trigger] r2[i], samples2, second[i],
            now2, cores2),
    ensures
        r1.len() == r2.len(),
        forall|i: int| 0 <= i < r1.len() ==> #[trigger] r1[i].pid == r2[i].pid
            && r1[i].name@ == r2[i].name@ && r1[i].mem == r2[i].mem && r1[i].status == r2[i].status,
{
    assert forall|i: int| 0 <= i < r1.len() implies #[trigger] r1[i].pid == r2[i].pid
        && r1[i].name@ == r2[i].name@ && r1[i].mem == r2[i].mem && r1[i].status == r2[i].status
        by {
        assert(record_matches(r1[i], samples1, second[i], now1, cores1));
        assert(record_matches(r2[i], samples2, second[i], now2, cores2));
    }
}

/// The baseline lookup, executable: the first sample carrying the pid.
pub fn find_prev(samples: &Vec<CpuSample>, pid: u32) -> (r: Option<CpuSample>)
    ensures
        r == prev_sample(samples@, pid),
{
    let mut i: usize = 0;
    proof {
        assert(samples@.skip(0) =~= samples@);
    }
    while i < samples.len()
        invariant
            0 <= i <= samples@.len(),
            prev_sample(samples@, pid) == prev_sample(samples@.skip(i as int), pid),
        decreases samples@.len() - i,
    {
        if samples[i].pid == pid {
            assert(samples@.skip(i as int)[0] == samples@[i as int]);
            return Some(samples[i]);
        }
        proof {
            assert(samples@.skip(i as int).drop_first() =~= samples@.skip(i as int + 1));
        }
        i = i + 1;
    }
    proof {
        assert(samples@.skip(i as int) =~= Seq::<CpuSample>::empty());
    }
    None
}

/// The ephemeral samples of a reading: pid and cumulative CPU time of
/// each row, stamped with the time the reading was taken.
pub fn samples_of(table: &Vec<RawProcess>, timestamp_ms: u64) -> (r: Vec<CpuSample>)
    ensures
        r@.len() == table@.len(),
        forall|i: int| 0 <= i < r@.len() ==> r@[i] == (CpuSample {
            pid: table@[i].pid,
            raw_cpu_ticks: table@[i].cpu_time_ms,
            timestamp_ms,
        }),
{
    let mut r: Vec<CpuSample> = Vec::new();
    let mut i: usize = 0;
    while i < table.len()
        invariant
            0 <= i <= table@.len(),
            r@.len() == i,
            forall|k: int| 0 <= k < i ==> r@[k] == (CpuSample {
                pid: table@[k].pid,
                raw_cpu_ticks: table@[k].cpu_time_ms,
                timestamp_ms,
            }),
        decreases table@.len() - i,
    {
        r.push(CpuSample {
            pid: table[i].pid,
            raw_cpu_ticks: table[i].cpu_time_ms,
            timestamp_ms,
        });
        i = i + 1;
    }
    r
}

/// Assembles the snapshot from the baseline samples, the second reading,
/// the time of the second reading, and the core count. Every row of the
/// second reading yields exactly one record; a pid that exited between
/// the readings has no row and is dropped with it.
pub fn build_snapshot(
    samples: &Vec<CpuSample>,
    second: &Vec<RawProcess>,
    now_ms: u64,
    cores: u32,
) -> (r: Vec<Process>)
    requires
        cores >= 1,
    ensures
        r@.len() == second@.len(),
        forall|i: int| 0 <= i < r@.len() ==> record_matches(r@[i], samples@, second@[i], now_ms,
            cores),
{
    let mut r: Vec<Process> = Vec::new();
    let mut i: usize = 0;
    while i < second.len()
        invariant
            0 <= i <= second@.len(),
            r@.len() == i,
            cores >= 1,
            forall|k: int| 0 <= k < i ==> record_matches(r@[k], samples@, second@[k], now_ms,
                cores),
        decreases second@.len() - i,
    {
        let row = &second[i];
        let cpu: u64 = match find_prev(samples, row.pid) {
            None => 0,
            Some(s) => {
                let elapsed: u64 = if now_ms > s.timestamp_ms {
                    now_ms - s.timestamp_ms
                } else {
                    1
                };
                cpu_centi_percent(s.raw_cpu_ticks, row.cpu_time_ms, elapsed, cores)
            },
        };
        r.push(Process {
            pid: row.pid,
            name: row.name.clone(),
            cpu,
            mem: row.memory_bytes,
            status: row.status,
        });
        i = i + 1;
    }
    r
}

/// Validates a raw physical core count: the service fails fast rather
/// than normalize by zero or by a count it could not read.
pub fn core_count_from_raw(raw: Option<usize>) -> (r: Result<u32, EnvironmentError>)
    ensures
        r is Ok <==> (raw matches Some(c) && 1 <= c <= u32::MAX),
        raw matches Some(c) ==> (1 <= c <= u32::MAX ==> r == Ok::<u32, EnvironmentError>(
            c as u32)),
        r is Err ==> r == Err::<u32, EnvironmentError>(EnvironmentError::CoreCountUnavailable),
{
    match raw {
        Some(c) => {
            if c >= 1 && c <= u32::MAX as usize {
                Ok(c as u32)
            } else {
                Err(EnvironmentError::CoreCountUnavailable)
            }
        },
        None => Err(EnvironmentError::CoreCountUnavailable),
    }
}

/// One full snapshot pass: read the core count (failing fast if the
/// platform cannot report it), take a first reading, block until at
/// least the minimum sampling interval has passed, take a second
/// reading, and assemble the records. Which processes appear depends on
/// the OS alone; whatever it reports, each record's utilization is
/// within one core's capacity and no pid appears twice.
pub fn get_processes() -> (r: Result<Vec<Process>, EnvironmentError>)
    ensures
        r matches Ok(list) ==> forall|i: int| 0 <= i < list@.len() ==> #[trigger] list@[i].cpu
            <= FULL_CORE_CENTI_PERCENT,
        r matches Ok(list) ==> forall|i: int, j: int| 0 <= i < j < list@.len()
            ==> list@[i].pid != list@[j].pid,
        r matches Err(e) ==> e == EnvironmentError::CoreCountUnavailable,
{
    let cores: u32 = match core_count_from_raw(physical_cores()) {
        Ok(c) => c,
        Err(e) => {
            return Err(e);
        },
    };
    let mut sys = new_system();
    let t0 = now_millis();
    let first = process_table(&sys);
    let samples = samples_of(&first, t0);
    let mut now = now_millis();
    let mut rounds: u64 = 0;
    while (now <= t0 || now - t0 < MIN_SAMPLE_INTERVAL_MS) && rounds < 64
        invariant
            rounds <= 64,
        decreases 64 - rounds,
    {
        let waited: u64 = if now > t0 { now - t0 } else { 0 };
        sleep_millis(MIN_SAMPLE_INTERVAL_MS - waited);
        now = now_millis();
        rounds = rounds + 1;
    }
    refresh_table(&mut sys);
    let t1 = now_millis();
    let second = process_table(&sys);
    let list = build_snapshot(&samples, &second, t1, cores);
    proof {
        assert forall|i: int| 0 <= i < list@.len() implies #[trigger] list@[i].cpu
            <= FULL_CORE_CENTI_PERCENT by {
            lemma_cpu_of_bounded(samples@, second@[i], t1, cores);
        }
    }
    Ok(list)
}

} // verus!
