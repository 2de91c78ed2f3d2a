//! The CPU utilization sampler: turns two cumulative CPU-time readings
//! taken a known interval apart into a utilization figure normalized to
//! one core's capacity.
//!
//! A tick is one CPU-millisecond. Utilization in hundredths of a percent
//! is `(curr - prev) * 10000 / (elapsed_ms * cores)`: the consumed CPU
//! time over the wall time, as a percentage, divided by the core count,
//! and clamped to one full core's worth (`10000`) to guard against
//! counter jitter around a saturated machine.

use vstd::prelude::*;

verus! {

/// Utilization that means one fully saturated core, in hundredths of a
/// percent.
pub const FULL_CORE_CENTI_PERCENT: u64 = 10000;

/// The least wall-clock interval, in milliseconds, at which consecutive
/// OS CPU-time readings move meaningfully.
pub const MIN_SAMPLE_INTERVAL_MS: u64 = 200;

/// What the sampler computes: zero when the counter did not advance (or
/// the pid had no baseline and reuse made it appear to run backwards),
/// else the normalized quotient, clamped to one full core.
pub open spec fn cpu_centi_spec(prev_ticks: u64, curr_ticks: u64, elapsed_ms: u64, cores: u32) -> int
    recommends
        elapsed_ms >= 1,
        cores >= 1,
{
    if curr_ticks <= prev_ticks {
        0
    } else {
        let raw = (curr_ticks - prev_ticks) * (FULL_CORE_CENTI_PERCENT as int) / (elapsed_ms * cores);
        if raw > FULL_CORE_CENTI_PERCENT {
            FULL_CORE_CENTI_PERCENT as int
        } else {
            raw
        }
    }
}

/// The sampler never reports a utilization outside one core's capacity.
pub proof fn lemma_cpu_centi_bounded(prev_ticks: u64, curr_ticks: u64, elapsed_ms: u64, cores: u32)
    requires
        elapsed_ms >= 1,
        cores >= 1,
    ensures
        0 <= cpu_centi_spec(prev_ticks, curr_ticks, elapsed_ms, cores) <= FULL_CORE_CENTI_PERCENT,
{
    if curr_ticks > prev_ticks {
        let d = curr_ticks - prev_ticks;
        let den = elapsed_ms * cores;
        assert(den >= 1) by (nonlinear_arith)
            requires
                elapsed_ms >= 1,
                cores >= 1,
                den == elapsed_ms * cores,
        ;
        assert(d * (FULL_CORE_CENTI_PERCENT as int) / den >= 0) by (nonlinear_arith)
            requires
                d >= 0,
                den >= 1,
        ;
    }
}

/// Normalized CPU utilization across one sampling interval, in hundredths
/// of a percent of a single core.
pub fn cpu_centi_percent(prev_ticks: u64, curr_ticks: u64, elapsed_ms: u64, cores: u32) -> (r: u64)
    requires
        elapsed_ms >= 1,
        cores >= 1,
    ensures
        r == cpu_centi_spec(prev_ticks, curr_ticks, elapsed_ms, cores),
        r <= FULL_CORE_CENTI_PERCENT,
{
    proof {
        lemma_cpu_centi_bounded(prev_ticks, curr_ticks, elapsed_ms, cores);
    }
    if curr_ticks <= prev_ticks {
        0
    } else {
        let delta: u64 = curr_ticks - prev_ticks;
        let num: u128 = (delta as u128) * (FULL_CORE_CENTI_PERCENT as u128);
        proof {
            assert(1 <= elapsed_ms as int * cores as int <= u64::MAX as int * u32::MAX as int)
                by (nonlinear_arith)
                requires
                    1 <= elapsed_ms as int <= u64::MAX as int,
                    1 <= cores as int <= u32::MAX as int,
            ;
        }
        let den: u128 = (elapsed_ms as u128) * (cores as u128);
        let q: u128 = num / den;
        if q > FULL_CORE_CENTI_PERCENT as u128 {
            FULL_CORE_CENTI_PERCENT
        } else {
            q as u64
        }
    }
}

} // verus!
