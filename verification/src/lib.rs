//! A process snapshot and control service: samples the OS process table,
//! computes normalized per-process CPU utilization across a sampling
//! interval, and exposes a safe termination operation.

pub mod accessor;
pub mod control;
pub mod listener;
pub mod record;
pub mod sampler;
pub mod snapshot;
