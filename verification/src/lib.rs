//! CPU stress benchmarking for a chosen duration and number of cores.
//!
//! The library holds the two parts of the tool that decide anything. The stress
//! engine: the workload that one worker advances ([`workload`]), the loop that a
//! worker runs over the shared stop flag and aggregate score ([`engine`]), the
//! handle of a run in flight ([`handle`]) and what holds of a run of several
//! workers ([`run`]). And the session: the state machine that leads from the
//! configuration form through the run to its result ([`session`], with its laws in
//! [`session_laws`]), the validation of the typed duration ([`config`]), the mean
//! of a telemetry sample ([`telemetry`]) and the sliding window of the live chart
//! ([`chart`]).
//!
//! Reading keys, clocks and system counters, drawing, and starting the tasks of a
//! run are left to the caller.

pub mod chart;
pub mod config;
pub mod engine;
pub mod handle;
pub mod run;
pub mod session;
pub mod session_laws;
pub mod telemetry;
pub mod text;
pub mod workload;

pub use engine::{fibonnaci_compute_blocking, CpuExplosion};
pub use telemetry::{avg_percent_usage_cpu, CpuUsage};
