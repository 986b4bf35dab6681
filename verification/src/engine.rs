//! The stress engine's shared cells and the loop that one worker runs.
//!
//! A run shares two cells among its workers: a stop flag, which is only ever set,
//! and an aggregate score, to which each worker adds its own score once, when it
//! has stopped. Both are atomics of the standard library; what they hold at a given
//! moment depends on the other threads, so the contracts here speak of the worker's
//! own state and leave the cells' contents open.

use crate::workload::{max_iterations, Poll, Worker};
use std::sync::atomic::{AtomicBool, AtomicU64, Ordering};
use std::sync::Arc;
use std::time::{Duration, Instant};
use vstd::prelude::*;

verus! {

/// `std::time::Instant`, a point on the monotonic clock. Nothing inside it is
/// visible to the proofs.
#[verifier::external_type_specification]
#[verifier::external_body]
pub struct ExInstant(Instant);

/// `std::time::Instant::elapsed`: the time that has passed since the instant was
/// taken. The result depends on the clock, so nothing is claimed about it.
pub assume_specification[ Instant::elapsed ](start: &Instant) -> (passed: Duration);

/// `std::time::Duration::as_secs`: the whole seconds of a duration. The duration is
/// opaque to the proofs, so nothing is claimed about the number.
pub assume_specification[ Duration::as_secs ](span: &Duration) -> (secs: u64);

/// The handle by which a run is stopped early. Clones share one stop flag.
#[derive(Clone)]
pub struct CpuExplosion {
    pub stop_signal: Arc<AtomicBool>,
}

impl CpuExplosion {
    /// A handle whose stop flag has not been set.
    pub fn new() -> (engine: CpuExplosion) {
        CpuExplosion { stop_signal: Arc::new(AtomicBool::new(false)) }
    }

    /// Asks every worker that shares this flag to stop. Setting a flag that is
    /// already set changes nothing.
    pub fn cancel(&self) {
        self.stop_signal.store(true, Ordering::Relaxed);
    }

    /// Reads the stop flag.
    pub fn is_cancelled(&self) -> (set: bool) {
        self.stop_signal.load(Ordering::Relaxed)
    }
}

/// Runs one worker until it halts and returns it.
///
/// On each pass the worker looks at the stop flag and, if that is not set, at the
/// seconds that have passed since `start_time`. The worker that finds `duration`
/// reached sets the stop flag for the others. How many iterations the worker gets
/// done depends on the clock and on the other threads; a run of no duration gets
/// none done.
pub fn run_worker(start_time: &Instant, duration: u64, stop_signal: &AtomicBool) -> (worker: Worker)
    ensures
        worker.wf(),
        worker@.halted,
        worker@.iterations <= max_iterations(),
        duration == 0 ==> worker@.iterations == 0,
{
    let mut worker = Worker::new();
    loop
        invariant_except_break
            !worker@.halted,
        invariant
            worker.wf(),
            worker@.iterations <= max_iterations(),
            duration == 0 ==> worker@.iterations == 0,
        ensures
            worker@.halted,
        decreases max_iterations() - worker@.iterations,
    {
        let stop_observed = stop_signal.load(Ordering::Relaxed);
        let elapsed_secs: u64 = if stop_observed {
            0
        } else {
            start_time.elapsed().as_secs()
        };
        match worker.poll(stop_observed, elapsed_secs, duration) {
            Poll::Advanced => {},
            Poll::Halted { raise_flag } => {
                if raise_flag {
                    stop_signal.store(true, Ordering::Relaxed);
                }
                break ;
            },
        }
    }
    worker
}

/// The body of one stress worker: runs the workload until the stop flag is seen or
/// `duration` seconds have passed since `start_time`, then adds the worker's score
/// to the aggregate `score`.
pub fn fibonnaci_compute_blocking(
    start_time: Arc<Instant>,
    duration: u64,
    score: Arc<AtomicU64>,
    stop_signal: Arc<AtomicBool>,
) {
    let worker = run_worker(&start_time, duration, &stop_signal);
    score.fetch_add(worker.units(), Ordering::Relaxed);
}

} // verus!
