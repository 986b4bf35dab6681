//! The handle of an engine in flight.
//!
//! A run is started as a task of the runtime and not waited for. What the session's
//! caller keeps of it is a handle: it can ask without blocking whether the task has
//! finished, and it can stop the run early by setting the stop flag and aborting
//! the task. Stopping when no run is in flight, or stopping twice, does nothing.

use crate::engine::CpuExplosion;
use std::sync::atomic::AtomicBool;
use std::sync::Arc;
use tokio::task::{JoinError, JoinHandle};
use vstd::prelude::*;

verus! {

/// `tokio::task::JoinHandle`, the owner's end of a spawned task. Nothing inside it
/// is visible to the proofs.
#[verifier::external_type_specification]
#[verifier::external_body]
#[verifier::reject_recursive_types(T)]
pub struct ExJoinHandle<T>(JoinHandle<T>);

/// `tokio::task::JoinError`, the failure with which a task ends that was aborted or
/// has panicked. It is named by the handle's type and never looked into.
#[verifier::external_type_specification]
#[verifier::external_body]
pub struct ExJoinError(JoinError);

/// `tokio::task::JoinHandle::is_finished`: whether the task has finished. The
/// answer depends on the scheduler, so nothing is claimed about it.
pub assume_specification<T>[ JoinHandle::<T>::is_finished ](task: &JoinHandle<T>) -> (finished: bool);

/// `tokio::task::JoinHandle::abort`: asks the runtime to abort the task. The call
/// returns at once, whatever has become of the task.
pub assume_specification<T>[ JoinHandle::<T>::abort ](task: &JoinHandle<T>);

/// `Arc::clone`: another pointer to the same allocation. The new pointer stands for
/// the very cell that the old one stands for, so the two are equal.
#[verifier::external_body]
fn share_flag(flag: &Arc<AtomicBool>) -> (shared: Arc<AtomicBool>)
    ensures
        shared == *flag,
{
    Arc::clone(flag)
}

/// The engine of a session and, while a run is in flight, the task that runs it.
pub struct EngineHandle {
    engine: CpuExplosion,
    task: Option<JoinHandle<u64>>,
}

impl EngineHandle {
    /// The task that is held, if a run is in flight.
    pub closed spec fn task(&self) -> Option<JoinHandle<u64>> {
        self.task
    }

    /// The stop flag of the engine that is held.
    pub closed spec fn stop_signal(&self) -> Arc<AtomicBool> {
        self.engine.stop_signal
    }

    /// Whether a run is in flight: a task was attached and has neither been handed
    /// back as finished nor been cancelled.
    pub open spec fn outstanding(&self) -> bool {
        self.task() is Some
    }

    /// A fresh engine with nothing in flight.
    pub fn new() -> (handle: EngineHandle)
        ensures
            handle.task() is None,
    {
        EngineHandle { engine: CpuExplosion::new(), task: None }
    }

    /// The engine, for the task that is to run it: a second handle on the stop
    /// flag that this handle holds, so that what is set through the one is seen
    /// through the other.
    pub fn engine(&self) -> (engine: CpuExplosion)
        ensures
            engine.stop_signal == self.stop_signal(),
    {
        CpuExplosion { stop_signal: share_flag(&self.engine.stop_signal) }
    }

    /// Whether a run is in flight.
    pub fn is_outstanding(&self) -> (outstanding: bool)
        ensures
            outstanding == self.outstanding(),
    {
        self.task.is_some()
    }

    /// Keeps the task of a run that was just started. A task that was still held
    /// is let go of.
    pub fn attach(&mut self, task: JoinHandle<u64>)
        ensures
            final(self).task() == Some(task),
            final(self).stop_signal() == old(self).stop_signal(),
    {
        self.task = Some(task);
    }

    /// Hands the task in flight over if `finished` says that it has finished, and
    /// keeps it if not. With nothing in flight there is nothing to hand over.
    pub fn hand_over(&mut self, finished: bool) -> (handed: Option<JoinHandle<u64>>)
        ensures
            handed == if finished {
                old(self).task()
            } else {
                None
            },
            final(self).task() == if finished {
                None
            } else {
                old(self).task()
            },
            final(self).stop_signal() == old(self).stop_signal(),
    {
        if finished {
            self.task.take()
        } else {
            None
        }
    }

    /// Asks, without blocking, whether the run in flight has finished, and hands
    /// its task over if it has, for the score to be collected from it. Whether it
    /// has finished is for the runtime to say; what follows from the answer is
    /// [`EngineHandle::hand_over`]. The task handed over is the one that was held,
    /// and it is handed over once; with nothing in flight the runtime is not asked
    /// and nothing is handed over.
    pub fn poll(&mut self) -> (finished: Option<JoinHandle<u64>>)
        ensures
            finished is Some ==> finished == old(self).task() && final(self).task() is None,
            finished is None ==> final(self).task() == old(self).task(),
            final(self).stop_signal() == old(self).stop_signal(),
    {
        let done = match &self.task {
            Some(task) => task.is_finished(),
            None => false,
        };
        self.hand_over(done)
    }

    /// Stops the run in flight early: sets the stop flag, aborts the task and lets
    /// go of it. With nothing in flight there is nothing to stop, and nothing is
    /// done: the flag is left as it is, so that the next run finds it as it was.
    pub fn cancel(&mut self)
        ensures
            final(self).task() is None,
            final(self).stop_signal() == old(self).stop_signal(),
    {
        match self.task.take() {
            Some(task) => {
                self.engine.cancel();
                task.abort();
            },
            None => {},
        }
    }

    /// Stops whatever is in flight and takes a fresh engine, whose stop flag is not
    /// set, for the next run.
    pub fn reset(&mut self)
        ensures
            final(self).task() is None,
    {
        self.cancel();
        self.engine = CpuExplosion::new();
    }
}

} // verus!
