use md_hardware::fibonnaci_compute_blocking;
use md_hardware::handle::EngineHandle;
use std::sync::atomic::{AtomicU64, Ordering};
use std::sync::Arc;
use std::time::{Duration, Instant};
use tokio::runtime::{Builder, Runtime};
use tokio::task::JoinHandle;

fn runtime() -> Runtime {
    Builder::new_multi_thread()
        .worker_threads(1)
        .max_blocking_threads(4)
        .build()
        .unwrap()
}

/// Polls until the task in flight is handed over.
fn wait_for(handle: &mut EngineHandle) -> JoinHandle<u64> {
    let begun = Instant::now();
    loop {
        if let Some(task) = handle.poll() {
            return task;
        }
        assert!(begun.elapsed() < Duration::from_secs(15));
        std::hint::spin_loop();
    }
}

/// Starts a run of one worker for `duration` seconds as a blocking task.
fn start_run(runtime: &Runtime, handle: &mut EngineHandle, duration: u64) {
    let engine = handle.engine();
    handle.attach(runtime.spawn_blocking(move || {
        let score = Arc::new(AtomicU64::new(0));
        fibonnaci_compute_blocking(
            Arc::new(Instant::now()),
            duration,
            Arc::clone(&score),
            Arc::clone(&engine.stop_signal),
        );
        score.load(Ordering::Relaxed)
    }));
}

#[test]
fn new_handle_has_nothing_in_flight() {
    let mut handle = EngineHandle::new();
    assert!(!handle.is_outstanding());
    assert!(handle.poll().is_none());
    assert!(!handle.engine().is_cancelled());
}

#[test]
fn engine_of_a_handle_shares_its_flag() {
    let runtime = runtime();
    let mut handle = EngineHandle::new();
    let engine = handle.engine();
    assert!(!engine.is_cancelled());
    start_run(&runtime, &mut handle, 600);
    handle.cancel();
    assert!(engine.is_cancelled());
    assert!(handle.engine().is_cancelled());
}

#[test]
fn finished_task_is_handed_over_once() {
    let runtime = runtime();
    let mut handle = EngineHandle::new();
    handle.attach(runtime.spawn_blocking(|| 7u64));
    assert!(handle.is_outstanding());
    let task = wait_for(&mut handle);
    assert!(!handle.is_outstanding());
    assert!(handle.poll().is_none());
    assert_eq!(runtime.block_on(task).unwrap(), 7);
    assert!(handle.poll().is_none());
}

#[test]
fn task_in_flight_is_kept_until_it_has_finished() {
    let runtime = runtime();
    let mut handle = EngineHandle::new();
    start_run(&runtime, &mut handle, 600);
    for _ in 0..1000 {
        assert!(handle.poll().is_none());
        assert!(handle.is_outstanding());
    }
    handle.engine().cancel();
    let task = wait_for(&mut handle);
    assert!(!handle.is_outstanding());
    assert!(runtime.block_on(task).is_ok());
    assert!(handle.poll().is_none());
}

#[test]
fn run_of_one_second_finishes_by_itself() {
    let runtime = runtime();
    let mut handle = EngineHandle::new();
    let begun = Instant::now();
    start_run(&runtime, &mut handle, 1);
    let task = wait_for(&mut handle);
    let took = begun.elapsed();
    assert!(took >= Duration::from_secs(1));
    assert!(took < Duration::from_secs(6));
    assert!(runtime.block_on(task).is_ok());
    assert!(handle.engine().is_cancelled());
}

#[test]
fn cancel_stops_the_run_and_lets_go_of_the_task() {
    let runtime = runtime();
    let mut handle = EngineHandle::new();
    start_run(&runtime, &mut handle, 600);
    let engine = handle.engine();
    let begun = Instant::now();
    handle.cancel();
    assert!(!handle.is_outstanding());
    assert!(handle.poll().is_none());
    assert!(engine.is_cancelled());
    drop(runtime);
    assert!(begun.elapsed() < Duration::from_secs(5));
}

#[test]
fn cancel_with_nothing_in_flight_does_nothing() {
    let runtime = runtime();
    let mut handle = EngineHandle::new();
    handle.cancel();
    handle.cancel();
    assert!(!handle.is_outstanding());
    assert!(!handle.engine().is_cancelled());

    handle.attach(runtime.spawn_blocking(|| 3u64));
    let task = wait_for(&mut handle);
    assert_eq!(runtime.block_on(task).unwrap(), 3);
    handle.cancel();
    handle.cancel();
    assert!(!handle.is_outstanding());
    assert!(handle.poll().is_none());
    assert!(!handle.engine().is_cancelled());
}

#[test]
fn run_started_after_an_idle_cancel_is_not_stopped() {
    let runtime = runtime();
    let mut handle = EngineHandle::new();
    handle.cancel();
    let begun = Instant::now();
    start_run(&runtime, &mut handle, 1);
    let task = wait_for(&mut handle);
    assert!(begun.elapsed() >= Duration::from_secs(1));
    assert!(runtime.block_on(task).is_ok());
}

#[test]
fn cancel_twice_while_in_flight_is_cancel_once() {
    let runtime = runtime();
    let mut handle = EngineHandle::new();
    start_run(&runtime, &mut handle, 600);
    let engine = handle.engine();
    handle.cancel();
    handle.cancel();
    assert!(!handle.is_outstanding());
    assert!(engine.is_cancelled());
}

#[test]
fn reset_takes_a_fresh_engine() {
    let runtime = runtime();
    let mut handle = EngineHandle::new();
    start_run(&runtime, &mut handle, 600);
    let old_engine = handle.engine();
    handle.reset();
    assert!(!handle.is_outstanding());
    assert!(old_engine.is_cancelled());
    assert!(!handle.engine().is_cancelled());
    start_run(&runtime, &mut handle, 600);
    assert!(handle.is_outstanding());
    handle.cancel();
}

#[test]
fn attaching_again_replaces_the_task() {
    let runtime = runtime();
    let mut handle = EngineHandle::new();
    handle.attach(runtime.spawn_blocking(|| 1u64));
    handle.attach(runtime.spawn_blocking(|| 2u64));
    assert!(handle.is_outstanding());
    let task = wait_for(&mut handle);
    assert_eq!(runtime.block_on(task).unwrap(), 2);
    assert!(!handle.is_outstanding());
}

#[test]
fn hand_over_keeps_the_task_until_it_is_said_to_have_finished() {
    let runtime = runtime();
    let mut handle = EngineHandle::new();
    assert!(handle.hand_over(true).is_none());
    assert!(handle.hand_over(false).is_none());
    handle.attach(runtime.spawn_blocking(|| 11u64));
    assert!(handle.hand_over(false).is_none());
    assert!(handle.is_outstanding());
    let task = handle.hand_over(true).expect("a task was held");
    assert!(!handle.is_outstanding());
    assert!(handle.hand_over(true).is_none());
    assert_eq!(runtime.block_on(task).unwrap(), 11);
}

#[test]
fn engines_handed_out_share_one_flag_until_a_reset() {
    let mut handle = EngineHandle::new();
    let first = handle.engine();
    let second = handle.engine();
    assert!(Arc::ptr_eq(&first.stop_signal, &second.stop_signal));
    second.cancel();
    assert!(first.is_cancelled());
    assert!(handle.engine().is_cancelled());
    handle.reset();
    let third = handle.engine();
    assert!(!Arc::ptr_eq(&first.stop_signal, &third.stop_signal));
    assert!(!third.is_cancelled());
    assert!(first.is_cancelled());
}
