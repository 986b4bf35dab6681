//! One run of the engine, as a sequence of atomic steps.
//!
//! The workers of a run share a stop flag and an aggregate score and otherwise go
//! their own ways. Taken step by step, a run is a sequence of three kinds of
//! events: someone outside asks for the run to stop; a worker makes one pass of its
//! loop, seeing the flag as it is at that moment; a halted worker adds its score to
//! the aggregate. A pass is the transition that [`crate::workload::Worker::poll`]
//! is verified against; [`crate::engine::run_worker`] makes passes until its worker
//! halts, and [`crate::engine::fibonnaci_compute_blocking`] then merges once. A
//! worker that fails on the way never merges, and so adds nothing.
//!
//! What is proved here holds of every order in which the events of several workers
//! may fall. It is proved of this model: that the two atomics of the engine behave
//! as the flag and the aggregate of the model do is how the engine is written, and
//! is not itself proved. The aggregate of the model is a natural number; the
//! engine's wraps around at `u64::MAX`. Time enters the model as the whole seconds
//! that a worker reads on a pass: a run that is left alone does not end before a
//! pass reads its duration, and is over one pass of each worker after that. How
//! long a pass takes on the wall clock is not for the model to say.

use crate::workload::{max_iterations, poll_spec, score_of, Poll, WorkerView};
use vstd::prelude::*;

verus! {

/// One worker of a run: how far it has come, and whether its score has been added
/// to the aggregate.
pub struct Slot {
    pub worker: WorkerView,
    pub merged: bool,
}

/// A run in progress.
pub struct RunView {
    /// The shared stop flag.
    pub stop: bool,
    /// The shared aggregate score.
    pub aggregate: nat,
    /// The workers.
    pub slots: Seq<Slot>,
    /// The seconds after which the run times out.
    pub duration: u64,
}

/// What can happen in a run.
pub enum RunEvent {
    /// The run is asked to stop from outside.
    Cancel,
    /// A worker makes one pass of its loop, `elapsed_secs` seconds into the run.
    Pass { worker: int, elapsed_secs: u64 },
    /// A worker that has halted adds its score to the aggregate.
    Merge { worker: int },
}

/// A run at its start: the flag not set, nothing scored, no worker under way.
pub open spec fn run_begin(worker_count: nat, duration: u64) -> RunView {
    RunView {
        stop: false,
        aggregate: 0,
        slots: Seq::new(
            worker_count,
            |i: int| Slot { worker: WorkerView { iterations: 0, halted: false }, merged: false },
        ),
        duration,
    }
}

/// The run after one event. A pass of a worker that has merged, a merge of a
/// worker that has not halted or has merged before, and an event of a worker that
/// the run does not have change nothing.
pub open spec fn run_step(r: RunView, event: RunEvent) -> RunView {
    match event {
        RunEvent::Cancel => RunView { stop: true, ..r },
        RunEvent::Pass { worker, elapsed_secs } => if 0 <= worker < r.slots.len()
            && !r.slots[worker].merged {
            let (next, outcome) = poll_spec(r.slots[worker].worker, r.stop, elapsed_secs, r.duration);
            RunView {
                stop: r.stop || outcome == (Poll::Halted { raise_flag: true }),
                slots: r.slots.update(worker, Slot { worker: next, merged: false }),
                ..r
            }
        } else {
            r
        },
        RunEvent::Merge { worker } => if 0 <= worker < r.slots.len() && r.slots[worker].worker.halted
            && !r.slots[worker].merged {
            RunView {
                aggregate: r.aggregate + score_of(r.slots[worker].worker.iterations),
                slots: r.slots.update(worker, Slot { merged: true, ..r.slots[worker] }),
                ..r
            }
        } else {
            r
        },
    }
}

/// The run after a sequence of events.
pub open spec fn run_trace(r: RunView, events: Seq<RunEvent>) -> RunView
    decreases events.len(),
{
    if events.len() == 0 {
        r
    } else {
        run_step(run_trace(r, events.drop_last()), events.last())
    }
}

/// The scores of the workers that have merged, each rescaled on its own and the
/// results added up.
pub open spec fn merged_score(slots: Seq<Slot>) -> nat
    decreases slots.len(),
{
    if slots.len() == 0 {
        0
    } else {
        merged_score(slots.drop_last()) + if slots.last().merged {
            score_of(slots.last().worker.iterations)
        } else {
            0
        }
    }
}

/// The scores of all workers, each rescaled on its own and the results added up.
pub open spec fn total_score(slots: Seq<Slot>) -> nat
    decreases slots.len(),
{
    if slots.len() == 0 {
        0
    } else {
        total_score(slots.drop_last()) + score_of(slots.last().worker.iterations)
    }
}

/// Every worker has halted and merged: the run has ended.
pub open spec fn joined(r: RunView) -> bool {
    forall|i: int| 0 <= i < r.slots.len() ==> (#[trigger] r.slots[i]).merged
}

/// What holds of a run at every moment: the aggregate is the sum of the scores of
/// the workers that have merged, and only halted workers have merged.
pub open spec fn run_inv(r: RunView) -> bool {
    &&& r.aggregate == merged_score(r.slots)
    &&& forall|i: int| 0 <= i < r.slots.len() && (#[trigger] r.slots[i]).merged ==> r.slots[i].worker.halted
}

/// Every pass among `events` is made at or after the deadline of the run.
pub open spec fn passes_are_late(duration: u64, events: Seq<RunEvent>) -> bool {
    forall|k: int|
        0 <= k < events.len() ==> (#[trigger] events[k] matches RunEvent::Pass { elapsed_secs, .. }
            ==> elapsed_secs >= duration)
}

/// Changing one slot changes the merged score by what that slot contributes.
proof fn lemma_merged_score_update(slots: Seq<Slot>, i: int, slot: Slot)
    requires
        0 <= i < slots.len(),
    ensures
        merged_score(slots.update(i, slot)) + (if slots[i].merged {
            score_of(slots[i].worker.iterations)
        } else {
            0
        }) == merged_score(slots) + (if slot.merged {
            score_of(slot.worker.iterations)
        } else {
            0
        }),
    decreases slots.len(),
{
    let changed = slots.update(i, slot);
    if i == slots.len() - 1 {
        assert(changed.drop_last() =~= slots.drop_last());
    } else {
        assert(changed.drop_last() =~= slots.drop_last().update(i, slot));
        lemma_merged_score_update(slots.drop_last(), i, slot);
    }
}

/// Nothing has merged at the start of a run.
proof fn lemma_merged_score_begin(worker_count: nat, duration: u64)
    ensures
        merged_score(run_begin(worker_count, duration).slots) == 0,
    decreases worker_count,
{
    if worker_count > 0 {
        lemma_merged_score_begin((worker_count - 1) as nat, duration);
        assert(run_begin(worker_count, duration).slots.drop_last() =~= run_begin(
            (worker_count - 1) as nat,
            duration,
        ).slots);
    }
}

/// When every worker has merged, the merged score is the score of all.
proof fn lemma_merged_score_of_all(slots: Seq<Slot>)
    requires
        forall|i: int| 0 <= i < slots.len() ==> (#[trigger] slots[i]).merged,
    ensures
        merged_score(slots) == total_score(slots),
    decreases slots.len(),
{
    if slots.len() > 0 {
        let front = slots.drop_last();
        assert forall|i: int| 0 <= i < front.len() implies (#[trigger] front[i]).merged by {
            assert(front[i] == slots[i]);
        }
        lemma_merged_score_of_all(front);
        assert(slots.last() == slots[slots.len() - 1]);
    }
}

/// One event keeps what holds of a run at every moment.
pub proof fn lemma_step_keeps_inv(r: RunView, event: RunEvent)
    requires
        run_inv(r),
    ensures
        run_inv(run_step(r, event)),
{
    match event {
        RunEvent::Cancel => {},
        RunEvent::Pass { worker, elapsed_secs } => {
            if 0 <= worker < r.slots.len() && !r.slots[worker].merged {
                let next = run_step(r, event).slots[worker];
                lemma_merged_score_update(r.slots, worker, next);
            }
        },
        RunEvent::Merge { worker } => {
            if 0 <= worker < r.slots.len() && r.slots[worker].worker.halted && !r.slots[worker].merged {
                let next = run_step(r, event).slots[worker];
                lemma_merged_score_update(r.slots, worker, next);
            }
        },
    }
}

/// A sequence of events keeps what holds of a run at every moment.
pub proof fn lemma_trace_keeps_inv(r: RunView, events: Seq<RunEvent>)
    requires
        run_inv(r),
    ensures
        run_inv(run_trace(r, events)),
    decreases events.len(),
{
    if events.len() > 0 {
        lemma_trace_keeps_inv(r, events.drop_last());
        lemma_step_keeps_inv(run_trace(r, events.drop_last()), events.last());
    }
}

/// At every moment of a run, from its start on, the aggregate is the sum of the
/// scores of the workers that have merged; no worker is counted twice and none
/// before it has halted. Once all have merged, the aggregate is the sum of the
/// scores of all workers, each rounded down on its own.
pub proof fn lemma_aggregate_is_sum_of_scores(worker_count: nat, duration: u64, events: Seq<RunEvent>)
    ensures
        run_inv(run_trace(run_begin(worker_count, duration), events)),
        joined(run_trace(run_begin(worker_count, duration), events)) ==> run_trace(
            run_begin(worker_count, duration),
            events,
        ).aggregate == total_score(run_trace(run_begin(worker_count, duration), events).slots),
{
    lemma_merged_score_begin(worker_count, duration);
    lemma_trace_keeps_inv(run_begin(worker_count, duration), events);
    let end = run_trace(run_begin(worker_count, duration), events);
    if joined(end) {
        lemma_merged_score_of_all(end.slots);
    }
}

/// The stop flag only ever goes from unset to set: once it is set, it is set after
/// every further sequence of events.
pub proof fn lemma_stop_is_monotonic(r: RunView, events: Seq<RunEvent>)
    requires
        r.stop,
    ensures
        run_trace(r, events).stop,
    decreases events.len(),
{
    if events.len() > 0 {
        lemma_stop_is_monotonic(r, events.drop_last());
    }
}

/// The aggregate score never goes down, whatever happens.
pub proof fn lemma_aggregate_never_decreases(r: RunView, events: Seq<RunEvent>)
    ensures
        run_trace(r, events).aggregate >= r.aggregate,
    decreases events.len(),
{
    if events.len() > 0 {
        lemma_aggregate_never_decreases(r, events.drop_last());
    }
}

/// Asking twice for a run to stop is the same as asking once, and asking changes
/// neither the aggregate score nor any worker.
pub proof fn lemma_cancel_is_idempotent(r: RunView)
    ensures
        run_step(run_step(r, RunEvent::Cancel), RunEvent::Cancel) == run_step(r, RunEvent::Cancel),
        run_step(r, RunEvent::Cancel).aggregate == r.aggregate,
        run_step(r, RunEvent::Cancel).slots == r.slots,
        run_step(r, RunEvent::Cancel).stop,
{
}

/// A run that has ended keeps its result: after every worker has halted and
/// merged, no event changes the aggregate score or a worker, be it a request to
/// stop, a late pass or a second merge.
pub proof fn lemma_joined_run_is_final(r: RunView, events: Seq<RunEvent>)
    requires
        joined(r),
    ensures
        run_trace(r, events).aggregate == r.aggregate,
        run_trace(r, events).slots == r.slots,
    decreases events.len(),
{
    if events.len() > 0 {
        lemma_joined_run_is_final(r, events.drop_last());
    }
}

/// A run keeps its workers and its duration; a worker that has halted stays
/// halted, one that has merged stays as it is, and the iterations of a worker
/// never go down, whatever happens.
pub proof fn lemma_halted_stays_halted(r: RunView, events: Seq<RunEvent>, worker: int)
    requires
        0 <= worker < r.slots.len(),
    ensures
        run_trace(r, events).slots.len() == r.slots.len(),
        run_trace(r, events).duration == r.duration,
        r.slots[worker].worker.halted ==> run_trace(r, events).slots[worker].worker.halted,
        r.slots[worker].merged ==> run_trace(r, events).slots[worker] == r.slots[worker],
        run_trace(r, events).slots[worker].worker.iterations >= r.slots[worker].worker.iterations,
    decreases events.len(),
{
    if events.len() > 0 {
        lemma_halted_stays_halted(r, events.drop_last(), worker);
    }
}

/// Once the flag is set, a worker halts on its next pass without another
/// iteration; and a worker under way that finds the deadline reached halts and sets
/// the flag.
pub proof fn lemma_pass_halts_on_stop_or_deadline(r: RunView, worker: int, elapsed_secs: u64)
    requires
        0 <= worker < r.slots.len(),
        !r.slots[worker].merged,
        r.stop || elapsed_secs >= r.duration,
    ensures
        run_step(r, RunEvent::Pass { worker, elapsed_secs }).slots[worker].worker.halted,
        run_step(r, RunEvent::Pass { worker, elapsed_secs }).slots[worker].worker.iterations
            == r.slots[worker].worker.iterations,
        r.stop || !r.slots[worker].worker.halted ==> run_step(
            r,
            RunEvent::Pass { worker, elapsed_secs },
        ).stop,
{
}

/// No work is done after the end: once the flag is set, or when every pass is made
/// at or after the deadline, no worker does a further iteration.
pub proof fn lemma_no_work_after_the_end(r: RunView, events: Seq<RunEvent>, worker: int)
    requires
        0 <= worker < r.slots.len(),
        r.stop || passes_are_late(r.duration, events),
    ensures
        run_trace(r, events).slots[worker].worker.iterations == r.slots[worker].worker.iterations,
    decreases events.len(),
{
    if events.len() > 0 {
        let before = events.drop_last();
        if !r.stop {
            assert forall|k: int| 0 <= k < before.len() implies (#[trigger] before[k] matches RunEvent::Pass {
                elapsed_secs,
                ..
            } ==> elapsed_secs >= r.duration) by {
                assert(before[k] == events[k]);
            }
            assert(events[events.len() - 1] == events.last());
        } else {
            lemma_stop_is_monotonic(r, before);
        }
        lemma_no_work_after_the_end(r, before, worker);
        lemma_halted_stays_halted(r, before, worker);
    }
}

/// The end of a run is one pass away for each worker: once the flag is set, or
/// when every pass is made at or after the deadline, a worker that has made a pass
/// is halted. So a run takes no longer than its duration and the time its workers
/// need for one more pass each.
pub proof fn lemma_one_pass_halts(r: RunView, events: Seq<RunEvent>, k: int)
    requires
        run_inv(r),
        r.stop || passes_are_late(r.duration, events),
        0 <= k < events.len(),
        events[k] is Pass,
        0 <= events[k]->Pass_worker < r.slots.len(),
    ensures
        run_trace(r, events).slots[events[k]->Pass_worker].worker.halted,
    decreases events.len(),
{
    let worker = events[k]->Pass_worker;
    let before = events.drop_last();
    if !r.stop {
        assert forall|j: int| 0 <= j < before.len() implies (#[trigger] before[j] matches RunEvent::Pass {
            elapsed_secs,
            ..
        } ==> elapsed_secs >= r.duration) by {
            assert(before[j] == events[j]);
        }
    } else {
        lemma_stop_is_monotonic(r, before);
    }
    lemma_halted_stays_halted(r, before, worker);
    if k < events.len() - 1 {
        assert(before[k] == events[k]);
        lemma_one_pass_halts(r, before, k);
    } else {
        lemma_trace_keeps_inv(r, before);
        assert(events.last() == events[k]);
    }
}

/// Nobody asks the run to stop, and every pass among `events` is made before the
/// deadline of the run.
pub open spec fn run_is_left_alone(duration: u64, events: Seq<RunEvent>) -> bool {
    forall|k: int|
        0 <= k < events.len() ==> !(#[trigger] events[k] is Cancel) && (events[k] matches RunEvent::Pass {
            elapsed_secs,
            ..
        } ==> elapsed_secs < duration)
}

/// The flag is not set, and no worker has halted but for want of room in its
/// counter.
pub open spec fn run_is_under_way(r: RunView) -> bool {
    &&& !r.stop
    &&& forall|i: int|
        0 <= i < r.slots.len() && (#[trigger] r.slots[i]).worker.halted ==> r.slots[i].worker.iterations
            >= max_iterations()
}

/// Whenever a worker has halted with room left in its counter, the flag is set.
pub open spec fn halt_shows_in_flag(r: RunView) -> bool {
    forall|i: int|
        0 <= i < r.slots.len() && (#[trigger] r.slots[i]).worker.halted && r.slots[i].worker.iterations
            < max_iterations() ==> r.stop
}

/// A run does not end early by itself. As long as nobody asks it to stop and the
/// deadline has not been reached at any pass, the flag stays unset and every
/// worker with room in its counter goes on: a run of `duration` seconds that is
/// left alone lasts no less than `duration` seconds.
pub proof fn lemma_no_end_before_the_deadline(r: RunView, events: Seq<RunEvent>)
    requires
        run_is_under_way(r),
        run_is_left_alone(r.duration, events),
    ensures
        run_is_under_way(run_trace(r, events)),
        run_trace(r, events).duration == r.duration,
        run_trace(r, events).slots.len() == r.slots.len(),
    decreases events.len(),
{
    if events.len() > 0 {
        let before = events.drop_last();
        assert forall|k: int| 0 <= k < before.len() implies !(#[trigger] before[k] is Cancel) && (
        before[k] matches RunEvent::Pass { elapsed_secs, .. } ==> elapsed_secs < r.duration) by {
            assert(before[k] == events[k]);
        }
        lemma_no_end_before_the_deadline(r, before);
        assert(events[events.len() - 1] == events.last());
    }
}

/// A run at its start is under way, and it stays so while it is left alone.
pub proof fn lemma_fresh_run_lasts_its_duration(worker_count: nat, duration: u64, events: Seq<RunEvent>)
    requires
        run_is_left_alone(duration, events),
    ensures
        run_is_under_way(run_trace(run_begin(worker_count, duration), events)),
{
    lemma_no_end_before_the_deadline(run_begin(worker_count, duration), events);
}

/// The end of a run shows in the flag. At every moment of a run, from its start
/// on, a worker that has halted with room left in its counter has either seen the
/// flag set or set it itself: when the workers of a run have halted, the flag is
/// set.
pub proof fn lemma_flag_is_set_at_the_end(worker_count: nat, duration: u64, events: Seq<RunEvent>)
    ensures
        halt_shows_in_flag(run_trace(run_begin(worker_count, duration), events)),
        run_trace(run_begin(worker_count, duration), events).slots.len() == worker_count,
    decreases events.len(),
{
    if events.len() > 0 {
        lemma_flag_is_set_at_the_end(worker_count, duration, events.drop_last());
    }
}

} // verus!
