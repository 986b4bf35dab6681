//! The deterministic CPU-bound workload of one stress worker.
//!
//! A worker keeps a pair of numbers that follows an additive recurrence and counts
//! how often it has advanced the pair. Its externally visible score is the count
//! rescaled by [`SCORE_UNIT`], remainders dropped. The decisions a worker takes on
//! each pass of its loop are a pure function of what it observed, [`poll_spec`].

use vstd::prelude::*;

verus! {

/// Raw iterations that make up one unit of score.
pub const SCORE_UNIT: u64 = 1_000_000;

/// The successor of a pair in the additive recurrence: `(a, b)` moves on to
/// `(b, a + b)`, and starts over at `(0, 1)` when the sum would leave `u64`.
pub open spec fn next_pair(p: (u64, u64)) -> (u64, u64) {
    if p.0 + p.1 <= u64::MAX {
        (p.1, (p.0 + p.1) as u64)
    } else {
        (0u64, 1u64)
    }
}

/// The pair a worker holds after `n` iterations.
pub open spec fn pair_after(n: nat) -> (u64, u64)
    decreases n,
{
    if n == 0 {
        (0u64, 1u64)
    } else {
        next_pair(pair_after((n - 1) as nat))
    }
}

/// The largest number of iterations one worker can count.
pub open spec fn max_iterations() -> nat {
    (u64::MAX * SCORE_UNIT + (SCORE_UNIT - 1)) as nat
}

/// The score that `iterations` raw iterations are worth.
pub open spec fn score_of(iterations: nat) -> nat {
    iterations / (SCORE_UNIT as nat)
}

/// Computes the successor of a pair.
pub fn advance_pair(a: u64, b: u64) -> (next: (u64, u64))
    ensures
        next == next_pair((a, b)),
{
    match a.checked_add(b) {
        Some(n) => (b, n),
        None => (0, 1),
    }
}

/// What a worker is, seen from outside: how far it has come and whether it has
/// stopped for good.
pub struct WorkerView {
    pub iterations: nat,
    pub halted: bool,
}

/// What one pass of the worker's loop led to.
#[derive(Clone, Copy, Debug, PartialEq, Eq)]
pub enum Poll {
    /// The worker did one more iteration.
    Advanced,
    /// The worker has stopped. `raise_flag` tells whether this worker is the one
    /// that found the deadline reached and so has to set the shared stop flag.
    Halted { raise_flag: bool },
}

/// One pass of a worker's loop, as a function of what the worker observed.
///
/// A halted worker stays as it is. Otherwise the stop flag is looked at first, then
/// the deadline, then the room left in the counter; only when none of them stops
/// the worker does it advance by one iteration.
pub open spec fn poll_spec(w: WorkerView, stop_observed: bool, elapsed_secs: u64, duration: u64) -> (
    WorkerView,
    Poll,
) {
    if w.halted {
        (w, Poll::Halted { raise_flag: false })
    } else if stop_observed {
        (WorkerView { halted: true, ..w }, Poll::Halted { raise_flag: false })
    } else if elapsed_secs >= duration {
        (WorkerView { halted: true, ..w }, Poll::Halted { raise_flag: true })
    } else if w.iterations >= max_iterations() {
        (WorkerView { halted: true, ..w }, Poll::Halted { raise_flag: false })
    } else {
        (WorkerView { iterations: w.iterations + 1, ..w }, Poll::Advanced)
    }
}

/// The state of one stress worker.
pub struct Worker {
    a: u64,
    b: u64,
    local_score: u64,
    converted_score: u64,
    halted: bool,
}

impl View for Worker {
    type V = WorkerView;

    closed spec fn view(&self) -> WorkerView {
        WorkerView {
            iterations: (self.converted_score * SCORE_UNIT + self.local_score) as nat,
            halted: self.halted,
        }
    }
}

impl Worker {
    /// The counters are in step with each other and the pair is the one that the
    /// recurrence reaches after as many iterations as were counted.
    pub closed spec fn wf(&self) -> bool {
        &&& self.local_score < SCORE_UNIT
        &&& (self.a, self.b) == pair_after(self@.iterations)
    }

    /// A worker that has not started: no iterations, not halted.
    pub fn new() -> (w: Worker)
        ensures
            w.wf(),
            w@ == (WorkerView { iterations: 0, halted: false }),
    {
        Worker { a: 0, b: 1, local_score: 0, converted_score: 0, halted: false }
    }

    /// One pass of the worker's loop: decides from the observed stop flag and the
    /// observed elapsed seconds whether to stop, and advances the workload by one
    /// iteration if not.
    pub fn poll(&mut self, stop_observed: bool, elapsed_secs: u64, duration: u64) -> (r: Poll)
        requires
            old(self).wf(),
        ensures
            final(self).wf(),
            (final(self)@, r) == poll_spec(old(self)@, stop_observed, elapsed_secs, duration),
    {
        if self.halted {
            return Poll::Halted { raise_flag: false };
        }
        if stop_observed {
            self.halted = true;
            return Poll::Halted { raise_flag: false };
        }
        if elapsed_secs >= duration {
            self.halted = true;
            return Poll::Halted { raise_flag: true };
        }
        if self.converted_score == u64::MAX && self.local_score == SCORE_UNIT - 1 {
            self.halted = true;
            return Poll::Halted { raise_flag: false };
        }
        let next = advance_pair(self.a, self.b);
        self.a = next.0;
        self.b = next.1;
        self.local_score = self.local_score + 1;
        if self.local_score >= SCORE_UNIT {
            self.converted_score = self.converted_score + 1;
            self.local_score = 0;
        }
        Poll::Advanced
    }

    /// The worker's score: its iterations rescaled by [`SCORE_UNIT`], the
    /// remainder dropped.
    pub fn units(&self) -> (u: u64)
        requires
            self.wf(),
        ensures
            u == score_of(self@.iterations),
    {
        self.converted_score
    }

    /// Whether the worker has stopped for good.
    pub fn is_halted(&self) -> (h: bool)
        ensures
            h == self@.halted,
    {
        self.halted
    }

    /// The pair the worker currently holds.
    pub fn current_pair(&self) -> (p: (u64, u64))
        requires
            self.wf(),
        ensures
            p == pair_after(self@.iterations),
    {
        (self.a, self.b)
    }
}

/// A score counts whole units only: it is the largest number of units that fit
/// into the iterations done.
pub proof fn lemma_score_rounds_down(iterations: nat)
    ensures
        score_of(iterations) * SCORE_UNIT <= iterations < (score_of(iterations) + 1) * SCORE_UNIT,
{
}

/// A halted worker stays halted: whatever it observes on a later pass, it does no
/// further iteration, keeps its score, and does not ask for the flag again.
pub proof fn lemma_halted_worker_stays(w: WorkerView, stop_observed: bool, elapsed_secs: u64, duration: u64)
    requires
        w.halted,
    ensures
        poll_spec(w, stop_observed, elapsed_secs, duration) == (w, Poll::Halted { raise_flag: false }),
{
}

/// A pass never takes anything back: the iterations done never go down, by one
/// pass they go up by one at most, and a worker that halts on a pass has done
/// nothing more on it.
pub proof fn lemma_pass_counts_up(w: WorkerView, stop_observed: bool, elapsed_secs: u64, duration: u64)
    ensures
        w.iterations <= poll_spec(w, stop_observed, elapsed_secs, duration).0.iterations <= w.iterations
            + 1,
        poll_spec(w, stop_observed, elapsed_secs, duration).1 == Poll::Advanced <==> poll_spec(
            w,
            stop_observed,
            elapsed_secs,
            duration,
        ).0.iterations == w.iterations + 1,
        poll_spec(w, stop_observed, elapsed_secs, duration).1 != Poll::Advanced ==> poll_spec(
            w,
            stop_observed,
            elapsed_secs,
            duration,
        ).0.halted,
        stop_observed || elapsed_secs >= duration ==> poll_spec(
            w,
            stop_observed,
            elapsed_secs,
            duration,
        ).0.halted,
{
}

} // verus!
