use md_hardware::workload::{advance_pair, Poll, Worker, SCORE_UNIT};

fn advance(worker: &mut Worker, times: u64) {
    for _ in 0..times {
        assert_eq!(worker.poll(false, 0, 10), Poll::Advanced);
    }
}

#[test]
fn score_unit_is_one_million() {
    assert_eq!(SCORE_UNIT, 1_000_000);
}

#[test]
fn pair_moves_on_to_second_and_sum() {
    assert_eq!(advance_pair(0, 1), (1, 1));
    assert_eq!(advance_pair(1, 1), (1, 2));
    assert_eq!(advance_pair(5, 8), (8, 13));
}

#[test]
fn pair_starts_over_when_the_sum_leaves_u64() {
    assert_eq!(advance_pair(u64::MAX, 1), (0, 1));
    assert_eq!(advance_pair(1, u64::MAX), (0, 1));
    assert_eq!(
        advance_pair(7540113804746346429, 12200160415121876738),
        (0, 1)
    );
    assert_eq!(advance_pair(u64::MAX, 0), (0, u64::MAX));
}

#[test]
fn new_worker_has_done_nothing() {
    let worker = Worker::new();
    assert_eq!(worker.units(), 0);
    assert!(!worker.is_halted());
    assert_eq!(worker.current_pair(), (0, 1));
}

#[test]
fn worker_follows_the_recurrence() {
    let mut worker = Worker::new();
    advance(&mut worker, 1);
    assert_eq!(worker.current_pair(), (1, 1));
    advance(&mut worker, 1);
    assert_eq!(worker.current_pair(), (1, 2));
    advance(&mut worker, 8);
    assert_eq!(worker.current_pair(), (55, 89));
}

#[test]
fn worker_pair_resets_after_ninety_three_iterations() {
    let mut worker = Worker::new();
    advance(&mut worker, 92);
    assert_eq!(
        worker.current_pair(),
        (7540113804746346429, 12200160415121876738)
    );
    advance(&mut worker, 1);
    assert_eq!(worker.current_pair(), (0, 1));
    advance(&mut worker, 3);
    assert_eq!(worker.current_pair(), (2, 3));
}

#[test]
fn units_drop_the_remainder() {
    let mut worker = Worker::new();
    advance(&mut worker, 999_999);
    assert_eq!(worker.units(), 0);
    advance(&mut worker, 1);
    assert_eq!(worker.units(), 1);
    advance(&mut worker, 1_499_999);
    assert_eq!(worker.units(), 2);
    advance(&mut worker, 1);
    assert_eq!(worker.units(), 2);
    advance(&mut worker, 500_000);
    assert_eq!(worker.units(), 3);
}

#[test]
fn stop_flag_halts_before_the_deadline_is_looked_at() {
    let mut worker = Worker::new();
    advance(&mut worker, 5);
    assert_eq!(
        worker.poll(true, 10, 10),
        Poll::Halted { raise_flag: false }
    );
    assert!(worker.is_halted());
    assert_eq!(worker.current_pair(), (5, 8));
}

#[test]
fn deadline_halts_and_asks_for_the_flag() {
    let mut worker = Worker::new();
    advance(&mut worker, 3);
    assert_eq!(worker.poll(false, 9, 10), Poll::Advanced);
    assert_eq!(
        worker.poll(false, 10, 10),
        Poll::Halted { raise_flag: true }
    );
    assert!(worker.is_halted());
    assert_eq!(worker.current_pair(), (3, 5));
}

#[test]
fn deadline_of_zero_halts_on_the_first_pass() {
    let mut worker = Worker::new();
    assert_eq!(worker.poll(false, 0, 0), Poll::Halted { raise_flag: true });
    assert_eq!(worker.units(), 0);
    assert_eq!(worker.current_pair(), (0, 1));
}

#[test]
fn halted_worker_stays_halted_and_keeps_its_score() {
    let mut worker = Worker::new();
    advance(&mut worker, 1_000_007);
    assert_eq!(worker.poll(true, 0, 10), Poll::Halted { raise_flag: false });
    let pair = worker.current_pair();
    for elapsed in 0..20u64 {
        assert_eq!(
            worker.poll(false, elapsed, 10),
            Poll::Halted { raise_flag: false }
        );
        assert_eq!(
            worker.poll(true, elapsed, 10),
            Poll::Halted { raise_flag: false }
        );
    }
    assert!(worker.is_halted());
    assert_eq!(worker.units(), 1);
    assert_eq!(worker.current_pair(), pair);
}

#[test]
fn two_workers_with_the_same_passes_agree() {
    let mut first = Worker::new();
    let mut second = Worker::new();
    advance(&mut first, 12_345);
    advance(&mut second, 12_345);
    assert_eq!(first.current_pair(), second.current_pair());
    assert_eq!(first.units(), second.units());
}

#[test]
fn simulated_run_of_two_workers_stops_both() {
    let duration = 2;
    let mut stop = false;
    let mut first = Worker::new();
    let mut second = Worker::new();
    for elapsed in [0u64, 0, 1, 1] {
        assert_eq!(first.poll(stop, elapsed, duration), Poll::Advanced);
        assert_eq!(second.poll(stop, elapsed, duration), Poll::Advanced);
    }
    match first.poll(stop, 2, duration) {
        Poll::Halted { raise_flag } => {
            assert!(raise_flag);
            stop = true;
        }
        Poll::Advanced => panic!("the deadline was reached"),
    }
    assert_eq!(
        second.poll(stop, 2, duration),
        Poll::Halted { raise_flag: false }
    );
    assert!(first.is_halted() && second.is_halted());
    assert_eq!(first.units() + second.units(), 0);
}
