use minipool::{all_finished, delivery_outcome, supervise, worker_step};
use minipool::{DeliveryError, Verdict, WorkerEvent, WorkerState};

#[test]
fn idle_worker_starts_an_arriving_task() {
    assert_eq!(worker_step(WorkerState::Idle, WorkerEvent::TaskArrived), WorkerState::Executing);
}

#[test]
fn idle_worker_ends_when_its_queue_closes() {
    assert_eq!(worker_step(WorkerState::Idle, WorkerEvent::QueueClosed), WorkerState::Terminated);
    assert_eq!(worker_step(WorkerState::Idle, WorkerEvent::TaskDone), WorkerState::Idle);
}

#[test]
fn executing_worker_runs_to_completion() {
    assert_eq!(
        worker_step(WorkerState::Executing, WorkerEvent::TaskArrived),
        WorkerState::Executing
    );
    assert_eq!(
        worker_step(WorkerState::Executing, WorkerEvent::QueueClosed),
        WorkerState::Executing
    );
    assert_eq!(worker_step(WorkerState::Executing, WorkerEvent::TaskDone), WorkerState::Idle);
}

#[test]
fn terminated_worker_stays_terminated() {
    for event in [
        WorkerEvent::TaskArrived,
        WorkerEvent::TaskDone,
        WorkerEvent::TaskFailed,
        WorkerEvent::QueueClosed,
    ] {
        assert_eq!(worker_step(WorkerState::Terminated, event), WorkerState::Terminated);
    }
}

#[test]
fn executing_worker_ends_with_a_failed_task() {
    assert_eq!(
        worker_step(WorkerState::Executing, WorkerEvent::TaskFailed),
        WorkerState::Terminated
    );
    assert_eq!(worker_step(WorkerState::Idle, WorkerEvent::TaskFailed), WorkerState::Idle);
}

#[test]
fn watch_ends_as_soon_as_the_task_has_finished() {
    assert_eq!(supervise(10, 1_000_000, true), Verdict::Finished);
    assert_eq!(supervise(0, 0, true), Verdict::Finished);
    assert_eq!(supervise(1_000_000, 1_000_000, true), Verdict::Finished);
}

#[test]
fn watch_goes_on_while_neither_has_happened() {
    assert_eq!(supervise(10, 1_000_000, false), Verdict::Waiting);
    assert_eq!(supervise(1_000_000, 1_000_000, false), Verdict::Waiting);
    assert_eq!(supervise(0, u128::MAX, false), Verdict::Waiting);
}

#[test]
fn watch_ends_once_the_deadline_has_passed() {
    assert_eq!(supervise(1_000_001, 1_000_000, false), Verdict::TimedOut);
    assert_eq!(supervise(1_000_001, 1_000_000, true), Verdict::TimedOut);
    assert_eq!(supervise(1, 0, false), Verdict::TimedOut);
    assert_eq!(supervise(u128::MAX, 5, false), Verdict::TimedOut);
}

#[test]
fn all_finished_asks_every_flag() {
    assert!(all_finished(&vec![]));
    assert!(all_finished(&vec![true]));
    assert!(all_finished(&vec![true, true, true]));
    assert!(!all_finished(&vec![false]));
    assert!(!all_finished(&vec![true, false, true]));
    assert!(!all_finished(&vec![false, true, true]));
    assert!(!all_finished(&vec![true, true, false]));
}

#[test]
fn delivery_outcome_names_the_worker() {
    assert_eq!(delivery_outcome(4, true), Ok(4));
    assert_eq!(delivery_outcome(4, false), Err(DeliveryError { worker: 4 }));
    assert_eq!(delivery_outcome(0, false), Err(DeliveryError { worker: 0 }));
}
