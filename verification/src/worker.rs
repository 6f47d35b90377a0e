//! What travels on a worker's queue, the life of a worker, and the decision of
//! the routine that watches a task against a deadline.

use vstd::prelude::*;

verus! {

/// One unit of work on a worker's queue.
pub enum Job<F> {
    /// Run the task to completion.
    Plain(F),
    /// Start the task on a thread of its own and watch it until it has
    /// finished or the deadline has passed, whichever comes first.
    Timed(F, std::time::Duration),
}

/// The states of a worker.
#[derive(Clone, Copy, Debug, PartialEq, Eq, Structural)]
pub enum WorkerState {
    /// Blocked on its queue, awaiting the next task.
    Idle,
    /// Running one task to completion.
    Executing,
    /// Its queue was closed and drained; the thread has ended.
    Terminated,
}

/// What a worker observes.
#[derive(Clone, Copy, Debug, PartialEq, Eq, Structural)]
pub enum WorkerEvent {
    /// The queue handed over a task.
    TaskArrived,
    /// The running task returned.
    TaskDone,
    /// The running task ended abnormally, and the worker's thread with it.
    TaskFailed,
    /// The queue is empty and its sending end is gone.
    QueueClosed,
}

/// The state that follows `state` on `event`. An idle worker starts the task
/// that arrives, or ends when its queue closes; an executing worker goes back
/// to idle when its task returns and ends when its task ends abnormally, and
/// nothing else moves it; a terminated worker stays terminated.
pub open spec fn next_state(state: WorkerState, event: WorkerEvent) -> WorkerState {
    match (state, event) {
        (WorkerState::Idle, WorkerEvent::TaskArrived) => WorkerState::Executing,
        (WorkerState::Idle, WorkerEvent::QueueClosed) => WorkerState::Terminated,
        (WorkerState::Executing, WorkerEvent::TaskDone) => WorkerState::Idle,
        (WorkerState::Executing, WorkerEvent::TaskFailed) => WorkerState::Terminated,
        _ => state,
    }
}

/// One transition of a worker.
pub fn worker_step(state: WorkerState, event: WorkerEvent) -> (next: WorkerState)
    ensures
        next == next_state(state, event),
{
    match state {
        WorkerState::Idle => match event {
            WorkerEvent::TaskArrived => WorkerState::Executing,
            WorkerEvent::QueueClosed => WorkerState::Terminated,
            _ => WorkerState::Idle,
        },
        WorkerState::Executing => match event {
            WorkerEvent::TaskDone => WorkerState::Idle,
            WorkerEvent::TaskFailed => WorkerState::Terminated,
            _ => WorkerState::Executing,
        },
        WorkerState::Terminated => WorkerState::Terminated,
    }
}

/// A worker is never preempted and never revived: while it executes, only the
/// end of its task moves it, to idle where the task returned and to terminated
/// where it ended abnormally; once terminated nothing moves it; and it ends
/// only from idle on a closed queue or from executing on a failed task.
pub proof fn lemma_worker_runs_to_completion(state: WorkerState, event: WorkerEvent)
    ensures
        state == WorkerState::Terminated ==> next_state(state, event) == WorkerState::Terminated,
        state == WorkerState::Executing && event != WorkerEvent::TaskDone && event
            != WorkerEvent::TaskFailed ==> next_state(state, event) == WorkerState::Executing,
        state == WorkerState::Executing && event == WorkerEvent::TaskFailed ==> next_state(
            state,
            event,
        ) == WorkerState::Terminated,
        next_state(state, event) == WorkerState::Terminated ==> state == WorkerState::Terminated
            || (state == WorkerState::Idle && event == WorkerEvent::QueueClosed) || (state
            == WorkerState::Executing && event == WorkerEvent::TaskFailed),
{
}

/// What the watching routine does after one look at the clock and at the
/// watched task.
#[derive(Clone, Copy, Debug, PartialEq, Eq, Structural)]
pub enum Verdict {
    /// Neither has happened: look again.
    Waiting,
    /// The task has finished within the deadline: stop watching.
    Finished,
    /// The deadline has passed: stop watching and leave the task running.
    TimedOut,
}

/// The verdict on a task that has run for `elapsed_nanos` under a deadline of
/// `timeout_nanos`: the deadline has passed when strictly more time than the
/// timeout has elapsed, and it is looked at before the task is.
pub open spec fn verdict_of(elapsed_nanos: u128, timeout_nanos: u128, finished: bool) -> Verdict {
    if elapsed_nanos > timeout_nanos {
        Verdict::TimedOut
    } else if finished {
        Verdict::Finished
    } else {
        Verdict::Waiting
    }
}

/// One poll of the watching routine.
pub fn supervise(elapsed_nanos: u128, timeout_nanos: u128, finished: bool) -> (verdict: Verdict)
    ensures
        verdict == verdict_of(elapsed_nanos, timeout_nanos, finished),
{
    if elapsed_nanos > timeout_nanos {
        Verdict::TimedOut
    } else if finished {
        Verdict::Finished
    } else {
        Verdict::Waiting
    }
}

/// A watch ends at the first poll after the task has finished, whatever the
/// deadline; it ends on the deadline only once more time than the timeout has
/// passed; and until one or the other it goes on.
pub proof fn lemma_watch_ends_when_due(elapsed_nanos: u128, timeout_nanos: u128, finished: bool)
    ensures
        finished ==> verdict_of(elapsed_nanos, timeout_nanos, finished) != Verdict::Waiting,
        verdict_of(elapsed_nanos, timeout_nanos, finished) == Verdict::TimedOut <==> elapsed_nanos
            > timeout_nanos,
        verdict_of(elapsed_nanos, timeout_nanos, finished) == Verdict::Waiting <==> !finished
            && elapsed_nanos <= timeout_nanos,
{
}

} // verus!
