//! The pool: the sending ends of the workers' queues and the balancer that
//! routes each submission to one of them.

use vstd::prelude::*;
use crate::balancer::{Balancer, DefaultBalancer, PoolView};
use crate::builder::{ConstructionError, MiniPoolBuilder};
use crate::channel::send_on;
use crate::worker::Job;

verus! {

/// A task could not be handed to the worker it was routed to: the queue of
/// that worker is closed, by a join of the pool or by the end of its thread.
#[derive(Clone, Copy, Debug, PartialEq, Eq, Structural)]
pub struct DeliveryError {
    /// The index of the worker that the task was routed to.
    pub worker: usize,
}

/// The worker that a submission was routed to, delivered or not.
pub open spec fn routed_to(outcome: Result<usize, DeliveryError>) -> nat {
    match outcome {
        Ok(worker) => worker as nat,
        Err(error) => error.worker as nat,
    }
}

/// The outcome of a submission routed to `worker`, given whether the queue of
/// that worker took the task.
pub fn delivery_outcome(worker: usize, sent: bool) -> (outcome: Result<usize, DeliveryError>)
    ensures
        outcome == if sent {
            Ok::<usize, DeliveryError>(worker)
        } else {
            Err::<usize, DeliveryError>(DeliveryError { worker })
        },
{
    if sent {
        Ok(worker)
    } else {
        Err(DeliveryError { worker })
    }
}

/// Whether every worker has finished, given the finished flag of each: the
/// question that a join repeats until the answer is yes.
pub fn all_finished(finished: &[bool]) -> (done: bool)
    ensures
        done == (forall|i: int| 0 <= i < finished@.len() ==> finished@[i]),
{
    let mut is_finish = true;
    let mut i: usize = 0;
    while i < finished.len()
        invariant
            i <= finished@.len(),
            is_finish == (forall|j: int| 0 <= j < i ==> finished@[j]),
        decreases finished@.len() - i,
    {
        if !finished[i] {
            is_finish = false;
        }
        i += 1;
    }
    is_finish
}

/// A pool of a fixed number of workers.
///
/// The pool holds one queue per worker and a balancer. It is confined to the
/// thread that owns it: it can be neither sent to nor shared with another.
#[verifier::reject_recursive_types(F)]
pub struct MiniPool<F, B: Balancer> {
    senders: Vec<std::sync::mpsc::Sender<Job<F>>>,
    workers: usize,
    stack_size: Option<usize>,
    balance: B,
    accepted: Ghost<Seq<Seq<Job<F>>>>,
    // Keeps the pool on the thread that owns it.
    confined: core::marker::PhantomData<std::rc::Rc<()>>,
}

/// What a submission of `job` leaves on the queues `before`: accepted, the
/// job stands at the end of the queue of the worker it was routed to; refused,
/// the job is dropped. No other queue changes.
pub open spec fn queues_after<F>(
    before: Seq<Seq<Job<F>>>,
    job: Job<F>,
    outcome: Result<usize, DeliveryError>,
) -> Seq<Seq<Job<F>>> {
    match outcome {
        Ok(worker) => before.update(worker as int, before[worker as int].push(job)),
        Err(_) => before,
    }
}

/// The queues after the jobs of `jobs` were submitted one after the other and
/// each was accepted by the worker `worker`.
pub open spec fn queues_after_all<F>(
    before: Seq<Seq<Job<F>>>,
    jobs: Seq<Job<F>>,
    worker: usize,
) -> Seq<Seq<Job<F>>>
    decreases jobs.len(),
{
    if jobs.len() == 0 {
        before
    } else {
        queues_after(
            queues_after_all(before, jobs.drop_last(), worker),
            jobs.last(),
            Ok(worker),
        )
    }
}

/// Tasks that one worker accepts stand on its queue in the order of their
/// submission, behind what was there, and the queues of the other workers
/// stay as they were.
pub proof fn lemma_queue_keeps_submission_order<F>(
    before: Seq<Seq<Job<F>>>,
    jobs: Seq<Job<F>>,
    worker: usize,
)
    requires
        worker < before.len(),
    ensures
        queues_after_all(before, jobs, worker).len() == before.len(),
        queues_after_all(before, jobs, worker)[worker as int] == before[worker as int] + jobs,
        forall|other: int|
            0 <= other < before.len() && other != worker ==> #[trigger] queues_after_all(
                before,
                jobs,
                worker,
            )[other] == before[other],
    decreases jobs.len(),
{
    if jobs.len() == 0 {
        assert(before[worker as int] + jobs =~= before[worker as int]);
    } else {
        lemma_queue_keeps_submission_order(before, jobs.drop_last(), worker);
        assert((before[worker as int] + jobs.drop_last()).push(jobs.last()) =~= before[worker as int]
            + jobs);
    }
}

impl<F, B: Balancer> MiniPool<F, B> {
    /// The number of workers, fixed when the pool was built.
    pub closed spec fn workers(&self) -> nat {
        self.workers as nat
    }

    /// Whether the queues have been closed by a join.
    pub closed spec fn closed(&self) -> bool {
        self.senders@.len() == 0
    }

    /// The stack size that the worker threads are to be given, where one was
    /// asked for.
    pub closed spec fn stack(&self) -> Option<usize> {
        self.stack_size
    }

    /// The balancer in its current state.
    pub closed spec fn balancer(&self) -> B {
        self.balance
    }

    /// For each worker, the jobs that its queue has accepted since the pool
    /// was built, in the order of their submission.
    pub closed spec fn accepted(&self) -> Seq<Seq<Job<F>>> {
        self.accepted@
    }

    /// The invariant of a pool: it has at least one worker, and holds either
    /// one open queue per worker or, after a join, none.
    pub closed spec fn wf(&self) -> bool {
        &&& self.workers > 0
        &&& (self.senders@.len() == self.workers || self.senders@.len() == 0)
        &&& self.accepted@.len() == self.workers
    }

    /// A well-formed pool has at least one worker and a record for each.
    pub proof fn lemma_wf_has_workers(&self)
        requires
            self.wf(),
        ensures
            self.workers() > 0,
            self.accepted().len() == self.workers(),
    {
    }

    /// Puts together a pool from the sending ends of its queues.
    pub(crate) fn assemble(
        senders: Vec<std::sync::mpsc::Sender<Job<F>>>,
        stack_size: Option<usize>,
        balance: B,
    ) -> (pool: Self)
        requires
            senders@.len() > 0,
        ensures
            pool.wf(),
            !pool.closed(),
            pool.workers() == senders@.len(),
            pool.stack() == stack_size,
            pool.balancer() == balance,
            pool.accepted() == Seq::new(senders@.len(), |i: int| Seq::<Job<F>>::empty()),
    {
        let workers: usize = senders.len();
        let ghost count = senders@.len();
        MiniPool {
            senders,
            workers,
            stack_size,
            balance,
            accepted: Ghost(Seq::new(count, |i: int| Seq::<Job<F>>::empty())),
            confined: core::marker::PhantomData,
        }
    }

    /// The number of workers.
    pub fn worker_count(&self) -> (n: usize)
        ensures
            n == self.workers(),
    {
        self.workers
    }

    /// Whether a join has closed the queues.
    pub fn is_closed(&self) -> (closed: bool)
        ensures
            closed == self.closed(),
    {
        self.senders.len() == 0
    }

    /// The stack size for the worker threads, where one was configured.
    pub fn worker_stack_size(&self) -> (bytes: Option<usize>)
        ensures
            bytes == self.stack(),
    {
        self.stack_size
    }

    /// Confirms a pool of which `live` worker threads were started. A pool is
    /// ready only when every worker is live: with fewer the construction has
    /// failed as a whole, and the pool is given up.
    pub fn started(self, live: usize) -> (ready: Result<Self, ConstructionError>)
        ensures
            live == self.workers() ==> ready == Ok::<Self, ConstructionError>(self),
            live != self.workers() ==> ready == Err::<Self, ConstructionError>(
                ConstructionError::SpawnRefused,
            ),
    {
        if live == self.workers {
            Ok(self)
        } else {
            Err(ConstructionError::SpawnRefused)
        }
    }

    /// Asks the balancer once for a worker and hands `job` to its queue.
    fn dispatch(&mut self, job: Job<F>) -> (outcome: Result<usize, DeliveryError>)
        requires
            old(self).wf(),
        ensures
            final(self).wf(),
            final(self).workers() == old(self).workers(),
            final(self).closed() == old(self).closed(),
            final(self).stack() == old(self).stack(),
            routed_to(outcome) < old(self).workers(),
            old(self).balancer().chooses(
                old(self).workers(),
                routed_to(outcome),
                &final(self).balancer(),
            ),
            old(self).closed() ==> outcome is Err,
            final(self).accepted() == queues_after(old(self).accepted(), job, outcome),
    {
        let ghost handed = job;
        let view = PoolView::new(self.workers);
        let idx: usize = self.balance.index(&view);
        if self.senders.len() == 0 {
            Err(DeliveryError { worker: idx })
        } else {
            let sent = send_on(&self.senders[idx], job);
            let outcome = delivery_outcome(idx, sent);
            self.accepted = Ghost(queues_after(self.accepted@, handed, outcome));
            outcome
        }
    }

    /// Submits a task: the balancer is asked once for a worker, and the task
    /// is put at the end of that worker's queue.
    ///
    /// The answer names the worker chosen. It is an error, with the task
    /// dropped, when the queue of that worker is closed: always after a join,
    /// and otherwise when the thread of that worker has ended, which only the
    /// queue can tell. Nothing is reported of the task's own course.
    pub fn spawn(&mut self, func: F) -> (outcome: Result<usize, DeliveryError>)
        requires
            old(self).wf(),
        ensures
            final(self).wf(),
            final(self).workers() == old(self).workers(),
            final(self).closed() == old(self).closed(),
            final(self).stack() == old(self).stack(),
            routed_to(outcome) < old(self).workers(),
            old(self).balancer().chooses(
                old(self).workers(),
                routed_to(outcome),
                &final(self).balancer(),
            ),
            old(self).closed() ==> outcome is Err,
            final(self).accepted() == queues_after(
                old(self).accepted(),
                Job::Plain(func),
                outcome,
            ),
    {
        self.dispatch(Job::Plain(func))
    }

    /// Submits a task under a deadline: routed as any other, it is run by its
    /// worker on a thread of its own, and the worker moves on once the task
    /// has finished or `timeout` has passed. The task is never interrupted: on
    /// a timeout it runs on, out of the pool's sight, and a join does not wait
    /// for it.
    pub fn spawn_with_timeout(&mut self, func: F, timeout: std::time::Duration) -> (outcome: Result<
        usize,
        DeliveryError,
    >)
        requires
            old(self).wf(),
        ensures
            final(self).wf(),
            final(self).workers() == old(self).workers(),
            final(self).closed() == old(self).closed(),
            final(self).stack() == old(self).stack(),
            routed_to(outcome) < old(self).workers(),
            old(self).balancer().chooses(
                old(self).workers(),
                routed_to(outcome),
                &final(self).balancer(),
            ),
            old(self).closed() ==> outcome is Err,
            final(self).accepted() == queues_after(
                old(self).accepted(),
                Job::Timed(func, timeout),
                outcome,
            ),
    {
        self.dispatch(Job::Timed(func, timeout))
    }

    /// Closes the queue of every worker, so that each worker ends once it has
    /// drained what it was sent. The wait for the workers is the caller's: it
    /// polls their threads until `all_finished` says yes.
    pub fn join_all(&mut self)
        requires
            old(self).wf(),
        ensures
            final(self).wf(),
            final(self).closed(),
            final(self).workers() == old(self).workers(),
            final(self).stack() == old(self).stack(),
            final(self).balancer() == old(self).balancer(),
            final(self).accepted() == old(self).accepted(),
    {
        self.senders.clear();
    }
}

impl<F> MiniPool<F, DefaultBalancer> {
    /// A pool with every default: round robin over as many workers as the
    /// machine runs threads in parallel, `parallelism`, with the platform's
    /// stack size. With it come the receiving ends of the queues, one per
    /// worker and in the workers' order.
    pub fn new(parallelism: usize) -> (made: (Self, Vec<std::sync::mpsc::Receiver<Job<F>>>))
        requires
            parallelism > 0,
        ensures
            made.0.wf(),
            !made.0.closed(),
            made.0.workers() == parallelism,
            made.0.stack() == None::<usize>,
            made.0.balancer().cursor() == 0,
            made.0.accepted() == Seq::new(parallelism as nat, |i: int| Seq::<Job<F>>::empty()),
            made.1@.len() == parallelism,
    {
        MiniPoolBuilder::new().build(Some(parallelism)).unwrap()
    }

    /// A builder with every default.
    pub fn builder() -> (builder: MiniPoolBuilder<DefaultBalancer>)
        ensures
            builder.wf(),
            builder.threads() == None::<usize>,
            builder.stack() == None::<usize>,
            builder.strategy().cursor() == 0,
    {
        MiniPoolBuilder::new()
    }
}

} // verus!
