//! Strategies that choose the worker that receives the next task.

use vstd::prelude::*;

verus! {

/// The read-only view of a pool that a balancer is shown on each submission.
#[derive(Clone, Copy, Debug)]
pub struct PoolView {
    workers: usize,
}

impl PoolView {
    /// The number of workers, as a mathematical value.
    pub closed spec fn workers(&self) -> nat {
        self.workers as nat
    }

    /// A view of a pool with `workers` workers.
    pub fn new(workers: usize) -> (view: Self)
        ensures
            view.workers() == workers,
    {
        PoolView { workers }
    }

    /// The number of workers of the pool.
    pub fn worker_count(&self) -> (n: usize)
        ensures
            n == self.workers(),
    {
        self.workers
    }
}

/// A strategy that selects the target worker of a submission.
///
/// An implementation is asked once per submission and must answer with the
/// index of an existing worker. `chooses` is the relation between the state
/// before a call, the answer and the state after it. Unless a strategy says
/// more, it holds of every answer: so it does for one that draws its answer
/// from elsewhere.
pub trait Balancer: Sized {
    /// Whether this balancer, asked for a pool of `workers` workers, may
    /// answer `idx` and be left as `next`.
    open spec fn chooses(&self, workers: nat, idx: nat, next: &Self) -> bool {
        true
    }

    fn index(&mut self, state: &PoolView) -> (idx: usize)
        requires
            state.workers() > 0,
        ensures
            idx < state.workers(),
            old(self).chooses(state.workers(), idx as nat, final(self)),
    ;
}

/// The worker that a round-robin cursor at `cursor` selects among `workers`
/// workers: the cursor itself, or worker 0 where the pool has no worker of
/// that index.
pub open spec fn round_robin_target(cursor: nat, workers: nat) -> nat {
    if cursor >= workers {
        0
    } else {
        cursor
    }
}

/// The round-robin cursor after `calls` selections among `workers` workers,
/// starting from 0: each selection advances it by one past its answer and
/// wraps it to 0 on reaching the worker count.
pub open spec fn round_robin_cursor(workers: nat, calls: nat) -> nat
    decreases calls,
{
    if calls == 0 {
        0
    } else {
        (round_robin_target(round_robin_cursor(workers, (calls - 1) as nat), workers) + 1)
            % workers
    }
}

/// Round robin, the default strategy: one cursor that advances on each call.
#[derive(Debug)]
pub struct DefaultBalancer {
    index: usize,
}

impl DefaultBalancer {
    /// The cursor: the index that the next call answers with. After a call
    /// for a pool it is an index of that pool.
    pub closed spec fn cursor(&self) -> nat {
        self.index as nat
    }

    /// A round-robin balancer whose first answer is worker 0.
    pub fn new() -> (balancer: Self)
        ensures
            balancer.cursor() == 0,
    {
        DefaultBalancer { index: 0 }
    }
}

impl Balancer for DefaultBalancer {
    open spec fn chooses(&self, workers: nat, idx: nat, next: &Self) -> bool {
        idx == round_robin_target(self.cursor(), workers) && next.cursor() == (idx + 1) % workers
    }

    fn index(&mut self, state: &PoolView) -> (idx: usize) {
        let workers: usize = state.worker_count();
        let idx: usize = if self.index >= workers {
            0
        } else {
            self.index
        };
        proof {
            lemma_advance_wraps(idx as nat, workers as nat);
        }
        self.index = if idx + 1 == workers {
            0
        } else {
            idx + 1
        };
        idx
    }
}

/// A strategy that sends every task to one worker.
#[derive(Clone, Copy, Debug)]
pub struct FixedBalancer {
    target: usize,
}

impl FixedBalancer {
    /// The index this balancer was made with.
    pub closed spec fn target(&self) -> nat {
        self.target as nat
    }

    /// A balancer that answers `target`, reduced modulo the worker count
    /// where the pool has no worker of that index.
    pub fn new(target: usize) -> (balancer: Self)
        ensures
            balancer.target() == target,
    {
        FixedBalancer { target }
    }
}

impl Balancer for FixedBalancer {
    open spec fn chooses(&self, workers: nat, idx: nat, next: &Self) -> bool {
        workers > 0 && idx == self.target() % workers && next.target() == self.target()
    }

    fn index(&mut self, state: &PoolView) -> (idx: usize) {
        self.target % state.worker_count()
    }
}

/// A cursor advanced by one past an index of the pool is the next index, or
/// 0 past the last.
proof fn lemma_advance_wraps(idx: nat, workers: nat)
    requires
        idx < workers,
    ensures
        (idx + 1) % workers == if idx + 1 == workers {
            0nat
        } else {
            idx + 1
        },
        (idx + 1) % workers < workers,
{
    if idx + 1 == workers {
        assert((idx + 1) % workers == 0) by (nonlinear_arith)
            requires
                idx + 1 == workers,
                workers > 0,
        ;
    } else {
        assert((idx + 1) % workers == idx + 1) by (nonlinear_arith)
            requires
                idx + 1 < workers,
        ;
    }
}

/// The round-robin cursor is always an index of the pool.
pub proof fn lemma_cursor_bounds(workers: nat, calls: nat)
    requires
        workers > 0,
    ensures
        round_robin_cursor(workers, calls) < workers,
    decreases calls,
{
    if calls > 0 {
        let prev = (calls - 1) as nat;
        lemma_cursor_bounds(workers, prev);
        lemma_advance_wraps(round_robin_cursor(workers, prev), workers);
    }
}

/// Round robin: with `workers` workers and a fresh cursor, the submission of
/// 0-based number `i` finds the cursor at `i mod workers` and is routed to
/// that worker.
pub proof fn lemma_round_robin_routes_modulo(workers: nat, i: nat)
    requires
        workers > 0,
    ensures
        round_robin_cursor(workers, i) == i % workers,
        round_robin_target(round_robin_cursor(workers, i), workers) == i % workers,
    decreases i,
{
    lemma_cursor_bounds(workers, i);
    if i == 0 {
        assert(0nat % workers == 0) by (nonlinear_arith)
            requires
                workers > 0,
        ;
    } else {
        let prev = (i - 1) as nat;
        lemma_round_robin_routes_modulo(workers, prev);
        lemma_cursor_bounds(workers, prev);
        let target = round_robin_cursor(workers, prev);
        lemma_advance_wraps(target, workers);
        if target + 1 == workers {
            assert((prev + 1) % workers == 0) by (nonlinear_arith)
                requires
                    prev % workers + 1 == workers,
                    workers > 0,
            ;
        } else {
            assert((prev + 1) % workers == prev % workers + 1) by (nonlinear_arith)
                requires
                    prev % workers + 1 < workers,
                    workers > 0,
            ;
        }
    }
}

/// A call of the round-robin balancer whose cursor is an index of the pool
/// answers with the cursor and leaves it advanced by one, wrapped to 0 on
/// reaching the worker count: an index of the pool again.
pub proof fn lemma_round_robin_advances(
    before: DefaultBalancer,
    after: DefaultBalancer,
    workers: nat,
    idx: nat,
)
    requires
        before.cursor() < workers,
        before.chooses(workers, idx, &after),
    ensures
        idx == before.cursor(),
        after.cursor() == (before.cursor() + 1) % workers,
        after.cursor() < workers,
        after.cursor() == if before.cursor() + 1 == workers {
            0nat
        } else {
            before.cursor() + 1
        },
{
    lemma_advance_wraps(before.cursor(), workers);
}

/// One call of the round-robin balancer moves it from the state after `calls`
/// selections to the state after `calls + 1`, and answers `calls mod workers`.
pub proof fn lemma_round_robin_step(
    before: DefaultBalancer,
    after: DefaultBalancer,
    workers: nat,
    calls: nat,
    idx: nat,
)
    requires
        workers > 0,
        before.cursor() == round_robin_cursor(workers, calls),
        before.chooses(workers, idx, &after),
    ensures
        idx == calls % workers,
        after.cursor() == round_robin_cursor(workers, calls + 1),
{
    lemma_round_robin_routes_modulo(workers, calls);
}

/// A fixed-index balancer gives the same answer to every submission: whatever
/// it chooses twice for one pool is one worker, and that worker is its own
/// index wherever the pool has a worker of that index.
pub proof fn lemma_fixed_routes_to_one_worker(
    first: FixedBalancer,
    second: FixedBalancer,
    third: FixedBalancer,
    workers: nat,
    a: nat,
    b: nat,
)
    requires
        first.chooses(workers, a, &second),
        second.chooses(workers, b, &third),
    ensures
        a == b,
        first.target() < workers ==> a == first.target(),
{
    if first.target() < workers {
        assert(first.target() % workers == first.target()) by (nonlinear_arith)
            requires
                first.target() < workers,
        ;
    }
}

} // verus!
