//! The configuration of a pool and its construction.

use vstd::prelude::*;
use crate::balancer::{Balancer, DefaultBalancer};
use crate::channel::open_queue;
use crate::pool::MiniPool;
use crate::worker::Job;

verus! {

/// Why no pool was built.
#[derive(Clone, Copy, Debug, PartialEq, Eq, Structural)]
pub enum ConstructionError {
    /// No thread count was given and the machine's parallelism is not known.
    ParallelismUnknown,
    /// A worker thread could not be started.
    SpawnRefused,
}

/// The number of workers of a pool: the count that was configured, else the
/// parallelism that was detected, if any was.
pub open spec fn resolved_count(configured: Option<usize>, detected: Option<usize>) -> Option<
    usize,
> {
    match configured {
        Some(count) => Some(count),
        None => match detected {
            Some(count) if count > 0 => Some(count),
            _ => None,
        },
    }
}

/// The configuration of a pool. Every setting is optional.
pub struct MiniPoolBuilder<B: Balancer> {
    balance: B,
    count_threads: Option<usize>,
    stack_size: Option<usize>,
}

impl MiniPoolBuilder<DefaultBalancer> {
    /// A configuration with every default: as many workers as the machine
    /// runs threads in parallel, the platform's stack size, round robin.
    pub fn new() -> (builder: Self)
        ensures
            builder.wf(),
            builder.threads() == None::<usize>,
            builder.stack() == None::<usize>,
            builder.strategy().cursor() == 0,
    {
        MiniPoolBuilder { balance: DefaultBalancer::new(), count_threads: None, stack_size: None }
    }
}

impl Default for MiniPoolBuilder<DefaultBalancer> {
    fn default() -> (builder: Self)
        ensures
            builder.wf(),
            builder.threads() == None::<usize>,
            builder.stack() == None::<usize>,
            builder.strategy().cursor() == 0,
    {
        MiniPoolBuilder::new()
    }
}

impl<B: Balancer> MiniPoolBuilder<B> {
    /// The configured number of workers.
    pub closed spec fn threads(&self) -> Option<usize> {
        self.count_threads
    }

    /// The configured stack size of a worker thread, in bytes.
    pub closed spec fn stack(&self) -> Option<usize> {
        self.stack_size
    }

    /// The configured balancer.
    pub closed spec fn strategy(&self) -> B {
        self.balance
    }

    /// The invariant of a configuration: a count or a size that is set is
    /// positive.
    pub closed spec fn wf(&self) -> bool {
        &&& self.count_threads matches Some(count) ==> count > 0
        &&& self.stack_size matches Some(bytes) ==> bytes > 0
    }

    /// Sets the number of workers.
    pub fn count_threads(self, count: usize) -> (builder: Self)
        requires
            self.wf(),
            count > 0,
        ensures
            builder.wf(),
            builder.threads() == Some(count),
            builder.stack() == self.stack(),
            builder.strategy() == self.strategy(),
    {
        let mut builder = self;
        builder.count_threads = Some(count);
        builder
    }

    /// Sets the stack size of each worker thread, in bytes.
    pub fn stack_size(self, bytes: usize) -> (builder: Self)
        requires
            self.wf(),
            bytes > 0,
        ensures
            builder.wf(),
            builder.threads() == self.threads(),
            builder.stack() == Some(bytes),
            builder.strategy() == self.strategy(),
    {
        let mut builder = self;
        builder.stack_size = Some(bytes);
        builder
    }

    /// Sets the balancer.
    pub fn balancer<C: Balancer>(self, balancer: C) -> (builder: MiniPoolBuilder<C>)
        requires
            self.wf(),
        ensures
            builder.wf(),
            builder.threads() == self.threads(),
            builder.stack() == self.stack(),
            builder.strategy() == balancer,
    {
        MiniPoolBuilder {
            balance: balancer,
            count_threads: self.count_threads,
            stack_size: self.stack_size,
        }
    }

    /// Builds the pool: one queue per worker, all of them open, and the
    /// balancer as configured. `detected` is the parallelism of the machine,
    /// where it is known; it counts only where no thread count was set.
    ///
    /// With the pool come the receiving ends of the queues, one per worker
    /// and in the workers' order: worker `i` drains the `i`-th. The only
    /// failure here is a count that is neither set nor detected.
    pub fn build<F>(self, detected: Option<usize>) -> (built: Result<
        (MiniPool<F, B>, Vec<std::sync::mpsc::Receiver<Job<F>>>),
        ConstructionError,
    >)
        requires
            self.wf(),
        ensures
            match resolved_count(self.threads(), detected) {
                None => built matches Err(ConstructionError::ParallelismUnknown),
                Some(count) => {
                    &&& built matches Ok(made)
                    &&& made.0.wf()
                    &&& !made.0.closed()
                    &&& made.0.workers() == count
                    &&& made.0.stack() == self.stack()
                    &&& made.0.balancer() == self.strategy()
                    &&& made.0.accepted() == Seq::new(count as nat, |i: int| Seq::<Job<F>>::empty())
                    &&& made.1@.len() == count
                },
            },
    {
        let count: usize = match self.count_threads {
            Some(count) => count,
            None => match detected {
                Some(count) => {
                    if count == 0 {
                        return Err(ConstructionError::ParallelismUnknown);
                    }
                    count
                },
                None => {
                    return Err(ConstructionError::ParallelismUnknown);
                },
            },
        };
        let mut senders: Vec<std::sync::mpsc::Sender<Job<F>>> = Vec::new();
        let mut receivers: Vec<std::sync::mpsc::Receiver<Job<F>>> = Vec::new();
        let mut made: usize = 0;
        while made < count
            invariant
                made <= count,
                senders@.len() == made,
                receivers@.len() == made,
            decreases count - made,
        {
            let (sx, rx) = open_queue::<Job<F>>();
            senders.push(sx);
            receivers.push(rx);
            made += 1;
        }
        Ok((MiniPool::assemble(senders, self.stack_size, self.balance), receivers))
    }
}

} // verus!
