//! A fixed-size worker pool: tasks are routed to per-worker queues by a
//! pluggable balancer, a join closes the queues, and a task may be put under
//! the watch of a deadline.
//!
//! The pool owns the sending end of every queue and is driven by one owner.
//! The threads that drain the queues are started by the caller, who follows the
//! worker protocol of [`worker`].

pub mod balancer;
pub mod builder;
pub mod channel;
pub mod pool;
pub mod worker;

pub use balancer::{Balancer, DefaultBalancer, FixedBalancer, PoolView};
pub use builder::{ConstructionError, MiniPoolBuilder};
pub use pool::{all_finished, delivery_outcome, DeliveryError, MiniPool};
pub use worker::{supervise, worker_step, Job, Verdict, WorkerEvent, WorkerState};
