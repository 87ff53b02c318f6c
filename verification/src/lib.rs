//! The deciding core of a fixed-size worker pool.
//!
//! A pool owns a fixed set of workers and one intake: a first-in, first-out
//! queue of jobs with a sending side that can be closed. Callers submit
//! jobs; each worker takes the oldest queued job, runs it, and comes back
//! for the next; teardown closes the sending side first and joins the
//! workers in the order of their numbers.
//!
//! This crate holds every decision of that design and no thread. A job is
//! any value, a thread handle is any value, and a pool is driven by events:
//! a job is submitted, a worker goes for the next job, a worker reports that
//! its job has run to the end, the owner takes a step of teardown, the owner
//! reports a join. A runtime that has threads keeps one pool behind a lock,
//! calls in on each event, and performs what it is told. What is proved here
//! holds of every order in which those calls can come.
//!
//! - [`pool::intake`]: the queue, and what became of every job it accepted.
//! - [`pool::worker`]: a worker's record, and what a worker does next.
//! - [`pool::thread_pool`]: the pool, its life cycle, and its teardown.
//! - [`pool::laws`]: what holds of a pool whatever happens to it.

pub mod pool;

pub use pool::thread_pool::{PoolCreationError, ThreadPool};
pub use pool::worker::Worker;
