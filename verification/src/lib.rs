//! A fixed-size worker pool: a bounded set of long-lived workers that run
//! one-shot jobs submitted through a single handle, with graceful teardown
//! (close the submission side, drain the queue, join every worker).
//!
//! The pool's lifecycle is modelled as a state machine over plain values:
//! each submission is given a ticket, the dispatch channel is a FIFO of
//! tickets, and a worker's blocking receive is an event on that state. The
//! contracts pin down the lifecycle guarantees: a pool never exists with
//! zero workers, a submission after teardown fails with a usage error, and
//! every job submitted before teardown is executed exactly once.

pub mod laws;
pub mod pool;
