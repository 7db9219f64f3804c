//! A fixed-size worker pool: a bounded set of persistent workers draining an
//! unbounded FIFO queue of jobs, with a close-and-drain shutdown protocol.
//!
//! The pool's control state is verified here with each job represented by an
//! identifier; running the job bodies on real threads is the caller's side.

pub mod batch;
pub mod hashing;
pub mod pool;
pub mod queue;
pub mod timing;
