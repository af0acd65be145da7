//! Runtime subsystem.
//!
//! - [`queue`]: FIFO queue of runnable tasks
//! - [`event_loop`]: the decisions of the executor loop
//! - [`waker`]: wakers that put a task back on the ready queue
//! - [`context`]: the current runtime context and its feature switches
//! - [`workstealing`]: queues for several workers that share work
//! - [`yield_now`]: giving up the thread for one scheduling cycle

pub mod builder;
pub mod context;
pub mod event_loop;
pub mod queue;
pub mod waker;
pub mod workstealing;
pub mod yield_now;
