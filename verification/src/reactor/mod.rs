//! Event-driven I/O reactor.
//!
//! - [`event`]: description of one kernel event and of the changes submitted
//!   to the kernel notifier
//! - [`dispatch`]: the reactor proper, mapping descriptors and timer ids to wakers
//! - [`syscall`]: reading the outcome of a non-blocking system call
//! - [`future`]: read and write futures on file descriptors
//! - [`sleep`]: the sleep future
//! - [`socket`]: taking in a client of an echoing listener
//! - [`io`]: state of an echoing connection
//! - [`poller`]: a poller that reports readiness by token

pub mod dispatch;
pub mod event;
pub mod future;
pub mod io;
pub mod poller;
pub mod sleep;
pub mod socket;
pub mod syscall;
