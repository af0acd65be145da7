//! A single-threaded, reactor-driven runtime core for lazily polled tasks.
//!
//! The crate holds the decision logic of the runtime as plain state machines:
//! the reactor that maps readiness events to wakers, the FIFO ready queue, the
//! task life cycle, the protocol followed by every non-blocking I/O future, and
//! the executor loop. Kernel calls and the polling of user futures are left to
//! the embedding program, which feeds their outcomes in as plain values.
//!
//! - [`reactor`]: events, the reactor, the I/O futures, sleep, the poller
//! - [`runtime`]: ready queue, executor loop, wakers, context, work sharing
//! - [`task`]: tasks, join handles, join sets
//! - [`time`] and [`timer`]: timeout, stopwatch, timers kept by deadline
//! - [`net`] and [`fs`]: sockets and socket addresses, files and directories
//! - [`builder`] and [`executor`]: building a runtime, the minimal executor
//! - [`tools`], [`macros`], [`utils`]: retry, entry arguments, slab and text
//! - [`error`] and [`poll`]: the errors and the answer of a poll

pub mod builder;
pub mod error;
pub mod executor;
pub mod fs;
pub mod macros;
pub mod net;
pub mod poll;
pub mod reactor;
pub mod runtime;
pub mod task;
pub mod time;
pub mod timer;
pub mod tools;
pub mod utils;
