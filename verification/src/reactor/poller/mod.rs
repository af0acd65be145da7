//! A poller that reports readiness by token.
//!
//! - [`common`]: interests and readiness events
//! - [`kqueue`]: the poller on a kernel event queue

pub mod common;
pub mod kqueue;
