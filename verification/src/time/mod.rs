//! Time utilities: sleep, timeout, and the timing of a task.
//!
//! - [`sleep`] pauses without blocking the runtime
//! - [`timeout`] bounds the time another computation may take
//! - [`wrapper::Time`] measures how long a task took
//!
//! Spans of time are counted in nanoseconds, and instants in nanoseconds on a
//! clock that never runs backwards.

pub mod timeout;
pub mod wrapper;

pub use crate::reactor::sleep::sleep;
pub use timeout::timeout;

use vstd::prelude::*;

verus! {

/// The error of a computation that ran out of time.
#[derive(Clone, Copy, Debug, PartialEq, Eq, Structural)]
pub enum TimeError {
    /// The deadline passed before the computation finished.
    TimeOut,
}

} // verus!
