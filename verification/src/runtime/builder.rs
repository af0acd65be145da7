//! Builder for a runtime without optional features.

use crate::runtime::event_loop::{Phase, Runtime};
use vstd::prelude::*;

verus! {

/// Builds a runtime with neither I/O nor filesystem support.
#[derive(Clone, Copy, Debug, PartialEq, Eq, Structural)]
pub struct RuntimeBuilder {}

impl RuntimeBuilder {
    /// A builder.
    pub fn new() -> (builder: Self) {
        RuntimeBuilder {  }
    }

    /// Builds the runtime.
    pub fn build(self) -> (runtime: Runtime)
        ensures
            !runtime.spec_io_enabled(),
            !runtime.spec_fs_enabled(),
            runtime.phase() == Phase::Idle,
    {
        Runtime::new()
    }
}

} // verus!
