//! Fluent builder for a runtime.

use crate::runtime::event_loop::{Phase, Runtime};
use vstd::prelude::*;

verus! {

/// Collects the features wanted of a runtime and builds it.
#[derive(Clone, Copy, Debug, PartialEq, Eq, Structural)]
pub struct RuntimeBuilder {
    /// Reactor-backed I/O was asked for.
    pub enable_io: bool,
    /// Filesystem support was asked for.
    pub enable_fs: bool,
}

impl RuntimeBuilder {
    /// A builder with every feature switched off.
    pub fn new() -> (builder: Self)
        ensures
            builder == (RuntimeBuilder { enable_io: false, enable_fs: false }),
    {
        RuntimeBuilder { enable_io: false, enable_fs: false }
    }

    /// Switches reactor-backed I/O on.
    pub fn enable_io(self) -> (builder: Self)
        ensures
            builder == (RuntimeBuilder { enable_io: true, enable_fs: self.enable_fs }),
    {
        let mut builder = self;
        builder.enable_io = true;
        builder
    }

    /// Switches filesystem support on, and with it the reactor-backed I/O it
    /// relies on.
    pub fn enable_fs(self) -> (builder: Self)
        ensures
            builder == (RuntimeBuilder { enable_io: true, enable_fs: true }),
    {
        let mut builder = self;
        builder.enable_fs = true;
        builder.enable_io = true;
        builder
    }

    /// Builds the runtime with the features collected.
    pub fn build(self) -> (runtime: Runtime)
        ensures
            runtime.spec_io_enabled() == (self.enable_io || self.enable_fs),
            runtime.spec_fs_enabled() == self.enable_fs,
            runtime.phase() == Phase::Idle,
    {
        Runtime::with_features(self.enable_io, self.enable_fs)
    }
}

impl Default for RuntimeBuilder {
    fn default() -> (builder: Self)
        ensures
            builder == (RuntimeBuilder { enable_io: false, enable_fs: false }),
    {
        Self::new()
    }
}

} // verus!
