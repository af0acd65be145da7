//! Builder of the minimal runtime.

use crate::executor::runtime::Runtime;
use vstd::prelude::*;

verus! {

/// Why a runtime could not be built.
#[derive(Clone, Copy, Debug, PartialEq, Eq, Structural)]
pub enum BuildError {
    /// The runtime cannot be had on this platform. Building does not fail
    /// this way at present.
    Unavailable,
}

/// Collects the settings of a runtime.
#[derive(Clone, Copy, Debug, PartialEq, Eq, Structural)]
pub struct Builder {
    /// Number of worker threads asked for.
    pub worker_threads: usize,
}

impl Builder {
    /// Asks for `n` worker threads.
    pub fn worker_threads(self, n: usize) -> (builder: Self)
        ensures
            builder.worker_threads == n,
    {
        let mut builder = self;
        builder.worker_threads = n;
        builder
    }

    /// Builds the runtime. This cannot fail.
    pub fn build(self) -> (built: Result<Runtime, BuildError>)
        ensures
            built is Ok,
    {
        Ok(Runtime::default())
    }
}

impl Default for Builder {
    fn default() -> (builder: Self)
        ensures
            builder.worker_threads == 1,
    {
        Builder { worker_threads: 1 }
    }
}

} // verus!
