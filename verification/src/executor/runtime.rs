//! The minimal runtime.

use crate::executor::builder::Builder;
use vstd::prelude::*;

verus! {

/// A runtime that drives one future at a time on the calling thread.
/// Driving the future is left to the embedding program.
#[derive(Clone, Copy, Debug, PartialEq, Eq, Structural)]
pub struct Runtime {}

impl Runtime {
    /// A builder with one worker thread.
    pub fn builder() -> (builder: Builder)
        ensures
            builder.worker_threads == 1,
    {
        Builder::default()
    }
}

impl Default for Runtime {
    fn default() -> (runtime: Self) {
        Runtime {  }
    }
}

} // verus!
