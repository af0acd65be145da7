//! Helpers built on the primitives of the runtime.
//!
//! - [`retry`]: trying a fallible computation several times

pub mod retry;
