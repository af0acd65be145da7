//! Support for the attribute that turns an entry function into a program
//! run by the runtime.
//!
//! - [`args`]: the arguments of the attribute

pub mod args;
