//! A minimal executor front end: a builder and the runtime it builds.

pub mod builder;
pub mod runtime;
