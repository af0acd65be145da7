//! Small helpers shared by the other modules.
//!
//! - [`slab`]: slots that hold values under stable indices
//! - [`text`]: cutting a text into parts at a separator

pub mod slab;
pub mod text;
