//! Non-blocking files and directories.
//!
//! - [`file`]: opening, reading and writing files
//! - [`folder`]: creating directories

pub mod file;
pub mod folder;

pub use file::File;
pub use folder::Folder;
