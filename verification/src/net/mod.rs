//! Non-blocking TCP networking.
//!
//! - [`future`]: the accept, read and write futures
//! - [`tcp_listener`]: a listening socket
//! - [`tcp_stream`]: a connected socket
//! - [`utils`]: socket addresses

pub mod future;
pub mod tcp_listener;
pub mod tcp_stream;
pub mod utils;
