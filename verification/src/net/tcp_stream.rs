//! A connected, non-blocking TCP socket.

use crate::reactor::future::{ReadFuture, WriteAll, WriteFuture};
use vstd::prelude::*;

verus! {

/// A connected socket, known by its descriptor. Closing the descriptor is up
/// to the owner of the stream.
#[derive(Debug, PartialEq, Eq, Structural)]
pub struct TcpStream {
    /// The descriptor of the socket.
    pub file_descriptor: i32,
}

impl TcpStream {
    /// The stream on the connected socket `file_descriptor`.
    pub fn new(file_descriptor: i32) -> (stream: Self)
        ensures
            stream.file_descriptor == file_descriptor,
    {
        TcpStream { file_descriptor }
    }

    /// A read from the socket.
    pub fn read(&self) -> (future: ReadFuture)
        ensures
            future.fd() == self.file_descriptor,
            !future.registered(),
    {
        ReadFuture::new(self.file_descriptor)
    }

    /// A single write to the socket, which may write less than it is given.
    pub fn write(&self) -> (future: WriteFuture)
        ensures
            future.fd() == self.file_descriptor,
            !future.registered(),
    {
        WriteFuture::new(self.file_descriptor)
    }

    /// A write of a whole buffer of `len` bytes to the socket.
    pub fn write_all(&self, len: usize) -> (op: WriteAll)
        ensures
            op.valid(),
            op.total() == len,
            op.written() == 0,
            op.current().fd() == self.file_descriptor,
            !op.current().registered(),
    {
        WriteAll::new(self.file_descriptor, len)
    }
}

} // verus!
