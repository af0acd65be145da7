//! State of a connection that echoes what it reads.
//!
//! A connection alternates between reading and writing: what a read brings
//! in is buffered and written back, and once the buffer is drained the
//! connection reads again. The system calls are made by the caller, who
//! passes their outcome in.

use crate::reactor::event::{Event, Filter};
use crate::reactor::syscall::Outcome;
use vstd::prelude::*;

verus! {

/// Most bytes that a connection buffers for writing back.
pub const OUT_MAX_BYTES: usize = 8 * 1024 * 1024;

/// Size of the buffer that a read fills.
pub const READ_CHUNK: usize = 1024;

/// What a connection is waiting to do.
#[derive(Clone, Copy, Debug, PartialEq, Eq, Structural)]
pub enum ConnexionState {
    /// The connection waits for data to read.
    Reading,
    /// The connection has data to write back.
    Writing,
}

/// A connection: what it waits for, and the bytes still to be written back.
pub struct Connexion {
    /// What the connection is waiting to do.
    pub state: ConnexionState,
    /// The bytes still to be written back.
    pub out: Vec<u8>,
}

/// What a write on a connection decided.
pub struct Written {
    /// Whether the connection is to be closed.
    pub close: bool,
    /// The event that withdraws write interest, once everything is written.
    pub disarm: Option<Event>,
}

impl Connexion {
    /// A connection that waits for data, with nothing to write back.
    pub fn new() -> (connexion: Self)
        ensures
            connexion.state == ConnexionState::Reading,
            connexion.out@ == Seq::<u8>::empty(),
    {
        Connexion { state: ConnexionState::Reading, out: Vec::new() }
    }

    /// Takes the outcome of a read and the bytes it brought in, and tells
    /// whether the connection is to be closed.
    ///
    /// End of stream and errors close the connection, and so does data that
    /// would make the buffer exceed `OUT_MAX_BYTES`. A read that would block
    /// changes nothing. Otherwise the data joins the buffer and the
    /// connection turns to writing.
    pub fn handle_read(&mut self, outcome: Outcome, data: &[u8]) -> (close: bool)
        requires
            outcome matches Outcome::Done(n) ==> n == data@.len(),
        ensures
            match outcome {
                Outcome::Done(n) => if n == 0 || old(self).out@.len() + n > OUT_MAX_BYTES {
                    close && *final(self) == *old(self)
                } else {
                    &&& !close
                    &&& final(self).state == ConnexionState::Writing
                    &&& final(self).out@ == old(self).out@ + data@
                },
                Outcome::WouldBlock => !close && *final(self) == *old(self),
                Outcome::Failed(_) => close && *final(self) == *old(self),
            },
    {
        match outcome {
            Outcome::Done(n) => {
                if n == 0 {
                    return true;
                }
                if n > OUT_MAX_BYTES || self.out.len() > OUT_MAX_BYTES - n {
                    return true;
                }
                self.out.extend_from_slice(data);
                self.state = ConnexionState::Writing;
                assert(self.out@ =~= old(self).out@ + data@);
                false
            },
            Outcome::WouldBlock => false,
            Outcome::Failed(_) => true,
        }
    }

    /// Takes the outcome of a write of the whole buffer to the descriptor
    /// `file_descriptor`.
    ///
    /// An error closes the connection. A write that would block changes
    /// nothing. Otherwise the bytes written leave the front of the buffer;
    /// once the buffer is empty the connection turns to reading again, and
    /// the event that withdraws write interest is returned.
    pub fn handle_write(&mut self, file_descriptor: i32, outcome: Outcome) -> (written: Written)
        requires
            outcome matches Outcome::Done(n) ==> n <= old(self).out@.len(),
        ensures
            match outcome {
                Outcome::Done(n) => {
                    &&& !written.close
                    &&& final(self).out@ == old(self).out@.skip(n as int)
                    &&& if n == old(self).out@.len() {
                        &&& final(self).state == ConnexionState::Reading
                        &&& written.disarm == Some(
                            Event::disarming(file_descriptor as usize, Filter::Write),
                        )
                    } else {
                        &&& final(self).state == old(self).state
                        &&& written.disarm is None
                    }
                },
                Outcome::WouldBlock => {
                    &&& !written.close
                    &&& written.disarm is None
                    &&& *final(self) == *old(self)
                },
                Outcome::Failed(_) => {
                    &&& written.close
                    &&& written.disarm is None
                    &&& *final(self) == *old(self)
                },
            },
    {
        match outcome {
            Outcome::Done(n) => {
                let rest = self.out.split_off(n);
                self.out = rest;
                assert(self.out@ =~= old(self).out@.skip(n as int));
                if self.out.len() == 0 {
                    self.state = ConnexionState::Reading;
                    Written {
                        close: false,
                        disarm: Some(Event::unregister(file_descriptor as usize, Filter::Write)),
                    }
                } else {
                    Written { close: false, disarm: None }
                }
            },
            Outcome::WouldBlock => Written { close: false, disarm: None },
            Outcome::Failed(_) => Written { close: true, disarm: None },
        }
    }
}

} // verus!
