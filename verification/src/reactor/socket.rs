//! Taking in a client of an echoing listener.

use crate::reactor::event::{Event, Filter};
use crate::reactor::io::{Connexion, ConnexionState};
use crate::reactor::syscall::Outcome;
use vstd::prelude::*;

verus! {

/// A client that was accepted.
pub struct Accepted {
    /// The descriptor of the client, to be switched to non-blocking mode.
    pub file_descriptor: i32,
    /// The event that arms the notifier for data from the client.
    pub arm: Event,
    /// The state of the connection: waiting for data, nothing buffered.
    pub connexion: Connexion,
}

/// Reads the outcome of an `accept` on a listening descriptor. A call that
/// would block or failed brings no client. A call that returned a
/// descriptor brings a client that waits for data.
pub fn accept_client(outcome: Outcome) -> (accepted: Option<Accepted>)
    requires
        outcome matches Outcome::Done(n) ==> n <= i32::MAX,
    ensures
        match outcome {
            Outcome::Done(n) => {
                &&& accepted is Some
                &&& accepted->0.file_descriptor == n
                &&& accepted->0.arm == Event::arming(n, Filter::Read, None)
                &&& accepted->0.connexion.state == ConnexionState::Reading
                &&& accepted->0.connexion.out@ == Seq::<u8>::empty()
            },
            _ => accepted is None,
        },
{
    match outcome {
        Outcome::Done(n) => Some(
            Accepted {
                file_descriptor: n as i32,
                arm: Event::new(n, Filter::Read, None),
                connexion: Connexion::new(),
            },
        ),
        _ => None,
    }
}

} // verus!
