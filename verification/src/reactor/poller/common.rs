//! What a poller is asked to watch and what it reports.

use vstd::prelude::*;

verus! {

/// The directions in which a descriptor is watched.
#[derive(Clone, Copy, Debug, PartialEq, Eq, Structural)]
pub struct Interest {
    /// Watch for data to read.
    pub read: bool,
    /// Watch for room to write.
    pub write: bool,
}

/// The readiness of whatever was registered under a token.
#[derive(Clone, Copy, Debug, PartialEq, Eq, Structural)]
pub struct Event {
    /// The token given at registration.
    pub token: usize,
    /// There is data to read.
    pub readable: bool,
    /// There is room to write.
    pub writable: bool,
}

} // verus!
