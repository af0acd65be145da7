//! The answer of one poll of a lazily polled computation.

use vstd::prelude::*;

verus! {

/// Whether a polled computation has produced its value.
#[derive(Debug)]
pub enum Poll<T> {
    /// The computation finished with this value.
    Ready(T),
    /// The computation cannot make progress now; its waker fires when it can.
    Pending,
}

impl<T> Poll<T> {
    /// Whether the computation finished.
    pub fn is_ready(&self) -> (ready: bool)
        ensures
            ready == (*self is Ready),
    {
        match self {
            Poll::Ready(_) => true,
            Poll::Pending => false,
        }
    }

    /// Whether the computation is still under way.
    pub fn is_pending(&self) -> (pending: bool)
        ensures
            pending == (*self is Pending),
    {
        match self {
            Poll::Ready(_) => false,
            Poll::Pending => true,
        }
    }
}

} // verus!
