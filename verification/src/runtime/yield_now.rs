//! Giving up the thread for one scheduling cycle.

use crate::poll::Poll;
use vstd::prelude::*;

verus! {

/// A computation that is pending once and ready afterwards.
#[derive(Clone, Copy, Debug, PartialEq, Eq, Structural)]
pub struct YieldOnce {
    /// Whether the computation has been polled before.
    pub yielded: bool,
}

/// What one poll of a [`YieldOnce`] decided.
pub struct Yielded {
    /// The answer of the poll.
    pub poll: Poll<()>,
    /// Whether the caller is to wake the current task by reference, so that
    /// it is polled again in the next cycle.
    pub wake: bool,
}

/// A computation that lets the other tasks run once before it resolves.
pub fn yield_now() -> (once: YieldOnce)
    ensures
        !once.yielded,
{
    YieldOnce { yielded: false }
}

impl YieldOnce {
    /// One poll: the first is pending and asks for the task to be woken at
    /// once, every later one is ready.
    pub fn poll(&mut self) -> (yielded: Yielded)
        ensures
            final(self).yielded,
            yielded.wake == !old(self).yielded,
            yielded.poll == if old(self).yielded {
                Poll::Ready(())
            } else {
                Poll::Pending
            },
    {
        if !self.yielded {
            self.yielded = true;
            return Yielded { poll: Poll::Pending, wake: true };
        }
        Yielded { poll: Poll::Ready(()), wake: false }
    }
}

} // verus!
