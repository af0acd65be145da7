//! Measuring how long a task takes.

use crate::poll::Poll;
use vstd::prelude::*;

verus! {

/// A stopwatch started when the wrapper around a task was made.
#[derive(Clone, Copy, Debug, PartialEq, Eq, Structural)]
pub struct Time {
    /// The instant at which the wrapper was made.
    pub start: u128,
}

/// The time between `start` and `now`, zero if the clock reads less than
/// `start`.
pub open spec fn spec_elapsed(start: u128, now: u128) -> u128 {
    if now >= start {
        (now - start) as u128
    } else {
        0
    }
}

impl Time {
    /// A stopwatch started at the instant `now`.
    pub fn new(now: u128) -> (time: Self)
        ensures
            time.start == now,
    {
        Time { start: now }
    }

    /// The time between the start and the instant `now`.
    pub fn elapsed(&self, now: u128) -> (span: u128)
        ensures
            span == spec_elapsed(self.start, now),
    {
        if now >= self.start {
            now - self.start
        } else {
            0
        }
    }

    /// One poll, given the answer of the wrapped task and the instant `now`
    /// read after it. A finished task yields its value and the time elapsed
    /// since the start; a pending task stays pending.
    pub fn poll<T>(&self, inner: Poll<T>, now: u128) -> (timed: Poll<(T, u128)>)
        ensures
            timed == match inner {
                Poll::Ready(value) => Poll::Ready((value, spec_elapsed(self.start, now))),
                Poll::Pending => Poll::Pending,
            },
    {
        match inner {
            Poll::Ready(value) => Poll::Ready((value, self.elapsed(now))),
            Poll::Pending => Poll::Pending,
        }
    }
}

} // verus!
