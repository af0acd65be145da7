//! Sleeping for a span of time without blocking the runtime.
//!
//! Time is counted in nanoseconds. A sleep of zero nanoseconds is over at its
//! first poll and never touches the reactor. Any other sleep lodges its waker
//! under a one-shot timer at its first poll and is over at the poll after
//! that, which the timer's wake brings about.

use crate::poll::Poll;
use crate::reactor::dispatch::{Reactor, ReactorState};
use crate::reactor::event::{spec_timer_millis, Event, Filter};
use crate::runtime::context::{spec_current_reactor, Context, ContextError, Feature};
use vstd::prelude::*;

verus! {

/// What one poll of a [`Sleep`] decided.
pub struct Slept {
    /// The answer of the poll.
    pub poll: Poll<()>,
    /// The event that arms the timer, if the reactor took a waker.
    pub arm: Option<Event>,
}

/// A pause of a given length.
#[derive(Clone, Copy, Debug, PartialEq, Eq, Structural)]
pub struct Sleep {
    /// Length of the pause in nanoseconds.
    pub duration: u128,
    /// Whether the timer has been lodged with the reactor.
    pub registered: bool,
}

impl Sleep {
    /// A pause of `duration` nanoseconds that has not been polled yet.
    pub fn new(duration: u128) -> (sleep: Self)
        ensures
            sleep == (Sleep { duration, registered: false }),
    {
        Sleep { duration, registered: false }
    }

    /// A pause of `duration` nanoseconds made in the context `context`.
    ///
    /// A pause of zero length needs no reactor and is always granted. Any
    /// other pause needs the reactor for its timer, so it is refused unless
    /// the context is that of a runtime built with I/O: outside of a runtime,
    /// or in a runtime without I/O, with `FeatureDisabled(Io)`, and in a
    /// context without reactor with `NoReactor`.
    pub fn new_in<Q, H>(duration: u128, context: &Context<Q, H>) -> (made: Result<
        Sleep,
        ContextError,
    >)
        ensures
            duration == 0 ==> made == Ok::<Sleep, ContextError>(
                Sleep { duration, registered: false },
            ),
            duration != 0 ==> match spec_current_reactor(*context, Feature::Io) {
                Ok(_) => made == Ok::<Sleep, ContextError>(Sleep { duration, registered: false }),
                Err(error) => made == Err::<Sleep, ContextError>(error),
            },
    {
        if duration == 0 {
            return Ok(Sleep::new(duration));
        }
        match context.current_reactor_io() {
            Ok(_) => Ok(Sleep::new(duration)),
            Err(error) => Err(error),
        }
    }

    /// A pause of `duration` nanoseconds whose timer will be lodged with
    /// `reactor`. The reactor is only looked at when the pause is polled, so
    /// this is [`Sleep::new`] for callers that have a reactor at hand.
    pub fn new_with_reactor<W>(duration: u128, reactor: &Reactor<W>) -> (sleep: Self)
        ensures
            sleep == (Sleep { duration, registered: false }),
    {
        Sleep::new(duration)
    }

    /// Whether the next poll lodges a timer with the reactor.
    pub fn needs_reactor(&self) -> (needed: bool)
        ensures
            needed == (self.duration != 0 && !self.registered),
    {
        self.duration != 0 && !self.registered
    }

    /// One poll.
    ///
    /// A pause of zero length is over at once and leaves the reactor alone.
    /// Otherwise the first poll lodges `waker` under a fresh one-shot timer
    /// of the pause's length and stays pending, and the next poll is ready.
    pub fn poll<W>(&mut self, reactor: &mut Reactor<W>, waker: W) -> (slept: Slept)
        ensures
            final(self).duration == old(self).duration,
            if old(self).duration == 0 || old(self).registered {
                &&& slept.poll == Poll::Ready(())
                &&& slept.arm is None
                &&& final(self).registered == old(self).registered
                &&& final(reactor)@ == old(reactor)@
            } else {
                &&& slept.poll is Pending
                &&& final(self).registered
                &&& final(reactor)@ == old(reactor)@.with_timer(waker)
                &&& old(reactor)@.valid()
                &&& slept.arm == Some(
                    Event::arming(
                        old(reactor)@.next_timer_id,
                        Filter::Timer,
                        Some(spec_timer_millis(old(self).duration)),
                    ),
                )
            },
    {
        if self.duration == 0 {
            return Slept { poll: Poll::Ready(()), arm: None };
        }
        if !self.registered {
            let arm = reactor.register_timer(self.duration, waker);
            self.registered = true;
            return Slept { poll: Poll::Pending, arm: Some(arm) };
        }
        Slept { poll: Poll::Ready(()), arm: None }
    }
}

/// A pause of `duration` nanoseconds.
pub fn sleep(duration: u128) -> (sleep: Sleep)
    ensures
        sleep == (Sleep { duration, registered: false }),
{
    Sleep::new(duration)
}

} // verus!
