//! A deadline around another computation.
//!
//! Each poll first compares the clock with the deadline and gives up if the
//! deadline has come. Otherwise it polls the inner computation and passes its
//! value on if there is one. Otherwise it stays pending and asks, once, for a
//! timer that wakes the task when the time is up.

use crate::poll::Poll;
use crate::reactor::dispatch::{Reactor, ReactorState};
use crate::reactor::event::{spec_timer_millis, Event, Filter};
use crate::runtime::context::{spec_current_reactor, Context, ContextError, Feature};
use crate::time::TimeError;
use vstd::prelude::*;

verus! {

/// What one poll of a [`Timeout`] decided.
pub struct TimedPoll<T> {
    /// The answer of the poll.
    pub poll: Poll<Result<T, TimeError>>,
    /// Whether the caller is to arm the timer now, with [`Timeout::arm`].
    pub needs_timer: bool,
}

/// The state of a deadline around a computation.
#[derive(Clone, Copy, Debug, PartialEq, Eq, Structural)]
pub struct Timeout {
    /// The instant at which the time is up.
    pub deadline: u128,
    /// The time granted, in nanoseconds.
    pub duration: u128,
    /// Whether the timer has been lodged with the reactor.
    pub registered: bool,
}

/// Grants a computation `duration` nanoseconds from the instant `now`.
pub fn timeout(duration: u128, now: u128) -> (timeout: Timeout)
    requires
        now + duration <= u128::MAX,
    ensures
        timeout == (Timeout { deadline: (now + duration) as u128, duration, registered: false }),
{
    Timeout::new(duration, now)
}

impl Timeout {
    /// Grants a computation `duration` nanoseconds from the instant `now`.
    pub fn new(duration: u128, now: u128) -> (timeout: Self)
        requires
            now + duration <= u128::MAX,
        ensures
            timeout == (Timeout {
                deadline: (now + duration) as u128,
                duration,
                registered: false,
            }),
    {
        Timeout { deadline: now + duration, duration, registered: false }
    }

    /// Grants a computation `duration` nanoseconds from the instant `now`,
    /// in the context `context`. A deadline needs the reactor for its timer,
    /// so it is refused unless the context is that of a runtime built with
    /// I/O: outside of a runtime, or in a runtime without I/O, with
    /// `FeatureDisabled(Io)`, and in a context without reactor with
    /// `NoReactor`.
    pub fn new_in<Q, H>(duration: u128, now: u128, context: &Context<Q, H>) -> (made: Result<
        Timeout,
        ContextError,
    >)
        requires
            now + duration <= u128::MAX,
        ensures
            match spec_current_reactor(*context, Feature::Io) {
                Ok(_) => made == Ok::<Timeout, ContextError>(
                    Timeout { deadline: (now + duration) as u128, duration, registered: false },
                ),
                Err(error) => made == Err::<Timeout, ContextError>(error),
            },
    {
        match context.current_reactor_io() {
            Ok(_) => Ok(Timeout::new(duration, now)),
            Err(error) => Err(error),
        }
    }

    /// Whether the time is up at the instant `now`.
    pub fn expired(&self, now: u128) -> (up: bool)
        ensures
            up == (now >= self.deadline),
    {
        now >= self.deadline
    }

    /// One poll at the instant `now`; `inner` polls the computation.
    ///
    /// If the time is up the poll fails with `TimeOut`, and `inner` is not
    /// called. Otherwise `inner` is called once, and a value it produces is
    /// passed on. If it is pending, the poll is pending too, and the first
    /// such poll asks for the timer.
    pub fn poll<T, F: FnOnce() -> Poll<T>>(&mut self, now: u128, inner: F) -> (timed: TimedPoll<T>)
        requires
            call_requires(inner, ()),
        ensures
            final(self).deadline == old(self).deadline,
            final(self).duration == old(self).duration,
            now >= old(self).deadline ==> {
                &&& timed.poll == Poll::Ready(Err::<T, TimeError>(TimeError::TimeOut))
                &&& !timed.needs_timer
                &&& final(self).registered == old(self).registered
            },
            now < old(self).deadline ==> exists|answer: Poll<T>|
                {
                    &&& call_ensures(inner, (), answer)
                    &&& match answer {
                        Poll::Ready(value) => {
                            &&& timed.poll == Poll::Ready(Ok::<T, TimeError>(value))
                            &&& !timed.needs_timer
                            &&& final(self).registered == old(self).registered
                        },
                        Poll::Pending => {
                            &&& timed.poll is Pending
                            &&& timed.needs_timer == !old(self).registered
                            &&& final(self).registered
                        },
                    }
                },
    {
        if now >= self.deadline {
            return TimedPoll { poll: Poll::Ready(Err(TimeError::TimeOut)), needs_timer: false };
        }
        let answer = inner();
        match answer {
            Poll::Ready(value) => TimedPoll { poll: Poll::Ready(Ok(value)), needs_timer: false },
            Poll::Pending => {
                if !self.registered {
                    self.registered = true;
                    TimedPoll { poll: Poll::Pending, needs_timer: true }
                } else {
                    TimedPoll { poll: Poll::Pending, needs_timer: false }
                }
            },
        }
    }

    /// Lodges `waker` with `reactor` under a one-shot timer of the granted
    /// time and returns the event that arms it.
    pub fn arm<W>(&self, reactor: &mut Reactor<W>, waker: W) -> (arm: Event)
        ensures
            final(reactor)@ == old(reactor)@.with_timer(waker),
            arm == Event::arming(
                old(reactor)@.next_timer_id,
                Filter::Timer,
                Some(spec_timer_millis(self.duration)),
            ),
    {
        reactor.register_timer(self.duration, waker)
    }
}

} // verus!
