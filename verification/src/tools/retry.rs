//! Trying a fallible computation several times.
//!
//! Each attempt is a computation of its own, made when it is first polled.
//! A failed attempt is followed by another as long as retries are left,
//! after a pause if an interval was set. The last failure is passed on.

use crate::poll::Poll;
use crate::reactor::dispatch::{Reactor, ReactorState};
use crate::reactor::event::{spec_timer_millis, Event, Filter};
use crate::reactor::sleep::Sleep;
use vstd::prelude::*;

verus! {

/// The state of a computation that is retried on failure.
#[derive(Clone, Copy, Debug, PartialEq, Eq, Structural)]
pub struct Retry {
    /// Number of retries left after the attempt under way.
    pub remaining: usize,
    /// Pause before each retry, in nanoseconds; zero for none.
    pub interval: u128,
    /// Whether an attempt is under way.
    pub running: bool,
    /// The pause under way, if any.
    pub delay: Option<Sleep>,
}

/// What one poll of a [`Retry`] decided.
pub struct Retried<T, E> {
    /// The answer of the poll.
    pub poll: Poll<Result<T, E>>,
    /// Whether a pause is under way whose timer the caller is to arm now,
    /// with [`Retry::arm_pause`].
    pub needs_timer: bool,
    /// Whether the caller is to wake the current task by reference, so that
    /// the next attempt is polled soon.
    pub wake: bool,
}

/// A computation that is tried once and retried up to `times` times.
pub fn retry(times: usize) -> (retry: Retry)
    ensures
        retry == (Retry { remaining: times, interval: 0, running: false, delay: None }),
{
    Retry::new(times)
}

impl Retry {
    /// A computation that is tried once and retried up to `times` times,
    /// without pauses.
    pub fn new(times: usize) -> (retry: Self)
        ensures
            retry == (Retry { remaining: times, interval: 0, running: false, delay: None }),
    {
        Retry { remaining: times, interval: 0, running: false, delay: None }
    }

    /// Sets the pause before each retry, in nanoseconds.
    pub fn set_interval(self, interval: u128) -> (retry: Self)
        ensures
            retry == (Retry { interval, ..self }),
    {
        let mut retry = self;
        retry.interval = interval;
        retry
    }

    /// Whether the pause under way is over at this poll: there is none, or
    /// it has been polled before, or it has no length.
    pub open spec fn pause_over(self) -> bool {
        match self.delay {
            None => true,
            Some(pause) => pause.duration == 0 || pause.registered,
        }
    }

    /// The state after an attempt failed with retries left.
    pub open spec fn after_failure(self) -> Self {
        Retry {
            remaining: (self.remaining - 1) as usize,
            interval: self.interval,
            running: false,
            delay: if self.interval != 0 {
                Some(Sleep { duration: self.interval, registered: false })
            } else {
                None
            },
        }
    }

    /// One poll; `attempt` polls the attempt under way, after making a new
    /// one if it is told that none is under way.
    ///
    /// A pause that is not over keeps the poll pending and asks for its
    /// timer; `attempt` is not called. Otherwise `attempt` is called once. A
    /// pending attempt keeps the poll pending, a success is passed on. A
    /// failure with retries left uses one up, starts the pause if an
    /// interval is set, asks for a wake-up and stays pending; a failure
    /// without retries left is passed on.
    pub fn poll<T, E, A: FnOnce(bool) -> Poll<Result<T, E>>>(&mut self, attempt: A) -> (retried:
        Retried<T, E>)
        requires
            call_requires(attempt, (!old(self).running,)),
        ensures
            !old(self).pause_over() ==> {
                &&& retried.poll is Pending
                &&& retried.needs_timer
                &&& !retried.wake
                &&& *final(self) == *old(self)
            },
            old(self).pause_over() ==> !retried.needs_timer && exists|
                answer: Poll<Result<T, E>>,
            |
                {
                    &&& call_ensures(attempt, (!old(self).running,), answer)
                    &&& match answer {
                        Poll::Pending => {
                            &&& retried.poll is Pending
                            &&& !retried.wake
                            &&& *final(self) == (Retry {
                                running: true,
                                delay: None,
                                ..*old(self)
                            })
                        },
                        Poll::Ready(Ok(value)) => {
                            &&& retried.poll == Poll::Ready(Ok::<T, E>(value))
                            &&& !retried.wake
                            &&& *final(self) == (Retry {
                                running: false,
                                delay: None,
                                ..*old(self)
                            })
                        },
                        Poll::Ready(Err(error)) => if old(self).remaining > 0 {
                            &&& retried.poll is Pending
                            &&& retried.wake
                            &&& *final(self) == old(self).after_failure()
                        } else {
                            &&& retried.poll == Poll::Ready(Err::<T, E>(error))
                            &&& !retried.wake
                            &&& *final(self) == (Retry {
                                running: false,
                                delay: None,
                                ..*old(self)
                            })
                        },
                    }
                },
    {
        match self.delay {
            Some(pause) => {
                if pause.needs_reactor() {
                    return Retried { poll: Poll::Pending, needs_timer: true, wake: false };
                }
                self.delay = None;
            },
            None => {},
        }
        let fresh: bool = !self.running;
        self.running = true;
        let answer = attempt(fresh);
        proof {
            assert(call_ensures(attempt, (!old(self).running,), answer));
        }
        match answer {
            Poll::Pending => Retried { poll: Poll::Pending, needs_timer: false, wake: false },
            Poll::Ready(Ok(value)) => {
                self.running = false;
                Retried { poll: Poll::Ready(Ok(value)), needs_timer: false, wake: false }
            },
            Poll::Ready(Err(error)) => {
                self.running = false;
                if self.remaining > 0 {
                    self.remaining = self.remaining - 1;
                    if self.interval != 0 {
                        self.delay = Some(Sleep::new(self.interval));
                    }
                    Retried { poll: Poll::Pending, needs_timer: false, wake: true }
                } else {
                    Retried { poll: Poll::Ready(Err(error)), needs_timer: false, wake: false }
                }
            },
        }
    }

    /// Arms the timer of the pause under way: lodges `waker` with `reactor`
    /// under a one-shot timer of the pause's length and returns the event
    /// that arms it. Without a pause that waits for its timer nothing
    /// happens.
    pub fn arm_pause<W>(&mut self, reactor: &mut Reactor<W>, waker: W) -> (arm: Option<Event>)
        ensures
            old(self).pause_over() ==> {
                &&& arm is None
                &&& *final(self) == *old(self)
                &&& final(reactor)@ == old(reactor)@
            },
            !old(self).pause_over() ==> {
                &&& final(reactor)@ == old(reactor)@.with_timer(waker)
                &&& arm == Some(
                    Event::arming(
                        old(reactor)@.next_timer_id,
                        Filter::Timer,
                        Some(spec_timer_millis(old(self).delay->0.duration)),
                    ),
                )
                &&& *final(self) == (Retry {
                    delay: Some(Sleep { registered: true, ..old(self).delay->0 }),
                    ..*old(self)
                })
                &&& final(self).pause_over()
            },
    {
        match self.delay {
            Some(pause) => {
                let mut pause = pause;
                if pause.needs_reactor() {
                    let slept = pause.poll(reactor, waker);
                    self.delay = Some(pause);
                    slept.arm
                } else {
                    None
                }
            },
            None => None,
        }
    }
}

/// A computation that keeps failing is attempted once more than it has
/// retries: each failure with retries left uses exactly one up and never
/// ends the computation, and the failure that finds none left ends it.
pub proof fn lemma_failures_use_up_retries(retry: Retry)
    requires
        retry.remaining > 0,
    ensures
        retry.after_failure().remaining == retry.remaining - 1,
        !retry.after_failure().running,
        retry.interval == 0 ==> retry.after_failure().pause_over(),
        retry.interval != 0 ==> !retry.after_failure().pause_over(),
{
}

} // verus!
