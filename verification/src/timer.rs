//! Timers kept by deadline.
//!
//! A [`TimerDriver`] holds wakers with the instants at which they are due.
//! Whoever runs the clock asks it from time to time which wakers are due, and
//! how long it is until the next one will be. Instants and spans are counted
//! in nanoseconds.

use crate::poll::Poll;
use vstd::prelude::*;

verus! {

/// The timers of `timers` that are not due at the instant `now`, in their
/// order.
pub open spec fn spec_waiting<W>(timers: Seq<(u128, W)>, now: u128) -> Seq<(u128, W)>
    decreases timers.len(),
{
    if timers.len() == 0 {
        Seq::empty()
    } else if now >= timers.last().0 {
        spec_waiting(timers.drop_last(), now)
    } else {
        spec_waiting(timers.drop_last(), now).push(timers.last())
    }
}

/// The wakers of the timers of `timers` that are due at the instant `now`,
/// in the order of their timers.
pub open spec fn spec_due<W>(timers: Seq<(u128, W)>, now: u128) -> Seq<W>
    decreases timers.len(),
{
    if timers.len() == 0 {
        Seq::empty()
    } else if now >= timers.last().0 {
        spec_due(timers.drop_last(), now).push(timers.last().1)
    } else {
        spec_due(timers.drop_last(), now)
    }
}

/// The time from `now` until `deadline`, zero if the deadline has come.
pub open spec fn spec_remaining(deadline: u128, now: u128) -> u128 {
    if deadline <= now {
        0
    } else {
        (deadline - now) as u128
    }
}

/// The shortest time from `now` until a deadline of `timers`, if there is a
/// timer at all.
pub open spec fn spec_next_remaining<W>(timers: Seq<(u128, W)>, now: u128) -> Option<u128>
    decreases timers.len(),
{
    if timers.len() == 0 {
        None
    } else {
        let last = spec_remaining(timers.last().0, now);
        match spec_next_remaining(timers.drop_last(), now) {
            None => Some(last),
            Some(least) => if last < least {
                Some(last)
            } else {
                Some(least)
            },
        }
    }
}

/// What firing the expired timers came to.
pub struct Fired<W> {
    /// The wakers that are due, to be woken in this order.
    pub wake: Vec<W>,
    /// Whether timers are left that are not due yet.
    pub pending: bool,
}

/// Wakers with their deadlines, in the order in which they were registered.
pub struct TimerDriver<W> {
    timers: Vec<(u128, W)>,
}

impl<W> View for TimerDriver<W> {
    type V = Seq<(u128, W)>;

    closed spec fn view(&self) -> Seq<(u128, W)> {
        self.timers@
    }
}

impl<W> TimerDriver<W> {
    /// A driver without timers.
    pub fn new() -> (driver: Self)
        ensures
            driver@ == Seq::<(u128, W)>::empty(),
    {
        TimerDriver { timers: Vec::new() }
    }

    /// Keeps `waker` until the instant `deadline`.
    pub fn register(&mut self, deadline: u128, waker: W)
        ensures
            final(self)@ == old(self)@.push((deadline, waker)),
    {
        self.timers.push((deadline, waker));
    }

    /// Takes out every timer whose deadline has come at the instant `now`
    /// and returns their wakers. The timers that are not due stay, in their
    /// order.
    pub fn fire_expired(&mut self, now: u128) -> (fired: Fired<W>)
        ensures
            final(self)@ == spec_waiting(old(self)@, now),
            fired.wake@ == spec_due(old(self)@, now),
            fired.pending == (final(self)@.len() > 0),
    {
        let mut all: Vec<(u128, W)> = Vec::new();
        std::mem::swap(&mut self.timers, &mut all);
        let ghost timers = all@;
        let mut wake: Vec<W> = Vec::new();
        assert(timers.take(0) =~= Seq::<(u128, W)>::empty());
        for timer in it: all
            invariant
                it.seq() == timers,
                self.timers@ == spec_waiting(timers.take(it.index() as int), now),
                wake@ == spec_due(timers.take(it.index() as int), now),
        {
            proof {
                let done = timers.take(it.index() as int + 1);
                assert(done.drop_last() =~= timers.take(it.index() as int));
                assert(done.last() == timer);
            }
            let (deadline, waker) = timer;
            if now >= deadline {
                wake.push(waker);
            } else {
                self.timers.push((deadline, waker));
            }
        }
        assert(timers.take(timers.len() as int) =~= timers);
        let pending = self.timers.len() > 0;
        Fired { wake, pending }
    }

    /// The time from `now` until the next deadline, zero if a deadline has
    /// come already, and nothing if there is no timer.
    pub fn next_remaining(&self, now: u128) -> (shortest: Option<u128>)
        ensures
            shortest == spec_next_remaining(self@, now),
    {
        let mut shortest: Option<u128> = None;
        let n: usize = self.timers.len();
        let mut i: usize = 0;
        assert(self@.take(0) =~= Seq::<(u128, W)>::empty());
        while i < n
            invariant
                i <= n,
                n == self@.len(),
                shortest == spec_next_remaining(self@.take(i as int), now),
            decreases n - i,
        {
            proof {
                let done = self@.take(i as int + 1);
                assert(done.drop_last() =~= self@.take(i as int));
                assert(done.last() == self@[i as int]);
            }
            let deadline: u128 = self.timers[i].0;
            let rest: u128 = if deadline <= now {
                0
            } else {
                deadline - now
            };
            shortest = match shortest {
                None => Some(rest),
                Some(least) => if rest < least {
                    Some(rest)
                } else {
                    Some(least)
                },
            };
            i += 1;
        }
        assert(self@.take(n as int) =~= self@);
        shortest
    }
}

/// A pause that ends at a deadline.
#[derive(Clone, Copy, Debug, PartialEq, Eq, Structural)]
pub struct Sleep {
    /// The instant at which the pause ends.
    pub deadline: u128,
    /// Whether the pause has a timer with the driver.
    pub registered: bool,
}

impl Sleep {
    /// A pause of `duration` nanoseconds from the instant `now`.
    pub fn new(duration: u128, now: u128) -> (sleep: Self)
        requires
            now + duration <= u128::MAX,
        ensures
            sleep == (Sleep { deadline: (now + duration) as u128, registered: false }),
    {
        Sleep { deadline: now + duration, registered: false }
    }

    /// One poll at the instant `now`. The pause is over once the deadline
    /// has come. Before that the poll is pending, and the first pending poll
    /// leaves `waker` with `driver` until the deadline.
    pub fn poll<W>(&mut self, now: u128, driver: &mut TimerDriver<W>, waker: W) -> (answer: Poll<
        (),
    >)
        ensures
            final(self).deadline == old(self).deadline,
            if now >= old(self).deadline {
                &&& answer == Poll::Ready(())
                &&& final(self).registered == old(self).registered
                &&& final(driver)@ == old(driver)@
            } else {
                &&& answer is Pending
                &&& final(self).registered
                &&& final(driver)@ == if old(self).registered {
                    old(driver)@
                } else {
                    old(driver)@.push((old(self).deadline, waker))
                }
            },
    {
        if now >= self.deadline {
            return Poll::Ready(());
        }
        if !self.registered {
            driver.register(self.deadline, waker);
            self.registered = true;
        }
        Poll::Pending
    }
}

/// A pause of `duration` nanoseconds from the instant `now`.
pub fn sleep(duration: u128, now: u128) -> (sleep: Sleep)
    requires
        now + duration <= u128::MAX,
    ensures
        sleep == (Sleep { deadline: (now + duration) as u128, registered: false }),
{
    Sleep::new(duration, now)
}

/// Fires the timers of `driver` that are due at the instant `now`.
pub fn process_timers<W>(driver: &mut TimerDriver<W>, now: u128) -> (fired: Fired<W>)
    ensures
        final(driver)@ == spec_waiting(old(driver)@, now),
        fired.wake@ == spec_due(old(driver)@, now),
        fired.pending == (final(driver)@.len() > 0),
{
    driver.fire_expired(now)
}

/// The time from `now` until the next timer of `driver` is due.
pub fn next_timer_remaining<W>(driver: &TimerDriver<W>, now: u128) -> (shortest: Option<u128>)
    ensures
        shortest == spec_next_remaining(driver@, now),
{
    driver.next_remaining(now)
}

/// Firing the timers loses none of them and wakes none too early: every
/// timer is afterwards either still waiting, with a deadline that has not
/// come, or among the wakers to wake, with a deadline that has come.
pub proof fn lemma_fire_splits_timers<W>(timers: Seq<(u128, W)>, now: u128)
    ensures
        spec_waiting(timers, now).len() + spec_due(timers, now).len() == timers.len(),
        forall|i: int|
            0 <= i < spec_waiting(timers, now).len() ==> now < (#[trigger] spec_waiting(
                timers,
                now,
            )[i]).0,
        forall|i: int|
            0 <= i < timers.len() && now < timers[i].0 ==> spec_waiting(timers, now).contains(
                #[trigger] timers[i],
            ),
        forall|i: int|
            0 <= i < timers.len() && now >= timers[i].0 ==> spec_due(timers, now).contains(
                (#[trigger] timers[i]).1,
            ),
    decreases timers.len(),
{
    if timers.len() > 0 {
        let front = timers.drop_last();
        lemma_fire_splits_timers(front, now);
        let waiting = spec_waiting(timers, now);
        let due = spec_due(timers, now);
        assert forall|i: int| 0 <= i < timers.len() && now < timers[i].0 implies waiting.contains(
            #[trigger] timers[i],
        ) by {
            if i < front.len() {
                assert(front[i] == timers[i]);
                let k = choose|k: int|
                    0 <= k < spec_waiting(front, now).len() && spec_waiting(front, now)[k]
                        == front[i];
                assert(waiting[k] == timers[i]);
            } else {
                assert(waiting[waiting.len() - 1] == timers[i]);
            }
        }
        assert forall|i: int| 0 <= i < timers.len() && now >= timers[i].0 implies due.contains(
            (#[trigger] timers[i]).1,
        ) by {
            if i < front.len() {
                assert(front[i] == timers[i]);
                let k = choose|k: int|
                    0 <= k < spec_due(front, now).len() && spec_due(front, now)[k] == front[i].1;
                assert(due[k] == timers[i].1);
            } else {
                assert(due[due.len() - 1] == timers[i].1);
            }
        }
    }
}

/// The time until the next timer is a time until some timer, and no timer is
/// due sooner.
pub proof fn lemma_next_remaining_is_least<W>(timers: Seq<(u128, W)>, now: u128)
    ensures
        timers.len() == 0 <==> spec_next_remaining(timers, now) is None,
        timers.len() > 0 ==> exists|i: int|
            0 <= i < timers.len() && spec_next_remaining(timers, now) == Some(
                spec_remaining(#[trigger] timers[i].0, now),
            ),
        forall|i: int|
            0 <= i < timers.len() ==> spec_next_remaining(timers, now)->0 <= spec_remaining(
                #[trigger] timers[i].0,
                now,
            ),
    decreases timers.len(),
{
    if timers.len() > 0 {
        let front = timers.drop_last();
        lemma_next_remaining_is_least(front, now);
        let last = spec_remaining(timers.last().0, now);
        if front.len() == 0 {
            assert(spec_next_remaining(timers, now) == Some(
                spec_remaining(timers[timers.len() - 1].0, now),
            ));
        } else {
            let least = spec_next_remaining(front, now)->0;
            if last < least {
                assert(spec_next_remaining(timers, now) == Some(
                    spec_remaining(timers[timers.len() - 1].0, now),
                ));
            } else {
                let k = choose|k: int|
                    0 <= k < front.len() && spec_next_remaining(front, now) == Some(
                        spec_remaining(#[trigger] front[k].0, now),
                    );
                assert(front[k] == timers[k]);
                assert(spec_next_remaining(timers, now) == Some(
                    spec_remaining(timers[k].0, now),
                ));
            }
        }
        assert forall|i: int| 0 <= i < timers.len() implies spec_next_remaining(timers, now)->0
            <= spec_remaining(#[trigger] timers[i].0, now) by {
            if i < front.len() {
                assert(front[i] == timers[i]);
            }
        }
    }
}

} // verus!
