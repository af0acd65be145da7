//! The reactor: the bridge between readiness events and wakers.
//!
//! A waker is lodged under a file descriptor and a direction, or under a timer
//! id. When the notifier reports the matching event, the waker moves to a
//! pending buffer and its registration is dropped; the pending buffer is handed
//! out by [`Reactor::wake_ready`], in the order in which the events arrived.
//!
//! The reactor never talks to the kernel itself. Every registration returns
//! the [`Event`] to submit to the notifier, and every harvest takes the batch
//! of events that the notifier reported.

use crate::reactor::event::{Event, Filter};
use std::collections::HashMap;
use vstd::prelude::*;

verus! {

broadcast use vstd::std_specs::hash::group_hash_axioms;

/// The file descriptor that an event identity stands for.
pub open spec fn spec_descriptor(ident: usize) -> i32 {
    ident as i32
}

/// The timer id that follows `id`: the next integer, or 1 once the ids are
/// used up. Never zero.
pub open spec fn spec_next_timer_id(id: usize) -> usize {
    if id == usize::MAX {
        1
    } else {
        (id + 1) as usize
    }
}

/// Mathematical state of a reactor holding wakers of type `W`.
pub struct ReactorState<W> {
    /// Handle of the kernel notifier.
    pub queue: i32,
    /// The batch of events harvested last and not classified yet.
    pub events: Seq<Event>,
    /// Wakers waiting for a descriptor to become readable.
    pub readers: Map<i32, W>,
    /// Wakers waiting for a descriptor to become writable.
    pub writers: Map<i32, W>,
    /// Wakers waiting for a timer, by timer id.
    pub timers: Map<usize, W>,
    /// The id that the next timer gets.
    pub next_timer_id: usize,
    /// Wakers whose event arrived, oldest first, not handed out yet.
    pub pending: Seq<W>,
}

impl<W> ReactorState<W> {
    /// The state of a fresh reactor on the notifier `queue`.
    pub open spec fn init(queue: i32) -> Self {
        ReactorState {
            queue,
            events: Seq::empty(),
            readers: Map::empty(),
            writers: Map::empty(),
            timers: Map::empty(),
            next_timer_id: 1,
            pending: Seq::empty(),
        }
    }

    /// Timer ids are never zero.
    pub open spec fn valid(self) -> bool {
        self.next_timer_id >= 1
    }

    /// The state after `waker` was lodged for read readiness of `fd`.
    pub open spec fn with_reader(self, fd: i32, waker: W) -> Self {
        ReactorState { readers: self.readers.insert(fd, waker), ..self }
    }

    /// The state after `waker` was lodged for write readiness of `fd`.
    pub open spec fn with_writer(self, fd: i32, waker: W) -> Self {
        ReactorState { writers: self.writers.insert(fd, waker), ..self }
    }

    /// The state after `waker` was lodged under a fresh timer id.
    pub open spec fn with_timer(self, waker: W) -> Self {
        ReactorState {
            timers: self.timers.insert(self.next_timer_id, waker),
            next_timer_id: spec_next_timer_id(self.next_timer_id),
            ..self
        }
    }

    /// The state after one harvested event was classified.
    ///
    /// A read or write event on a descriptor with a waker lodged for that
    /// direction moves the waker to the end of the pending buffer and drops
    /// the registration; so does a timer event with a known id. Every other
    /// event leaves the state as it is.
    pub open spec fn classify(self, event: Event) -> Self {
        let fd = spec_descriptor(event.ident);
        match event.filter {
            Filter::Read => if self.readers.contains_key(fd) {
                ReactorState {
                    readers: self.readers.remove(fd),
                    pending: self.pending.push(self.readers[fd]),
                    ..self
                }
            } else {
                self
            },
            Filter::Write => if self.writers.contains_key(fd) {
                ReactorState {
                    writers: self.writers.remove(fd),
                    pending: self.pending.push(self.writers[fd]),
                    ..self
                }
            } else {
                self
            },
            Filter::Timer => if self.timers.contains_key(event.ident) {
                ReactorState {
                    timers: self.timers.remove(event.ident),
                    pending: self.pending.push(self.timers[event.ident]),
                    ..self
                }
            } else {
                self
            },
            Filter::User => self,
            Filter::Other => self,
        }
    }

    /// The state after `events` were classified one by one, first to last.
    pub open spec fn classify_all(self, events: Seq<Event>) -> Self
        decreases events.len(),
    {
        if events.len() == 0 {
            self
        } else {
            self.classify_all(events.drop_last()).classify(events.last())
        }
    }

    /// The state after `batch` came back from the notifier.
    pub open spec fn harvested(self, batch: Seq<Event>) -> Self {
        ReactorState { events: batch, ..self }
    }

    /// The state after the stored batch was classified and dropped.
    pub open spec fn handled(self) -> Self {
        ReactorState { events: Seq::empty(), ..self.classify_all(self.events) }
    }

    /// The state after the pending wakers were handed out.
    pub open spec fn flushed(self) -> Self {
        ReactorState { pending: Seq::empty(), ..self }
    }
}

/// Source of timer ids: hands out 1, 2, 3, ... and starts again at 1 once the
/// ids are used up, so that no id is ever zero.
pub struct TimerIds {
    next: usize,
}

impl TimerIds {
    #[verifier::type_invariant]
    spec fn nonzero(self) -> bool {
        self.next >= 1
    }

    /// The id that the next call of [`TimerIds::allocate`] returns.
    pub closed spec fn upcoming(self) -> usize {
        self.next
    }

    /// A source whose first id is 1.
    pub fn new() -> (ids: Self)
        ensures
            ids.upcoming() == 1,
    {
        TimerIds { next: 1 }
    }

    /// Returns the upcoming id and moves on to the one after it.
    pub fn allocate(&mut self) -> (id: usize)
        ensures
            id == old(self).upcoming(),
            id >= 1,
            final(self).upcoming() == spec_next_timer_id(id),
    {
        proof {
            use_type_invariant(&*self);
        }
        let id: usize = self.next;
        if id == usize::MAX {
            self.next = 1;
        } else {
            self.next = id + 1;
        }
        id
    }
}

/// Holds the notifier handle, the registered wakers and the wakers that are
/// due. `W` is the waker type of the embedding runtime; the reactor stores
/// and returns wakers and never looks into one.
pub struct Reactor<W> {
    queue: i32,
    events: Vec<Event>,
    readers: HashMap<i32, W>,
    writers: HashMap<i32, W>,
    timers: HashMap<usize, W>,
    ids: TimerIds,
    wakers: Vec<W>,
}

impl<W> View for Reactor<W> {
    type V = ReactorState<W>;

    closed spec fn view(&self) -> ReactorState<W> {
        ReactorState {
            queue: self.queue,
            events: self.events@,
            readers: self.readers@,
            writers: self.writers@,
            timers: self.timers@,
            next_timer_id: self.ids.upcoming(),
            pending: self.wakers@,
        }
    }
}

impl<W> Reactor<W> {
    /// A reactor on the notifier `queue`, with nothing registered.
    pub fn new(queue: i32) -> (reactor: Self)
        ensures
            reactor@ == ReactorState::<W>::init(queue),
    {
        let reactor = Reactor {
            queue,
            events: Vec::new(),
            readers: HashMap::new(),
            writers: HashMap::new(),
            timers: HashMap::new(),
            ids: TimerIds::new(),
            wakers: Vec::new(),
        };
        assert(reactor@.events =~= Seq::<Event>::empty());
        assert(reactor@.pending =~= Seq::<W>::empty());
        reactor
    }

    /// The handle of the kernel notifier.
    pub fn notifier(&self) -> (queue: i32)
        ensures
            queue == self@.queue,
    {
        self.queue
    }

    /// Whether a waker is lodged for read readiness of `fd`.
    pub fn has_reader(&self, fd: i32) -> (found: bool)
        ensures
            found == self@.readers.contains_key(fd),
    {
        self.readers.contains_key(&fd)
    }

    /// Whether a waker is lodged for write readiness of `fd`.
    pub fn has_writer(&self, fd: i32) -> (found: bool)
        ensures
            found == self@.writers.contains_key(fd),
    {
        self.writers.contains_key(&fd)
    }

    /// Whether a waker is lodged under the timer `id`.
    pub fn has_timer(&self, id: usize) -> (found: bool)
        ensures
            found == self@.timers.contains_key(id),
    {
        self.timers.contains_key(&id)
    }

    /// Number of wakers that are due and not handed out yet.
    pub fn pending_len(&self) -> (n: usize)
        ensures
            n == self@.pending.len(),
    {
        self.wakers.len()
    }

    /// Records `waker` for read readiness of `fd`, replacing any waker
    /// recorded for it before, and returns the event that arms the notifier.
    pub fn register_read(&mut self, fd: i32, waker: W) -> (arm: Event)
        ensures
            final(self)@ == old(self)@.with_reader(fd, waker),
            final(self)@.valid(),
            arm == Event::arming(fd as usize, Filter::Read, None),
    {
        proof {
            use_type_invariant(&self.ids);
        }
        let event = Event::new(fd as usize, Filter::Read, None);
        self.readers.insert(fd, waker);
        event
    }

    /// Records `waker` for write readiness of `fd`, replacing any waker
    /// recorded for it before, and returns the event that arms the notifier.
    pub fn register_write(&mut self, fd: i32, waker: W) -> (arm: Event)
        ensures
            final(self)@ == old(self)@.with_writer(fd, waker),
            final(self)@.valid(),
            arm == Event::arming(fd as usize, Filter::Write, None),
    {
        proof {
            use_type_invariant(&self.ids);
        }
        let event = Event::new(fd as usize, Filter::Write, None);
        self.writers.insert(fd, waker);
        event
    }

    /// Allocates a fresh timer id, records `waker` under it and returns the
    /// event that arms a one-shot timer of `nanos` nanoseconds, rounded up
    /// to whole milliseconds so that it never fires early. The event's
    /// identity is the new timer id.
    pub fn register_timer(&mut self, nanos: u128, waker: W) -> (arm: Event)
        ensures
            final(self)@ == old(self)@.with_timer(waker),
            final(self)@.valid(),
            old(self)@.valid(),
            arm == Event::arming(
                old(self)@.next_timer_id,
                Filter::Timer,
                Some(crate::reactor::event::spec_timer_millis(nanos)),
            ),
    {
        let ms: isize = Event::timer_millis(nanos);
        let id: usize = self.ids.allocate();
        let event = Event::new(id, Filter::Timer, Some(ms));
        self.timers.insert(id, waker);
        event
    }

    /// The event that removes write interest in `fd` from the notifier.
    pub fn unregister_write(&self, fd: i32) -> (disarm: Event)
        ensures
            disarm == Event::disarming(fd as usize, Filter::Write),
    {
        Event::unregister(fd as usize, Filter::Write)
    }

    /// Stores the batch that a blocking wait on the notifier returned. The
    /// batch replaces whatever was stored before; nothing is classified yet.
    pub fn wait_for_event(&mut self, batch: Vec<Event>)
        ensures
            final(self)@ == old(self)@.harvested(batch@),
            final(self)@.valid(),
    {
        proof {
            use_type_invariant(&self.ids);
        }
        self.events = batch;
    }

    /// Takes the batch that a non-blocking harvest returned. An empty batch
    /// changes nothing; any other batch is stored and classified at once.
    pub fn poll_events(&mut self, batch: Vec<Event>)
        ensures
            final(self)@ == if batch@.len() == 0 {
                old(self)@
            } else {
                old(self)@.harvested(batch@).handled()
            },
            final(self)@.valid(),
    {
        proof {
            use_type_invariant(&self.ids);
        }
        if batch.len() == 0 {
            return ;
        }
        self.events = batch;
        self.handle_events();
    }

    /// Classifies the stored batch, first event to last, and drops it. Each
    /// waker whose event arrived leaves its registration and joins the
    /// pending buffer.
    pub fn handle_events(&mut self)
        ensures
            final(self)@ == old(self)@.handled(),
            final(self)@.valid(),
    {
        proof {
            use_type_invariant(&self.ids);
        }
        let ghost start = self@;
        let n: usize = self.events.len();
        let mut i: usize = 0;
        assert(start.events.take(0) =~= Seq::<Event>::empty());
        while i < n
            invariant
                i <= n,
                n == start.events.len(),
                self.events@ == start.events,
                self@ == start.classify_all(start.events.take(i as int)),
            decreases n - i,
        {
            let event: Event = self.events[i];
            let ghost before = start.classify_all(start.events.take(i as int));
            proof {
                let upto = start.events.take(i as int + 1);
                assert(upto.drop_last() =~= start.events.take(i as int));
                assert(upto.last() == event);
                assert(start.classify_all(upto) == before.classify(event));
            }
            let fd: i32 = #[verifier::truncate] (event.ident as i32);
            match event.filter {
                Filter::Read => {
                    match self.readers.remove(&fd) {
                        Some(waker) => {
                            self.wakers.push(waker);
                        },
                        None => {},
                    }
                },
                Filter::Write => {
                    match self.writers.remove(&fd) {
                        Some(waker) => {
                            self.wakers.push(waker);
                        },
                        None => {},
                    }
                },
                Filter::Timer => {
                    match self.timers.remove(&event.ident) {
                        Some(waker) => {
                            self.wakers.push(waker);
                        },
                        None => {},
                    }
                },
                Filter::User => {},
                Filter::Other => {},
            }
            proof {
                let after = before.classify(event);
                assert(self@.readers =~= after.readers);
                assert(self@.writers =~= after.writers);
                assert(self@.timers =~= after.timers);
                assert(self@.pending =~= after.pending);
            }
            i += 1;
        }
        proof {
            use_type_invariant(&self.ids);
            assert(start.events.take(n as int) =~= start.events);
        }
        self.events.clear();
        assert(self@.events =~= Seq::<Event>::empty());
    }

    /// Hands out the wakers that are due, oldest first, and empties the
    /// pending buffer. The caller wakes each of them once.
    pub fn wake_ready(&mut self) -> (due: Vec<W>)
        ensures
            due@ == old(self)@.pending,
            final(self)@ == old(self)@.flushed(),
            final(self)@.valid(),
    {
        proof {
            use_type_invariant(&self.ids);
        }
        let mut due: Vec<W> = Vec::new();
        std::mem::swap(&mut self.wakers, &mut due);
        assert(self@.pending =~= Seq::<W>::empty());
        due
    }
}

/// A waker lodged for read readiness is woken once: when the notifier
/// reports the descriptor readable, the waker joins the end of the pending
/// buffer and its registration is gone, so that a second report of the same
/// event wakes nobody. Handing out the pending wakers then empties the
/// buffer.
pub proof fn lemma_read_report_wakes_once<W>(state: ReactorState<W>, fd: i32, waker: W, report: Event)
    requires
        fd >= 0,
        report.ident == fd as usize,
        report.filter == Filter::Read,
    ensures
        state.with_reader(fd, waker).classify(report).pending == state.pending.push(waker),
        !state.with_reader(fd, waker).classify(report).readers.contains_key(fd),
        state.with_reader(fd, waker).classify(report).classify(report) == state.with_reader(
            fd,
            waker,
        ).classify(report),
        state.with_reader(fd, waker).classify(report).flushed().pending.len() == 0,
{
    assert(spec_descriptor(fd as usize) == fd);
}

/// A waker lodged for write readiness is woken once: when the notifier
/// reports the descriptor writable, the waker joins the end of the pending
/// buffer and its registration is gone, so that a second report of the same
/// event wakes nobody.
pub proof fn lemma_write_report_wakes_once<W>(state: ReactorState<W>, fd: i32, waker: W, report: Event)
    requires
        fd >= 0,
        report.ident == fd as usize,
        report.filter == Filter::Write,
    ensures
        state.with_writer(fd, waker).classify(report).pending == state.pending.push(waker),
        !state.with_writer(fd, waker).classify(report).writers.contains_key(fd),
        state.with_writer(fd, waker).classify(report).classify(report) == state.with_writer(
            fd,
            waker,
        ).classify(report),
{
    assert(spec_descriptor(fd as usize) == fd);
}

/// A waker lodged under a timer is woken once: when the notifier reports
/// the timer, the waker joins the end of the pending buffer and the timer is
/// forgotten, so that a second report of the same timer wakes nobody.
pub proof fn lemma_timer_report_wakes_once<W>(state: ReactorState<W>, waker: W, report: Event)
    requires
        report.ident == state.next_timer_id,
        report.filter == Filter::Timer,
    ensures
        state.with_timer(waker).classify(report).pending == state.pending.push(waker),
        !state.with_timer(waker).classify(report).timers.contains_key(report.ident),
        state.with_timer(waker).classify(report).classify(report) == state.with_timer(
            waker,
        ).classify(report),
{
}

/// A registration for one direction of a descriptor replaces the waker
/// lodged there before and touches nothing else: the other direction, the
/// other descriptors, the timers and the pending buffer stay as they are.
pub proof fn lemma_register_replaces<W>(state: ReactorState<W>, fd: i32, first: W, second: W)
    ensures
        state.with_reader(fd, first).with_reader(fd, second) == state.with_reader(fd, second),
        state.with_writer(fd, first).with_writer(fd, second) == state.with_writer(fd, second),
        state.with_reader(fd, first).writers == state.writers,
        state.with_writer(fd, first).readers == state.readers,
        state.with_reader(fd, first).pending == state.pending,
        state.with_writer(fd, first).pending == state.pending,
{
    assert(state.readers.insert(fd, first).insert(fd, second) =~= state.readers.insert(fd, second));
    assert(state.writers.insert(fd, first).insert(fd, second) =~= state.writers.insert(fd, second));
}

/// An event nobody waits for is dropped: a report for a descriptor without
/// a waker in that direction, for an unknown timer, or of any other kind
/// leaves the reactor as it is.
pub proof fn lemma_orphan_report_is_dropped<W>(state: ReactorState<W>, report: Event)
    requires
        report.filter == Filter::Read ==> !state.readers.contains_key(
            spec_descriptor(report.ident),
        ),
        report.filter == Filter::Write ==> !state.writers.contains_key(
            spec_descriptor(report.ident),
        ),
        report.filter == Filter::Timer ==> !state.timers.contains_key(report.ident),
    ensures
        state.classify(report) == state,
{
}

/// Classifying a batch never invents or loses a waker: each event moves at
/// most one waker, so the registrations and the pending buffer together hold
/// as many wakers afterwards as before, and the pending buffer only grows, by
/// at most one waker per event.
pub proof fn lemma_classify_all_moves_wakers<W>(state: ReactorState<W>, events: Seq<Event>)
    requires
        state.readers.dom().finite(),
        state.writers.dom().finite(),
        state.timers.dom().finite(),
    ensures
        state.classify_all(events).readers.dom().finite(),
        state.classify_all(events).writers.dom().finite(),
        state.classify_all(events).timers.dom().finite(),
        state.classify_all(events).readers.len() + state.classify_all(events).writers.len()
            + state.classify_all(events).timers.len() + state.classify_all(events).pending.len()
            == state.readers.len() + state.writers.len() + state.timers.len()
            + state.pending.len(),
        state.pending.len() <= state.classify_all(events).pending.len() <= state.pending.len()
            + events.len(),
        state.classify_all(events).pending.take(state.pending.len() as int) == state.pending,
        state.classify_all(events).next_timer_id == state.next_timer_id,
        state.classify_all(events).queue == state.queue,
    decreases events.len(),
{
    if events.len() == 0 {
        assert(state.pending.take(state.pending.len() as int) =~= state.pending);
    } else {
        lemma_classify_all_moves_wakers(state, events.drop_last());
        let before = state.classify_all(events.drop_last());
        let after = before.classify(events.last());
        assert(after.pending.take(state.pending.len() as int) =~= before.pending.take(
            state.pending.len() as int,
        ));
    }
}

/// A timer never runs shorter than asked: the delay armed covers the time
/// asked for and exceeds it by less than a millisecond, unless it hits the
/// notifier's limit. A whole number of milliseconds within the limit is
/// armed exactly, and only a time of zero arms a delay of zero.
pub proof fn lemma_armed_delay(nanos: u128)
    ensures
        0 <= crate::reactor::event::spec_timer_millis(nanos),
        nanos / 1_000_000 < isize::MAX ==> nanos <= crate::reactor::event::spec_timer_millis(
            nanos,
        ) * 1_000_000 < nanos + 1_000_000,
        nanos / 1_000_000 <= isize::MAX && nanos % 1_000_000 == 0
            ==> crate::reactor::event::spec_timer_millis(nanos) * 1_000_000 == nanos,
        nanos > 0 ==> crate::reactor::event::spec_timer_millis(nanos) > 0,
{
}

} // verus!
