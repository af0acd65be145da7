use reactor::reactor::dispatch::{Reactor, TimerIds};
use reactor::reactor::event::{Change, Event, Filter, EVENT_CAPACITY};

fn report(ident: usize, filter: Filter) -> Event {
    Event::new(ident, filter, None)
}

#[test]
fn event_new_arms_with_zero_data_by_default() {
    let event = Event::new(7, Filter::Read, None);
    assert_eq!(event, Event { ident: 7, filter: Filter::Read, change: Change::Add, data: 0 });
    assert_eq!(event.get_ident(), 7);
    assert_eq!(event.get_filter(), Filter::Read);
    let timer = Event::new(3, Filter::Timer, Some(250));
    assert_eq!(timer.data, 250);
    assert_eq!(EVENT_CAPACITY, 64);
}

#[test]
fn event_unregister_is_a_deletion() {
    let event = Event::unregister(9, Filter::Write);
    assert_eq!(event, Event { ident: 9, filter: Filter::Write, change: Change::Delete, data: 0 });
}

#[test]
fn timed_wait_splits_milliseconds() {
    assert_eq!(Event::wait_with_timeout(0), (0, 0));
    assert_eq!(Event::wait_with_timeout(100), (0, 100_000_000));
    assert_eq!(Event::wait_with_timeout(1500), (1, 500_000_000));
    assert_eq!(Event::wait_with_timeout(61_001), (61, 1_000_000));
}

#[test]
fn timer_delay_is_rounded_up_and_clamped() {
    assert_eq!(Event::timer_millis(0), 0);
    assert_eq!(Event::timer_millis(1), 1);
    assert_eq!(Event::timer_millis(999_999), 1);
    assert_eq!(Event::timer_millis(1_000_000), 1);
    assert_eq!(Event::timer_millis(1_000_001), 2);
    assert_eq!(Event::timer_millis(1_500_000), 2);
    assert_eq!(Event::timer_millis(1_900_000), 2);
    assert_eq!(Event::timer_millis(50_000_000), 50);
    assert_eq!(Event::timer_millis(isize::MAX as u128 * 1_000_000), isize::MAX);
    assert_eq!(Event::timer_millis(isize::MAX as u128 * 1_000_000 - 1), isize::MAX);
    assert_eq!(Event::timer_millis((isize::MAX as u128 - 1) * 1_000_000), isize::MAX - 1);
    assert_eq!(Event::timer_millis(u128::MAX), isize::MAX);
}

#[test]
fn timer_never_runs_shorter_than_asked() {
    for nanos in [1u128, 499_999, 500_000, 1_000_000, 1_000_001, 7_654_321, 50_000_000, 3_600_000_000_001] {
        let armed = Event::timer_millis(nanos) as u128 * 1_000_000;
        assert!(armed >= nanos, "{} ns armed {} ns", nanos, armed);
        assert!(armed < nanos + 1_000_000);
    }
}

#[test]
fn timer_ids_start_at_one_and_count_up() {
    let mut ids = TimerIds::new();
    assert_eq!(ids.allocate(), 1);
    assert_eq!(ids.allocate(), 2);
    assert_eq!(ids.allocate(), 3);
}

#[test]
fn fresh_reactor_holds_nothing() {
    let mut reactor: Reactor<u32> = Reactor::new(5);
    assert_eq!(reactor.notifier(), 5);
    assert!(!reactor.has_reader(0));
    assert!(!reactor.has_writer(0));
    assert!(!reactor.has_timer(1));
    assert_eq!(reactor.pending_len(), 0);
    assert!(reactor.wake_ready().is_empty());
}

#[test]
fn read_readiness_wakes_the_registered_waker_once() {
    let mut reactor: Reactor<&str> = Reactor::new(0);
    let arm = reactor.register_read(4, "reader");
    assert_eq!(arm, Event { ident: 4, filter: Filter::Read, change: Change::Add, data: 0 });
    assert!(reactor.has_reader(4));
    assert!(!reactor.has_writer(4));

    reactor.wait_for_event(vec![report(4, Filter::Read)]);
    assert_eq!(reactor.pending_len(), 0);
    reactor.handle_events();
    assert!(!reactor.has_reader(4));
    assert_eq!(reactor.wake_ready(), vec!["reader"]);
    assert_eq!(reactor.pending_len(), 0);

    reactor.wait_for_event(vec![report(4, Filter::Read)]);
    reactor.handle_events();
    assert!(reactor.wake_ready().is_empty());
}

#[test]
fn read_and_write_registrations_are_separate() {
    let mut reactor: Reactor<&str> = Reactor::new(0);
    reactor.register_read(4, "reader");
    let arm = reactor.register_write(4, "writer");
    assert_eq!(arm, Event { ident: 4, filter: Filter::Write, change: Change::Add, data: 0 });
    reactor.poll_events(vec![report(4, Filter::Write)]);
    assert!(reactor.has_reader(4));
    assert!(!reactor.has_writer(4));
    assert_eq!(reactor.wake_ready(), vec!["writer"]);
    reactor.poll_events(vec![report(4, Filter::Read)]);
    assert_eq!(reactor.wake_ready(), vec!["reader"]);
}

#[test]
fn registering_again_replaces_the_waker() {
    let mut reactor: Reactor<&str> = Reactor::new(0);
    reactor.register_read(4, "old");
    reactor.register_read(4, "new");
    reactor.poll_events(vec![report(4, Filter::Read)]);
    assert_eq!(reactor.wake_ready(), vec!["new"]);
}

#[test]
fn timers_get_fresh_ids_and_fire_once() {
    let mut reactor: Reactor<&str> = Reactor::new(0);
    let first = reactor.register_timer(50_000_000, "first");
    let second = reactor.register_timer(1_500_000, "second");
    assert_eq!(first, Event { ident: 1, filter: Filter::Timer, change: Change::Add, data: 50 });
    assert_eq!(second, Event { ident: 2, filter: Filter::Timer, change: Change::Add, data: 2 });
    assert!(reactor.has_timer(1));
    assert!(reactor.has_timer(2));

    reactor.poll_events(vec![report(2, Filter::Timer)]);
    assert!(reactor.has_timer(1));
    assert!(!reactor.has_timer(2));
    assert_eq!(reactor.wake_ready(), vec!["second"]);

    reactor.poll_events(vec![report(2, Filter::Timer), report(1, Filter::Timer)]);
    assert_eq!(reactor.wake_ready(), vec!["first"]);
}

#[test]
fn unknown_events_are_dropped() {
    let mut reactor: Reactor<&str> = Reactor::new(0);
    reactor.register_read(4, "reader");
    reactor.poll_events(vec![
        report(5, Filter::Read),
        report(4, Filter::Write),
        report(99, Filter::Timer),
        report(4, Filter::Other),
    ]);
    assert!(reactor.has_reader(4));
    assert!(reactor.wake_ready().is_empty());
}

#[test]
fn wakers_come_out_in_event_order() {
    let mut reactor: Reactor<u8> = Reactor::new(0);
    reactor.register_read(1, 10);
    reactor.register_write(2, 20);
    reactor.register_timer(1_000_000, 30);
    reactor.poll_events(vec![
        report(1, Filter::Timer),
        report(2, Filter::Write),
        report(1, Filter::Read),
    ]);
    assert_eq!(reactor.pending_len(), 3);
    assert_eq!(reactor.wake_ready(), vec![30, 20, 10]);
}

#[test]
fn empty_harvest_changes_nothing() {
    let mut reactor: Reactor<u8> = Reactor::new(0);
    reactor.register_read(1, 10);
    reactor.wait_for_event(vec![report(1, Filter::Read)]);
    reactor.poll_events(Vec::new());
    assert!(reactor.has_reader(1));
    assert_eq!(reactor.pending_len(), 0);
    reactor.handle_events();
    assert_eq!(reactor.wake_ready(), vec![10]);
}

#[test]
fn unregister_write_builds_the_deletion() {
    let reactor: Reactor<u8> = Reactor::new(0);
    assert_eq!(
        reactor.unregister_write(6),
        Event { ident: 6, filter: Filter::Write, change: Change::Delete, data: 0 }
    );
}
