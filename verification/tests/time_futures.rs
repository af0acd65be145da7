use reactor::poll::Poll;
use reactor::reactor::dispatch::Reactor;
use reactor::reactor::event::{Change, Event, Filter};
use reactor::reactor::sleep::Sleep;
use reactor::runtime::context::{Context, ContextError, Feature, Features};
use reactor::time::timeout::Timeout;
use reactor::time::wrapper::Time;
use reactor::time::{sleep, timeout, TimeError};

const MS: u128 = 1_000_000;

#[test]
fn test_sleep_zero_duration() {
    let mut reactor: Reactor<u8> = Reactor::new(0);
    let mut pause = sleep(0);
    assert!(!pause.needs_reactor());
    let slept = pause.poll(&mut reactor, 1);
    assert!(matches!(slept.poll, Poll::Ready(())));
    assert!(slept.arm.is_none());
    assert!(!reactor.has_timer(1));
    assert_eq!(reactor.pending_len(), 0);
    assert_eq!(reactor.register_timer(MS, 2).ident, 1);
}

#[test]
fn test_sleep_basic() {
    // A sleep of 50 ms arms a one-shot timer of 50 ms and resolves at the
    // poll that follows the timer's wake.
    let mut reactor: Reactor<&str> = Reactor::new(0);
    let mut pause = sleep(50 * MS);
    assert!(pause.needs_reactor());
    let slept = pause.poll(&mut reactor, "root");
    assert!(slept.poll.is_pending());
    assert_eq!(
        slept.arm,
        Some(Event { ident: 1, filter: Filter::Timer, change: Change::Add, data: 50 })
    );
    assert!(reactor.has_timer(1));
    assert!(!pause.needs_reactor());

    reactor.wait_for_event(vec![Event::new(1, Filter::Timer, None)]);
    reactor.handle_events();
    assert_eq!(reactor.wake_ready(), vec!["root"]);

    let slept = pause.poll(&mut reactor, "root");
    assert!(slept.poll.is_ready());
    assert!(slept.arm.is_none());
}

#[test]
fn test_sleep_in_function() {
    let mut reactor: Reactor<u8> = Reactor::new(0);
    let mut pause = Sleep::new_with_reactor(30 * MS, &reactor);
    assert_eq!(pause, Sleep::new(30 * MS));
    let slept = pause.poll(&mut reactor, 1);
    assert_eq!(slept.arm.map(|arm| arm.data), Some(30));
}

#[test]
fn test_timeout_expires() {
    // timeout(20 ms, a task that sleeps 100 ms)
    let mut reactor: Reactor<&str> = Reactor::new(0);
    let mut limit = timeout(20 * MS, 1000 * MS);
    assert_eq!(limit.deadline, 1020 * MS);
    let timed = limit.poll(1000 * MS, || Poll::<u32>::Pending);
    assert!(timed.poll.is_pending());
    assert!(timed.needs_timer);
    let arm = limit.arm(&mut reactor, "root");
    assert_eq!(arm, Event { ident: 1, filter: Filter::Timer, change: Change::Add, data: 20 });
    reactor.poll_events(vec![Event::new(1, Filter::Timer, None)]);
    assert_eq!(reactor.wake_ready(), vec!["root"]);
    let timed = limit.poll(1020 * MS, || -> Poll<u32> { panic!("polled after the deadline") });
    assert!(matches!(timed.poll, Poll::Ready(Err(TimeError::TimeOut))));
    assert!(!timed.needs_timer);
}

#[test]
fn test_timeout_completes_before_deadline() {
    // timeout(50 ms, a task that sleeps 10 ms and returns 123)
    let mut limit = Timeout::new(50 * MS, 0);
    let timed = limit.poll(0, || Poll::<u32>::Pending);
    assert!(timed.poll.is_pending());
    assert!(timed.needs_timer);
    let timed = limit.poll(5 * MS, || Poll::<u32>::Pending);
    assert!(timed.poll.is_pending());
    assert!(!timed.needs_timer);
    assert!(!limit.expired(10 * MS));
    let timed = limit.poll(10 * MS, || Poll::Ready(123u32));
    assert!(matches!(timed.poll, Poll::Ready(Ok(123))));
    assert!(limit.expired(50 * MS));
}

#[test]
fn timeout_with_zero_time_gives_up_at_once() {
    let mut limit = timeout(0, 77);
    let timed = limit.poll(77, || Poll::Ready(1u8));
    assert!(matches!(timed.poll, Poll::Ready(Err(TimeError::TimeOut))));
    assert!(!timed.needs_timer);
}

#[test]
fn test_time_wrapper_with_sleep() {
    let watch = Time::new(100 * MS);
    assert!(watch.poll(Poll::<u8>::Pending, 105 * MS).is_pending());
    match watch.poll(Poll::Ready(9u8), 150 * MS) {
        Poll::Ready((value, elapsed)) => {
            assert_eq!(value, 9);
            assert_eq!(elapsed, 50 * MS);
            assert!(elapsed >= 50 * MS);
        }
        Poll::Pending => panic!("expected a value"),
    }
    assert_eq!(watch.elapsed(90 * MS), 0);
}

#[test]
fn sleep_outside_a_runtime_is_refused_unless_it_has_no_length() {
    let outside: Context<u8, u8> = Context::empty();
    assert_eq!(Sleep::new_in(1_000 * MS, &outside), Err(ContextError::FeatureDisabled(Feature::Io)));
    assert_eq!(Sleep::new_in(1, &outside), Err(ContextError::FeatureDisabled(Feature::Io)));
    assert_eq!(Sleep::new_in(0, &outside), Ok(Sleep::new(0)));

    let plain = Features { io_enabled: false, fs_enabled: false };
    let without_io: Context<u8, u8> = Context { queue: Some(1), reactor: Some(2), features: Some(plain) };
    assert_eq!(Sleep::new_in(5 * MS, &without_io), Err(ContextError::FeatureDisabled(Feature::Io)));
    assert_eq!(Sleep::new_in(0, &without_io), Ok(Sleep::new(0)));

    let io = Features { io_enabled: true, fs_enabled: false };
    let with_io: Context<u8, u8> = Context { queue: Some(1), reactor: Some(2), features: Some(io) };
    assert_eq!(Sleep::new_in(1_000 * MS, &with_io), Ok(Sleep::new(1_000 * MS)));
    let headless: Context<u8, u8> = Context { queue: Some(1), reactor: None, features: Some(io) };
    assert_eq!(Sleep::new_in(5 * MS, &headless), Err(ContextError::NoReactor));
}

#[test]
fn sleep_of_less_than_a_millisecond_still_waits() {
    let mut reactor: Reactor<u8> = Reactor::new(0);
    let mut pause = Sleep::new(500_000);
    let slept = pause.poll(&mut reactor, 1);
    assert!(slept.poll.is_pending());
    assert_eq!(slept.arm.map(|arm| arm.data), Some(1));
}

#[test]
fn timeout_outside_a_runtime_is_refused() {
    let outside: Context<u8, u8> = Context::empty();
    assert_eq!(Timeout::new_in(20 * MS, 0, &outside), Err(ContextError::FeatureDisabled(Feature::Io)));
    assert_eq!(Timeout::new_in(0, 0, &outside), Err(ContextError::FeatureDisabled(Feature::Io)));
    let io = Features { io_enabled: true, fs_enabled: false };
    let with_io: Context<u8, u8> = Context { queue: Some(1), reactor: Some(2), features: Some(io) };
    assert_eq!(Timeout::new_in(20 * MS, 7, &with_io), Ok(Timeout::new(20 * MS, 7)));
    let headless: Context<u8, u8> = Context { queue: None, reactor: None, features: Some(io) };
    assert_eq!(Timeout::new_in(20 * MS, 7, &headless), Err(ContextError::NoReactor));
}
