use reactor::builder::RuntimeBuilder;
use reactor::reactor::dispatch::Reactor;
use reactor::reactor::event::{Event, Filter};
use reactor::runtime::event_loop::{Action, Phase, Reply, Runtime, GRACE_PAUSE_MS, GRACE_ROUNDS};

fn woken(root_notified: bool, queue_empty: bool) -> Reply {
    Reply::Woken { root_notified, queue_empty }
}

#[test]
fn test_builder_creation() {
    let _rt = RuntimeBuilder::new().build();
}

#[test]
fn built_runtimes_start_idle() {
    let rt1 = RuntimeBuilder::new().build();
    let rt2 = RuntimeBuilder::new().build();
    assert_eq!(rt1.current_phase(), Phase::Idle);
    assert_eq!(rt2.current_phase(), Phase::Idle);
}

#[test]
fn builder_features() {
    let plain = RuntimeBuilder::new().build();
    assert!(!plain.io_enabled());
    assert!(!plain.fs_enabled());
    let io = RuntimeBuilder::new().enable_io().build();
    assert!(io.io_enabled());
    assert!(!io.fs_enabled());
    let fs = RuntimeBuilder::new().enable_fs().build();
    assert!(fs.io_enabled());
    assert!(fs.fs_enabled());
    let forced = Runtime::with_features(false, true);
    assert!(forced.io_enabled());
    assert!(forced.fs_enabled());
    let default = RuntimeBuilder::default();
    assert_eq!(default, RuntimeBuilder::new());
    let unit = reactor::runtime::builder::RuntimeBuilder::new().build();
    assert!(!unit.io_enabled());
}

#[test]
fn ready_root_drains_once_and_returns() {
    // A root that is ready at its first poll: the loop drains once and returns.
    let mut rt = RuntimeBuilder::new().build();
    let mut reactor: Reactor<u8> = Reactor::new(0);
    assert!(matches!(rt.block_on_begin::<u8>(), Action::PollRoot { clear_notified: false }));
    assert_eq!(rt.current_phase(), Phase::Root);
    assert!(matches!(rt.block_on_step(&mut reactor, Reply::RootReady), Action::Drain));
    assert_eq!(rt.current_phase(), Phase::GraceDraining { round: 0 });
    assert!(matches!(
        rt.block_on_step(&mut reactor, Reply::Drained { queue_empty: true }),
        Action::Return
    ));
    assert_eq!(rt.current_phase(), Phase::Finished);
    assert_eq!(reactor.pending_len(), 0);
}

#[test]
fn pending_root_drains_then_harvests_then_blocks() {
    let mut rt = Runtime::new();
    let mut reactor: Reactor<u8> = Reactor::new(0);
    rt.block_on_begin::<u8>();
    assert!(matches!(rt.block_on_step(&mut reactor, Reply::RootPending), Action::Drain));
    assert!(matches!(
        rt.block_on_step(&mut reactor, Reply::Drained { queue_empty: true }),
        Action::Harvest
    ));
    match rt.block_on_step(&mut reactor, Reply::Events(Vec::new())) {
        Action::Wake(due) => assert!(due.is_empty()),
        _ => panic!("expected a wake"),
    }
    assert_eq!(rt.current_phase(), Phase::Waking);
    assert!(matches!(rt.block_on_step(&mut reactor, woken(false, true)), Action::Block));
    assert_eq!(rt.current_phase(), Phase::Blocked);
}

#[test]
fn notified_root_is_polled_again_with_the_flag_cleared() {
    let mut rt = Runtime::new();
    let mut reactor: Reactor<u8> = Reactor::new(0);
    rt.block_on_begin::<u8>();
    rt.block_on_step(&mut reactor, Reply::RootPending);
    rt.block_on_step(&mut reactor, Reply::Drained { queue_empty: true });
    rt.block_on_step(&mut reactor, Reply::Events(Vec::new()));
    assert!(matches!(
        rt.block_on_step(&mut reactor, woken(true, true)),
        Action::PollRoot { clear_notified: true }
    ));
    assert_eq!(rt.current_phase(), Phase::Root);
}

#[test]
fn ready_tasks_keep_the_loop_from_blocking() {
    let mut rt = Runtime::new();
    let mut reactor: Reactor<u8> = Reactor::new(0);
    rt.block_on_begin::<u8>();
    rt.block_on_step(&mut reactor, Reply::RootPending);
    rt.block_on_step(&mut reactor, Reply::Drained { queue_empty: true });
    rt.block_on_step(&mut reactor, Reply::Events(Vec::new()));
    assert!(matches!(
        rt.block_on_step(&mut reactor, woken(false, false)),
        Action::PollRoot { clear_notified: false }
    ));
}

#[test]
fn blocking_wait_classifies_and_hands_out_wakers() {
    let mut rt = Runtime::new();
    let mut reactor: Reactor<u8> = Reactor::new(0);
    reactor.register_read(3, 33);
    reactor.register_timer(5_000_000, 44);
    rt.block_on_begin::<u8>();
    rt.block_on_step(&mut reactor, Reply::RootPending);
    rt.block_on_step(&mut reactor, Reply::Drained { queue_empty: true });
    rt.block_on_step(&mut reactor, Reply::Events(Vec::new()));
    rt.block_on_step(&mut reactor, woken(false, true));
    let batch = vec![Event::new(1, Filter::Timer, None), Event::new(3, Filter::Read, None)];
    match rt.block_on_step(&mut reactor, Reply::Events(batch)) {
        Action::Wake(due) => assert_eq!(due, vec![44, 33]),
        _ => panic!("expected a wake"),
    }
    assert_eq!(rt.current_phase(), Phase::Resuming);
    assert_eq!(reactor.pending_len(), 0);
    assert!(!reactor.has_reader(3));
    assert!(!reactor.has_timer(1));
    assert!(matches!(
        rt.block_on_step(&mut reactor, woken(true, false)),
        Action::PollRoot { clear_notified: false }
    ));
}

#[test]
fn harvest_hands_out_wakers_too() {
    let mut rt = Runtime::new();
    let mut reactor: Reactor<u8> = Reactor::new(0);
    reactor.register_write(8, 88);
    rt.block_on_begin::<u8>();
    rt.block_on_step(&mut reactor, Reply::RootPending);
    rt.block_on_step(&mut reactor, Reply::Drained { queue_empty: false });
    match rt.block_on_step(&mut reactor, Reply::Events(vec![Event::new(8, Filter::Write, None)])) {
        Action::Wake(due) => assert_eq!(due, vec![88]),
        _ => panic!("expected a wake"),
    }
}

#[test]
fn replies_out_of_turn_are_rejected() {
    let mut rt = Runtime::new();
    let mut reactor: Reactor<u8> = Reactor::new(0);
    assert!(matches!(rt.block_on_step(&mut reactor, Reply::RootPending), Action::Rejected));
    assert_eq!(rt.current_phase(), Phase::Idle);
    rt.block_on_begin::<u8>();
    assert!(matches!(rt.block_on_step(&mut reactor, Reply::Paused), Action::Rejected));
    assert!(matches!(rt.block_on_step(&mut reactor, woken(true, true)), Action::Rejected));
    assert_eq!(rt.current_phase(), Phase::Root);
    rt.block_on_step(&mut reactor, Reply::RootReady);
    rt.block_on_step(&mut reactor, Reply::Drained { queue_empty: true });
    assert!(matches!(rt.block_on_step(&mut reactor, Reply::RootReady), Action::Rejected));
    assert_eq!(rt.current_phase(), Phase::Finished);
}

#[test]
fn grace_drain_is_bounded_to_ten_rounds() {
    // Tasks left in the queue after the root resolved get up to ten drains,
    // each followed by a pause of ten milliseconds.
    let mut rt = Runtime::new();
    let mut reactor: Reactor<u8> = Reactor::new(0);
    rt.block_on_begin::<u8>();
    rt.block_on_step(&mut reactor, Reply::RootReady);
    let mut drains = 1;
    loop {
        match rt.block_on_step(&mut reactor, Reply::Drained { queue_empty: false }) {
            Action::Pause { millis } => assert_eq!(millis, GRACE_PAUSE_MS),
            _ => panic!("expected a pause"),
        }
        match rt.block_on_step(&mut reactor, Reply::Paused) {
            Action::Drain => drains += 1,
            Action::Return => break,
            _ => panic!("expected a drain or the end"),
        }
    }
    assert_eq!(drains, 10);
    assert_eq!(GRACE_ROUNDS, 10);
    assert_eq!(rt.current_phase(), Phase::Finished);
}

#[test]
fn grace_drain_ends_when_the_queue_is_empty() {
    let mut rt = Runtime::new();
    let mut reactor: Reactor<u8> = Reactor::new(0);
    rt.block_on_begin::<u8>();
    rt.block_on_step(&mut reactor, Reply::RootReady);
    rt.block_on_step(&mut reactor, Reply::Drained { queue_empty: false });
    assert!(matches!(rt.block_on_step(&mut reactor, Reply::Paused), Action::Drain));
    assert_eq!(rt.current_phase(), Phase::GraceDraining { round: 1 });
    assert!(matches!(
        rt.block_on_step(&mut reactor, Reply::Drained { queue_empty: true }),
        Action::Return
    ));
}

#[test]
fn default_runtime_has_no_features() {
    let rt = Runtime::default();
    assert!(!rt.io_enabled());
    assert!(!rt.fs_enabled());
    assert_eq!(rt.current_phase(), Phase::Idle);
}
