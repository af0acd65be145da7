use reactor::error::IoError;
use reactor::poll::Poll;
use reactor::reactor::dispatch::Reactor;
use reactor::reactor::event::{Change, Event, Filter};
use reactor::reactor::io::ConnexionState;
use reactor::reactor::poller::common::{Event as Readiness, Interest};
use reactor::reactor::poller::kqueue::{KqueuePoller, Report, Request, Submission, WAKE_IDENT};
use reactor::reactor::socket::accept_client;
use reactor::reactor::syscall::Outcome;
use reactor::runtime::workstealing::{Injector, LocalQueue, Step, Worker, WAIT_MS};
use reactor::tools::retry::{retry, Retry};
use reactor::utils::slab::Slab;

#[test]
fn slab_hands_out_the_highest_slot_first() {
    let mut slab: Slab<&str> = Slab::new(3);
    assert_eq!(slab.capacity(), 3);
    assert_eq!(slab.insert("a"), 2);
    assert_eq!(slab.insert("b"), 1);
    assert_eq!(slab.insert("c"), 0);
    assert!(slab.contains(0) && slab.contains(1) && slab.contains(2));
    assert!(!slab.contains(3));
    assert_eq!(slab.remove(1), "b");
    assert!(!slab.contains(1));
    assert_eq!(slab.insert("d"), 1);
    assert_eq!(slab.remove(1), "d");
    assert_eq!(slab.remove(2), "a");
    assert_eq!(slab.insert("e"), 2);
}

#[test]
fn slab_doubles_when_it_is_full() {
    let mut slab: Slab<u32> = Slab::new(0);
    assert_eq!(slab.insert(10), 0);
    assert_eq!(slab.capacity(), 1);
    assert_eq!(slab.insert(11), 1);
    assert_eq!(slab.capacity(), 2);
    assert_eq!(slab.insert(12), 2);
    assert_eq!(slab.capacity(), 4);
    assert_eq!(slab.insert(13), 3);
    assert_eq!(slab.insert(14), 4);
    assert_eq!(slab.capacity(), 8);
    assert_eq!(slab.insert(15), 7);
    assert_eq!(slab.remove(0), 10);
    assert_eq!(slab.remove(4), 14);
    assert_eq!(slab.remove(7), 15);
}

#[test]
fn injector_counts_tasks_under_way() {
    let mut injector: Injector<u8> = Injector::new();
    assert!(injector.is_idle());
    assert!(injector.is_empty());
    assert!(!injector.is_shutdown());
    injector.push(1);
    injector.push(2);
    assert!(!injector.is_idle());
    assert_eq!(injector.pop(), Some(1));
    injector.reschedule(1);
    assert_eq!(injector.pop(), Some(2));
    assert_eq!(injector.pop(), Some(1));
    assert_eq!(injector.pop(), None);
    injector.task_completed();
    assert!(!injector.is_idle());
    injector.task_completed();
    assert!(injector.is_idle());
    injector.shutdown();
    assert!(injector.is_shutdown());
}

#[test]
fn local_queue_works_at_both_ends() {
    let mut queue: LocalQueue<u8> = LocalQueue::new();
    assert_eq!(queue.pop(), None);
    assert_eq!(queue.steal(), None);
    queue.push(1);
    queue.push(2);
    queue.push(3);
    assert_eq!(queue.pop(), Some(3));
    assert_eq!(queue.steal(), Some(1));
    assert_eq!(queue.pop(), Some(2));
    assert_eq!(queue.steal(), None);
}

#[test]
fn worker_steals_from_its_neighbours_in_turn() {
    let mut locals: Vec<LocalQueue<u8>> = vec![LocalQueue::new(), LocalQueue::new(), LocalQueue::new()];
    locals[0].push(10);
    locals[0].push(11);
    locals[1].push(20);
    locals[2].push(30);
    let worker = Worker { id: 1 };
    assert_eq!(worker.try_steal(&mut locals), Some(30));
    assert_eq!(worker.try_steal(&mut locals), Some(10));
    assert_eq!(worker.try_steal(&mut locals), Some(11));
    assert_eq!(worker.try_steal(&mut locals), Some(20));
    assert_eq!(worker.try_steal(&mut locals), None);
    let mut none: Vec<LocalQueue<u8>> = Vec::new();
    assert_eq!(Worker { id: 0 }.try_steal(&mut none), None);
}

#[test]
fn worker_prefers_its_own_queue_then_the_injector() {
    let mut locals: Vec<LocalQueue<u8>> = vec![LocalQueue::new(), LocalQueue::new()];
    let mut injector: Injector<u8> = Injector::new();
    locals[0].push(1);
    locals[0].push(2);
    locals[1].push(3);
    injector.push(4);
    let worker = Worker { id: 0 };
    assert!(matches!(worker.run(&mut locals, &mut injector), Step::Run(2)));
    assert!(matches!(worker.run(&mut locals, &mut injector), Step::Run(1)));
    assert!(matches!(worker.run(&mut locals, &mut injector), Step::Run(4)));
    assert!(matches!(worker.run(&mut locals, &mut injector), Step::Run(3)));
    assert!(matches!(worker.run(&mut locals, &mut injector), Step::Wait));
    locals[0].push(5);
    injector.shutdown();
    assert!(matches!(worker.run(&mut locals, &mut injector), Step::Stop));
    assert_eq!(WAIT_MS, 10);
}

#[test]
fn retry_tries_once_more_than_it_has_retries() {
    let mut op = retry(2);
    let mut attempts = 0;
    loop {
        let retried = op.poll(|fresh| {
            assert!(fresh);
            attempts += 1;
            Poll::Ready(Err::<u8, &str>("no"))
        });
        assert!(!retried.needs_timer);
        match retried.poll {
            Poll::Pending => assert!(retried.wake),
            Poll::Ready(result) => {
                assert_eq!(result, Err("no"));
                assert!(!retried.wake);
                break;
            }
        }
    }
    assert_eq!(attempts, 3);
    assert_eq!(op.remaining, 0);
}

#[test]
fn retry_passes_success_on() {
    let mut op = Retry::new(5);
    let retried = op.poll(|_| Poll::<Result<u8, u8>>::Pending);
    assert!(retried.poll.is_pending() && !retried.wake);
    assert!(op.running);
    let retried = op.poll(|fresh| {
        assert!(!fresh);
        Poll::Ready(Ok::<u8, u8>(7))
    });
    assert!(matches!(retried.poll, Poll::Ready(Ok(7))));
    assert_eq!(op.remaining, 5);
}

#[test]
fn retry_pauses_between_attempts() {
    let mut reactor: Reactor<&str> = Reactor::new(0);
    let mut op = Retry::new(1).set_interval(5_000_000);
    assert!(op.arm_pause(&mut reactor, "early").is_none());
    let retried = op.poll(|_| Poll::Ready(Err::<u8, u8>(1)));
    assert!(retried.poll.is_pending() && retried.wake);
    // The pause: pending, asking for a timer of five milliseconds, and no
    // attempt.
    let retried = op.poll(|_| -> Poll<Result<u8, u8>> { panic!("attempted during the pause") });
    assert!(retried.poll.is_pending() && !retried.wake);
    assert!(retried.needs_timer);
    assert_eq!(
        op.arm_pause(&mut reactor, "task"),
        Some(Event { ident: 1, filter: Filter::Timer, change: Change::Add, data: 5 })
    );
    assert!(op.arm_pause(&mut reactor, "again").is_none());
    reactor.poll_events(vec![Event::new(1, Filter::Timer, None)]);
    assert_eq!(reactor.wake_ready(), vec!["task"]);
    let retried = op.poll(|fresh| {
        assert!(fresh);
        Poll::Ready(Err::<u8, u8>(2))
    });
    assert!(matches!(retried.poll, Poll::Ready(Err(2))));
}

#[test]
fn poller_builds_its_submissions() {
    let (poller, setup) = KqueuePoller::new(3);
    assert_eq!(poller.kqueue, 3);
    assert_eq!(
        setup,
        Submission { ident: WAKE_IDENT, filter: Filter::User, request: Request::AddClear, token: 0 }
    );
    let both = poller.register(5, 77, Interest { read: true, write: true });
    assert_eq!(
        both,
        vec![
            Submission { ident: 5, filter: Filter::Read, request: Request::Add, token: 77 },
            Submission { ident: 5, filter: Filter::Write, request: Request::Add, token: 77 },
        ]
    );
    assert_eq!(poller.register(5, 77, Interest { read: false, write: true }).len(), 1);
    assert!(poller.register(5, 77, Interest { read: false, write: false }).is_empty());
    assert_eq!(
        poller.deregister(5),
        vec![
            Submission { ident: 5, filter: Filter::Read, request: Request::Delete, token: 0 },
            Submission { ident: 5, filter: Filter::Write, request: Request::Delete, token: 0 },
        ]
    );
    assert_eq!(poller.wake().request, Request::Trigger);
}

#[test]
fn poller_reports_each_token_once() {
    let (poller, _) = KqueuePoller::new(3);
    let mut events = vec![Readiness { token: 99, readable: true, writable: true }];
    let reports = vec![
        Report { filter: Filter::Read, token: 1 },
        Report { filter: Filter::User, token: 0 },
        Report { filter: Filter::Write, token: 2 },
        Report { filter: Filter::Write, token: 1 },
        Report { filter: Filter::Timer, token: 3 },
        Report { filter: Filter::Read, token: 2 },
    ];
    assert_eq!(poller.poll(&mut events, None, false, &reports), Ok(()));
    assert_eq!(
        events,
        vec![
            Readiness { token: 1, readable: true, writable: true },
            Readiness { token: 2, readable: true, writable: true },
            Readiness { token: 3, readable: false, writable: false },
        ]
    );
    assert_eq!(poller.poll(&mut events, Some(4), true, &reports), Ok(()));
    assert_eq!(events.len(), 3);
    assert_eq!(poller.poll(&mut events, Some(9), false, &reports), Err(IoError::Os(9)));
    assert_eq!(events.len(), 3);
    assert_eq!(poller.poll(&mut events, None, false, &Vec::new()), Ok(()));
    assert!(events.is_empty());
}

#[test]
fn nonblocking_flag_is_added() {
    assert_eq!(Event::nonblocking_flags(0b0101, 0b1000), 0b1101);
    assert_eq!(Event::nonblocking_flags(0b1101, 0b1000), 0b1101);
    let set = Event::set_nonblocking(0);
    assert_ne!(set, 0);
    assert_eq!(Event::set_nonblocking(set), set);
    assert_eq!(Event::set_nonblocking(2) & 2, 2);
}

#[test]
fn accepted_client_waits_for_data() {
    assert!(accept_client(Outcome::WouldBlock).is_none());
    assert!(accept_client(Outcome::Failed(24)).is_none());
    let accepted = accept_client(Outcome::Done(12)).unwrap();
    assert_eq!(accepted.file_descriptor, 12);
    assert_eq!(accepted.arm, Event { ident: 12, filter: Filter::Read, change: Change::Add, data: 0 });
    assert_eq!(accepted.connexion.state, ConnexionState::Reading);
    assert!(accepted.connexion.out.is_empty());
}
