use reactor::poll::Poll;
use reactor::runtime::context::{enter_context, Context, ContextError, Feature, Features};
use reactor::runtime::queue::TaskQueue;
use reactor::runtime::waker::{make_waker, TaskWaker};
use reactor::runtime::yield_now::yield_now;
use reactor::task::{JoinHandle, JoinSet, Progress, Task};

#[test]
fn queue_is_first_in_first_out() {
    let mut queue: TaskQueue<u32> = TaskQueue::new();
    assert!(queue.is_empty());
    assert_eq!(queue.pop(), None);
    queue.push(1);
    queue.push(2);
    queue.push(3);
    assert_eq!(queue.len(), 3);
    assert_eq!(queue.pop(), Some(1));
    queue.push(4);
    assert_eq!(queue.pop(), Some(2));
    assert_eq!(queue.pop(), Some(3));
    assert_eq!(queue.pop(), Some(4));
    assert_eq!(queue.pop(), None);
    assert!(queue.is_empty());
}

#[test]
fn waker_requeues_its_task() {
    let mut queue: TaskQueue<u32> = TaskQueue::new();
    let waker = TaskWaker::new(7);
    assert_eq!(*waker.task(), 7);
    waker.wake_by_ref(&mut queue);
    waker.wake_by_ref(&mut queue);
    waker.wake(&mut queue);
    make_waker(8).wake(&mut queue);
    assert_eq!(queue.len(), 4);
    assert_eq!(queue.pop(), Some(7));
    assert_eq!(queue.pop(), Some(7));
    assert_eq!(queue.pop(), Some(7));
    assert_eq!(queue.pop(), Some(8));
}

#[test]
fn yield_is_pending_once() {
    let mut once = yield_now();
    let first = once.poll();
    assert!(first.poll.is_pending());
    assert!(first.wake);
    let second = once.poll();
    assert!(second.poll.is_ready());
    assert!(!second.wake);
    let third = once.poll();
    assert!(third.poll.is_ready());
}

#[test]
fn spawn_queues_the_task_and_returns_a_handle() {
    let mut queue: TaskQueue<u32> = TaskQueue::new();
    let handle: JoinHandle<&str> =
        Task::<&str, u8, u8>::spawn("future", |_task| (5u32, "joinable"), &mut queue);
    assert_eq!(*handle.task(), "joinable");
    assert_eq!(queue.len(), 1);
    assert_eq!(queue.pop(), Some(5));
    assert_eq!(handle.into_task(), "joinable");
}

#[test]
fn joiner_gets_the_value_once() {
    // A task that needs two polls and then yields 42 to its joiner.
    let mut task: Task<u8, u32, &str> = Task::new(0);
    assert!(!task.is_completed());
    assert!(task.is_joinable());
    let handle = JoinHandle::new(());
    assert!(handle.poll(&mut task, "joiner").is_pending());

    let wake = task.poll(|state| Progress::Pending(state + 1));
    assert!(wake.is_empty());
    assert!(!task.is_completed());

    let wake = task.poll(|state| {
        assert_eq!(state, 1);
        Progress::Ready(42)
    });
    assert_eq!(wake, vec!["joiner"]);
    assert!(task.is_completed());
    assert!(task.is_joinable());

    assert!(matches!(handle.poll(&mut task, "joiner"), Poll::Ready(42)));
    assert!(!task.is_joinable());
}

#[test]
fn polling_a_finished_task_does_nothing() {
    let mut task: Task<u8, u32, u8> = Task::new(0);
    task.poll(|_| Progress::Ready(1));
    let wake = task.poll(|_| -> Progress<u8, u32> { panic!("polled after completion") });
    assert!(wake.is_empty());
    assert!(task.is_completed());
    assert!(matches!(task.join(0), Poll::Ready(1)));
}

#[test]
fn two_phase_poll_matches_poll() {
    let mut task: Task<&str, u32, u8> = Task::new("future");
    assert!(task.join(3).is_pending());
    assert!(task.join(4).is_pending());
    let future = task.take_future();
    assert_eq!(future, Some("future"));
    assert_eq!(task.take_future(), None);
    assert!(task.settle(Progress::Pending("future")).is_empty());
    assert_eq!(task.take_future(), Some("future"));
    assert_eq!(task.settle(Progress::Ready(9)), vec![3, 4]);
    assert_eq!(task.take_future(), None);
    assert!(matches!(task.join(5), Poll::Ready(9)));
}

#[test]
fn join_set_keeps_the_order() {
    let mut set: JoinSet<u32> = JoinSet::new();
    for i in 0..5 {
        set.push(JoinHandle::new(i));
    }
    assert_eq!(set.len(), 5);
    let handles = set.await_all();
    let order: Vec<u32> = handles.into_iter().map(|handle| handle.into_task()).collect();
    assert_eq!(order, vec![0, 1, 2, 3, 4]);
    assert_eq!(set.len(), 0);
    assert_eq!(JoinSet::<u8>::default().len(), 0);
}

#[test]
fn spawn_outside_a_runtime_is_refused() {
    let mut outside: Context<TaskQueue<u32>, u8> = Context::empty();
    let mut called = false;
    let spawned = Task::<&str, u8, u8>::spawn_in(&mut outside, "future", |_task| {
        called = true;
        (5u32, "joinable")
    });
    assert!(matches!(spawned, Err(ContextError::NoRuntime)));
    assert!(!called);
    assert!(outside.queue.is_none());

    let features = Features { io_enabled: false, fs_enabled: false };
    let mut inside: Context<TaskQueue<u32>, u8> =
        Context { queue: Some(TaskQueue::new()), reactor: None, features: Some(features) };
    let spawned = Task::<&str, u8, u8>::spawn_in(&mut inside, "future", |_task| (5u32, "joinable"));
    assert_eq!(spawned.ok().map(|handle| handle.into_task()), Some("joinable"));
    assert_eq!(inside.queue.as_mut().and_then(|queue| queue.pop()), Some(5));
    assert_eq!(inside.features, Some(features));
}

#[test]
fn context_errors_have_messages() {
    assert_eq!(
        ContextError::NoRuntime.message(),
        "Task::spawn() called outside of a runtime context"
    );
    assert_eq!(
        ContextError::NoReactor.message(),
        "No reactor in current context. I/O operations must be called within Runtime::block_on"
    );
    assert_eq!(
        ContextError::FeatureDisabled(Feature::Io).message(),
        "I/O support not enabled. Use RuntimeBuilder::enable_io()."
    );
    assert_eq!(
        ContextError::FeatureDisabled(Feature::Fs).message(),
        "filesystem support not enabled. Use RuntimeBuilder::enable_fs()."
    );
}

#[test]
fn context_is_restored_on_exit() {
    let mut context: Context<&str, u8> = Context::empty();
    assert_eq!(context.current_queue(), Err(ContextError::NoRuntime));
    assert_eq!(context.current_reactor_inner(), Err(ContextError::NoReactor));
    assert_eq!(context.current_reactor_io(), Err(ContextError::FeatureDisabled(Feature::Io)));

    let outer = Features { io_enabled: true, fs_enabled: false };
    let before = enter_context(&mut context, "outer", 1, outer);
    assert!(before.queue.is_none());
    assert_eq!(context.current_queue(), Ok(&"outer"));
    assert_eq!(context.current_reactor_io(), Ok(&1));
    assert_eq!(context.current_reactor_fs(), Err(ContextError::FeatureDisabled(Feature::Fs)));
    assert_eq!(context.ensure_feature(Feature::Io), Ok(()));

    let inner = Features { io_enabled: true, fs_enabled: true };
    let saved = context.enter_context("inner", 2, inner);
    assert_eq!(context.current_queue(), Ok(&"inner"));
    assert_eq!(context.current_reactor_fs(), Ok(&2));
    assert!(inner.has(Feature::Fs));

    context.exit_context(saved);
    assert_eq!(context.current_queue(), Ok(&"outer"));
    assert_eq!(context.current_reactor_io(), Ok(&1));
    context.exit_context(before);
    assert_eq!(context.current_queue(), Err(ContextError::NoRuntime));
}

#[test]
fn feature_without_reactor() {
    let context: Context<u8, u8> = Context {
        queue: None,
        reactor: None,
        features: Some(Features { io_enabled: true, fs_enabled: true }),
    };
    assert_eq!(context.current_reactor_io(), Err(ContextError::NoReactor));
    assert_eq!(context.current_reactor_fs(), Err(ContextError::NoReactor));
}
