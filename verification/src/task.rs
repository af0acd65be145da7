//! Tasks, join handles and join sets.
//!
//! A task owns a lazily polled computation. While the computation is under
//! way the task holds it; once it has produced its value the task holds the
//! value until the first joiner takes it. Joiners that come early leave their
//! wakers with the task and are woken when the value arrives.
//!
//! Polling the computation is left to the caller: [`Task::poll`] takes the
//! computation out, hands it to the caller's `step`, and settles the task
//! according to what `step` reports.

use crate::poll::Poll;
use crate::runtime::context::{Context, ContextError};
use crate::runtime::queue::TaskQueue;
use vstd::prelude::*;

verus! {

/// What one poll of a computation came to.
pub enum Progress<F, T> {
    /// The computation is not finished and is handed back.
    Pending(F),
    /// The computation finished with this value.
    Ready(T),
}

/// Mathematical state of a task.
pub struct TaskState<F, T, W> {
    /// The computation, while it is neither finished nor being polled.
    pub future: Option<F>,
    /// The value produced, until a joiner takes it.
    pub result: Option<T>,
    /// Whether the computation has finished.
    pub completed: bool,
    /// Wakers of the joiners waiting for the value, oldest first.
    pub waiters: Seq<W>,
}

impl<F, T, W> TaskState<F, T, W> {
    /// The state of a task that wraps `future` and has not been polled.
    pub open spec fn init(future: F) -> Self {
        TaskState { future: Some(future), result: None, completed: false, waiters: Seq::empty() }
    }

    /// A finished task holds no computation and no waiters; an unfinished
    /// one holds no value.
    pub open spec fn valid(self) -> bool {
        &&& self.completed ==> self.future is None && self.waiters.len() == 0
        &&& !self.completed ==> self.result is None
    }

    /// Between polls the computation slot is occupied exactly as long as the
    /// task has not finished.
    pub open spec fn at_rest(self) -> bool {
        &&& self.valid()
        &&& self.future is Some <==> !self.completed
    }

    /// The state after the computation was taken out for a poll.
    pub open spec fn taken(self) -> Self {
        TaskState { future: None, ..self }
    }

    /// The state after a poll of the computation came to `progress`: a
    /// pending computation goes back into its slot; a value is stored, the
    /// task is marked finished and its waiters leave.
    pub open spec fn settled(self, progress: Progress<F, T>) -> Self {
        match progress {
            Progress::Pending(future) => TaskState { future: Some(future), ..self },
            Progress::Ready(value) => TaskState {
                future: None,
                result: Some(value),
                completed: true,
                waiters: Seq::empty(),
            },
        }
    }

    /// The wakers to wake after a poll of the computation came to
    /// `progress`.
    pub open spec fn woken(self, progress: Progress<F, T>) -> Seq<W> {
        match progress {
            Progress::Pending(_) => Seq::empty(),
            Progress::Ready(_) => self.waiters,
        }
    }

    /// The state after a joiner with `waker` polled its handle.
    pub open spec fn joined(self, waker: W) -> Self {
        if self.completed {
            TaskState { result: None, ..self }
        } else {
            TaskState { waiters: self.waiters.push(waker), ..self }
        }
    }

    /// The answer a joiner gets when it polls its handle.
    pub open spec fn join_answer(self) -> Poll<T> {
        if self.completed && self.result is Some {
            Poll::Ready(self.result->0)
        } else {
            Poll::Pending
        }
    }
}

/// Whether spawning `future` turned the ready queue `before` into `after`
/// and gave the join handle the reference `target`: there is a fresh task
/// around `future` that `share` turned into a queue entry and `target`, and
/// the entry joined the back of the queue.
pub open spec fn spec_spawned<F, T, W, R, H, S: FnOnce(Task<F, T, W>) -> (R, H)>(
    future: F,
    share: S,
    before: Seq<R>,
    after: Seq<R>,
    target: H,
) -> bool {
    exists|task: Task<F, T, W>, runnable: R|
        {
            &&& task@ == TaskState::<F, T, W>::init(future)
            &&& #[trigger] call_ensures(share, (task,), (runnable, target))
            &&& after == before.push(runnable)
        }
}

/// A spawned task: a computation of type `F` that produces a `T`, with
/// joiners that are woken through wakers of type `W`.
pub struct Task<F, T, W> {
    future: Option<F>,
    result: Option<T>,
    completed: bool,
    waiters: Vec<W>,
}

impl<F, T, W> View for Task<F, T, W> {
    type V = TaskState<F, T, W>;

    closed spec fn view(&self) -> TaskState<F, T, W> {
        TaskState {
            future: self.future,
            result: self.result,
            completed: self.completed,
            waiters: self.waiters@,
        }
    }
}

impl<F, T, W> Task<F, T, W> {
    /// Wraps `future` into a task. The task is not queued anywhere.
    pub fn new(future: F) -> (task: Self)
        ensures
            task@ == TaskState::<F, T, W>::init(future),
            task@.at_rest(),
    {
        let task = Task { future: Some(future), result: None, completed: false, waiters: Vec::new() };
        assert(task@.waiters =~= Seq::<W>::empty());
        task
    }

    /// Spawns a task for `future` on the runtime whose ready queue is
    /// `queue`: wraps the computation into a task, lets `share` turn the task
    /// into two references to it, queues the first and returns a join handle
    /// that holds the second.
    pub fn spawn<R, H, S: FnOnce(Task<F, T, W>) -> (R, H)>(
        future: F,
        share: S,
        queue: &mut TaskQueue<R>,
    ) -> (handle: JoinHandle<H>)
        requires
            forall|task: Task<F, T, W>|
                task@ == TaskState::<F, T, W>::init(future) ==> call_requires(share, (task,)),
        ensures
            spec_spawned(future, share, old(queue)@, final(queue)@, handle.target()),
    {
        let task: Task<F, T, W> = Task::new(future);
        let (runnable, joinable) = share(task);
        queue.push(runnable);
        proof {
            assert(task@ == TaskState::<F, T, W>::init(future) && call_ensures(
                share,
                (task,),
                (runnable, joinable),
            ) && queue@ == old(queue)@.push(runnable));
        }
        JoinHandle::new(joinable)
    }

    /// Spawns a task for `future` on the runtime in charge of `context`.
    ///
    /// Outside of a runtime the call is refused with `NoRuntime`: nothing is
    /// made or queued, and `share` is not called. Inside a runtime the task
    /// is spawned on the ready queue of the context, as [`Task::spawn`] does.
    pub fn spawn_in<R, H, C, S: FnOnce(Task<F, T, W>) -> (R, H)>(
        context: &mut Context<TaskQueue<R>, C>,
        future: F,
        share: S,
    ) -> (spawned: Result<JoinHandle<H>, ContextError>)
        requires
            forall|task: Task<F, T, W>|
                task@ == TaskState::<F, T, W>::init(future) ==> call_requires(share, (task,)),
        ensures
            final(context).reactor == old(context).reactor,
            final(context).features == old(context).features,
            old(context).queue is None ==> {
                &&& spawned == Err::<JoinHandle<H>, ContextError>(ContextError::NoRuntime)
                &&& final(context).queue is None
            },
            old(context).queue is Some ==> {
                &&& spawned is Ok
                &&& final(context).queue is Some
                &&& spec_spawned(
                    future,
                    share,
                    old(context).queue->0@,
                    final(context).queue->0@,
                    spawned->Ok_0.target(),
                )
            },
    {
        match context.queue.take() {
            Some(ready) => {
                let mut ready = ready;
                let handle = Task::spawn(future, share, &mut ready);
                context.queue = Some(ready);
                Ok(handle)
            },
            None => Err(ContextError::NoRuntime),
        }
    }

    /// Whether the computation has finished.
    pub fn is_completed(&self) -> (completed: bool)
        ensures
            completed == self@.completed,
    {
        self.completed
    }

    /// Whether a joiner that polls its handle now gets an answer without
    /// failing: the task is unfinished, or its value has not been taken.
    pub fn is_joinable(&self) -> (joinable: bool)
        ensures
            joinable == (self@.completed ==> self@.result is Some),
    {
        !self.completed || self.result.is_some()
    }

    /// Takes the computation out of its slot for a poll. The slot is empty
    /// if the task has finished or is being polled already.
    pub fn take_future(&mut self) -> (future: Option<F>)
        ensures
            future == old(self)@.future,
            final(self)@ == old(self)@.taken(),
            old(self)@.valid() ==> final(self)@.valid(),
    {
        self.future.take()
    }

    /// Settles the task after a poll of its computation came to `progress`,
    /// and returns the wakers of the joiners to wake, oldest first.
    pub fn settle(&mut self, progress: Progress<F, T>) -> (wake: Vec<W>)
        requires
            old(self)@.valid(),
            !old(self)@.completed,
        ensures
            final(self)@ == old(self)@.settled(progress),
            wake@ == old(self)@.woken(progress),
            final(self)@.at_rest(),
    {
        match progress {
            Progress::Pending(future) => {
                self.future = Some(future);
                let wake: Vec<W> = Vec::new();
                assert(wake@ =~= Seq::<W>::empty());
                wake
            },
            Progress::Ready(value) => {
                self.future = None;
                self.result = Some(value);
                self.completed = true;
                let mut wake: Vec<W> = Vec::new();
                std::mem::swap(&mut self.waiters, &mut wake);
                assert(self@.waiters =~= Seq::<W>::empty());
                wake
            },
        }
    }

    /// Polls the task once: takes the computation out of its slot, lets
    /// `step` poll it, and settles the task with what `step` reports. With an
    /// empty slot the call does nothing. Returns the wakers of the joiners to
    /// wake, which is none unless the computation just finished.
    pub fn poll<S: FnOnce(F) -> Progress<F, T>>(&mut self, step: S) -> (wake: Vec<W>)
        requires
            old(self)@.valid(),
            old(self)@.future matches Some(future) ==> call_requires(step, (future,)),
        ensures
            final(self)@.valid(),
            old(self)@.future is None ==> final(self)@ == old(self)@ && wake@ == Seq::<W>::empty(),
            old(self)@.future matches Some(future) ==> exists|progress: Progress<F, T>|
                {
                    &&& call_ensures(step, (future,), progress)
                    &&& final(self)@ == old(self)@.taken().settled(progress)
                    &&& wake@ == old(self)@.woken(progress)
                },
    {
        match self.take_future() {
            Some(future) => {
                let progress = step(future);
                let wake = self.settle(progress);
                proof {
                    assert(call_ensures(step, (future,), progress));
                    assert(self@ == old(self)@.taken().settled(progress));
                    assert(wake@ == old(self)@.woken(progress));
                }
                wake
            },
            None => {
                let wake: Vec<W> = Vec::new();
                assert(wake@ =~= Seq::<W>::empty());
                assert(self@ == old(self)@);
                wake
            },
        }
    }

    /// One poll of a join handle on the task. A finished task gives up its
    /// value, which can be taken once; an unfinished task keeps `waker` to
    /// wake the joiner when the value arrives.
    pub fn join(&mut self, waker: W) -> (answer: Poll<T>)
        requires
            old(self)@.valid(),
            old(self)@.completed ==> old(self)@.result is Some,
        ensures
            answer == old(self)@.join_answer(),
            final(self)@ == old(self)@.joined(waker),
            final(self)@.valid(),
            old(self)@.at_rest() ==> final(self)@.at_rest(),
    {
        if self.completed {
            match self.result.take() {
                Some(value) => Poll::Ready(value),
                None => Poll::Pending,
            }
        } else {
            self.waiters.push(waker);
            Poll::Pending
        }
    }
}

/// The right to wait for a task and take its value. `H` is the reference
/// through which the task is reached.
pub struct JoinHandle<H> {
    task: H,
}

impl<H> JoinHandle<H> {
    /// The reference to the task.
    pub closed spec fn target(&self) -> H {
        self.task
    }

    /// A handle on the task reached through `task`.
    pub fn new(task: H) -> (handle: Self)
        ensures
            handle.target() == task,
    {
        JoinHandle { task }
    }

    /// The reference to the task.
    pub fn task(&self) -> (task: &H)
        ensures
            *task == self.target(),
    {
        &self.task
    }

    /// Gives up the handle for the reference to the task.
    pub fn into_task(self) -> (task: H)
        ensures
            task == self.target(),
    {
        self.task
    }

    /// One poll of the handle, with the task it refers to at hand: the
    /// task's value if the task has finished, and otherwise a pending answer
    /// after `waker` was left with the task.
    pub fn poll<F, T, W>(&self, task: &mut Task<F, T, W>, waker: W) -> (answer: Poll<T>)
        requires
            old(task)@.valid(),
            old(task)@.completed ==> old(task)@.result is Some,
        ensures
            answer == old(task)@.join_answer(),
            final(task)@ == old(task)@.joined(waker),
            final(task)@.valid(),
    {
        task.join(waker)
    }
}

/// An ordered collection of join handles that are awaited together.
pub struct JoinSet<H> {
    handles: Vec<JoinHandle<H>>,
}

impl<H> View for JoinSet<H> {
    type V = Seq<JoinHandle<H>>;

    closed spec fn view(&self) -> Seq<JoinHandle<H>> {
        self.handles@
    }
}

impl<H> JoinSet<H> {
    /// A set with no handle in it.
    pub fn new() -> (set: Self)
        ensures
            set@ == Seq::<JoinHandle<H>>::empty(),
    {
        JoinSet { handles: Vec::new() }
    }

    /// Adds `handle` behind the handles already in the set.
    pub fn push(&mut self, handle: JoinHandle<H>)
        ensures
            final(self)@ == old(self)@.push(handle),
    {
        self.handles.push(handle);
    }

    /// Number of handles in the set.
    pub fn len(&self) -> (n: usize)
        ensures
            n == self@.len(),
    {
        self.handles.len()
    }

    /// Empties the set and returns its handles in the order in which they
    /// were added, which is the order in which they are to be awaited.
    pub fn await_all(&mut self) -> (handles: Vec<JoinHandle<H>>)
        ensures
            handles@ == old(self)@,
            final(self)@ == Seq::<JoinHandle<H>>::empty(),
    {
        let mut handles: Vec<JoinHandle<H>> = Vec::new();
        std::mem::swap(&mut self.handles, &mut handles);
        assert(self@ =~= Seq::<JoinHandle<H>>::empty());
        handles
    }
}

impl<H> Default for JoinSet<H> {
    fn default() -> (set: Self)
        ensures
            set@ == Seq::<JoinHandle<H>>::empty(),
    {
        Self::new()
    }
}

/// A joiner gets the value that the task's computation produced, once: when
/// a poll of the computation yields `value`, the task stores it and hands
/// out every waiting joiner's waker; the next poll of a join handle is ready
/// with `value` and empties the slot, so that the value cannot be taken a
/// second time.
pub proof fn lemma_join_yields_the_value_once<F, T, W>(task: TaskState<F, T, W>, value: T, waker: W)
    requires
        task.at_rest(),
        !task.completed,
    ensures
        task.taken().settled(Progress::Ready(value)).at_rest(),
        task.taken().woken(Progress::<F, T>::Ready(value)) == task.waiters,
        task.taken().settled(Progress::Ready(value)).join_answer() == Poll::Ready(value),
        task.taken().settled(Progress::Ready(value)).joined(waker).result is None,
        task.taken().settled(Progress::Ready(value)).joined(waker).join_answer() is Pending,
        task.taken().settled(Progress::Ready(value)).joined(waker).completed,
{
}

/// A joiner that comes before the value leaves its waker with the task and
/// is among the wakers handed out when the value arrives.
pub proof fn lemma_early_joiner_is_woken<F, T, W>(task: TaskState<F, T, W>, value: T, waker: W)
    requires
        task.at_rest(),
        !task.completed,
    ensures
        task.join_answer() is Pending,
        task.joined(waker).at_rest(),
        task.joined(waker).taken().woken(Progress::<F, T>::Ready(value)) == task.waiters.push(
            waker,
        ),
        task.joined(waker).taken().settled(Progress::Ready(value)).join_answer() == Poll::Ready(
            value,
        ),
{
}

/// A poll that leaves the computation pending changes nothing but the
/// computation itself, and wakes nobody.
pub proof fn lemma_pending_poll_keeps_task<F, T, W>(task: TaskState<F, T, W>, future: F)
    requires
        task.at_rest(),
        !task.completed,
    ensures
        task.taken().settled(Progress::<F, T>::Pending(future)) == (TaskState {
            future: Some(future),
            ..task
        }),
        task.taken().woken(Progress::<F, T>::Pending(future)) == Seq::<W>::empty(),
        task.taken().settled(Progress::<F, T>::Pending(future)).at_rest(),
{
}

} // verus!
