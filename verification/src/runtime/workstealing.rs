//! Queues for several workers that share work.
//!
//! New tasks go to a shared [`Injector`]. Each worker has a [`LocalQueue`]
//! of its own, from whose back it takes work; a worker without work takes
//! from the injector, and then from the front of the other workers' queues.

use std::collections::VecDeque;
use vstd::prelude::*;

verus! {

/// Mathematical state of an injector.
pub struct InjectorState<R> {
    /// The queued tasks, the next to be taken first.
    pub queue: Seq<R>,
    /// Number of tasks that were pushed and have not completed.
    pub active: usize,
    /// Whether the workers were told to stop.
    pub shutdown: bool,
}

/// The shared queue of tasks, with a count of the tasks under way.
pub struct Injector<R> {
    queue: VecDeque<R>,
    active: usize,
    shutdown: bool,
}

impl<R> View for Injector<R> {
    type V = InjectorState<R>;

    closed spec fn view(&self) -> InjectorState<R> {
        InjectorState { queue: self.queue@, active: self.active, shutdown: self.shutdown }
    }
}

impl<R> Injector<R> {
    /// An injector with no task, not shut down.
    pub fn new() -> (injector: Self)
        ensures
            injector@ == (InjectorState::<R> { queue: Seq::empty(), active: 0, shutdown: false }),
    {
        Injector { queue: VecDeque::new(), active: 0, shutdown: false }
    }

    /// Tells the workers to stop.
    pub fn shutdown(&mut self)
        ensures
            final(self)@ == (InjectorState { shutdown: true, ..old(self)@ }),
    {
        self.shutdown = true;
    }

    /// Whether the workers were told to stop.
    pub fn is_shutdown(&self) -> (stopped: bool)
        ensures
            stopped == self@.shutdown,
    {
        self.shutdown
    }

    /// Queues a new task and counts it as under way. The count wraps around
    /// at the top of its range.
    pub fn push(&mut self, task: R)
        ensures
            final(self)@ == (InjectorState {
                queue: old(self)@.queue.push(task),
                active: if old(self)@.active == usize::MAX {
                    0
                } else {
                    (old(self)@.active + 1) as usize
                },
                ..old(self)@
            }),
    {
        self.active = if self.active == usize::MAX {
            0
        } else {
            self.active + 1
        };
        self.queue.push_back(task);
    }

    /// Queues a task that is under way already.
    pub fn reschedule(&mut self, task: R)
        ensures
            final(self)@ == (InjectorState { queue: old(self)@.queue.push(task), ..old(self)@ }),
    {
        self.queue.push_back(task);
    }

    /// Takes the task at the front of the queue, if there is one.
    pub fn pop(&mut self) -> (task: Option<R>)
        ensures
            old(self)@.queue.len() == 0 ==> task is None && final(self)@ == old(self)@,
            old(self)@.queue.len() > 0 ==> task == Some(old(self)@.queue.first()) && final(self)@
                == (InjectorState { queue: old(self)@.queue.drop_first(), ..old(self)@ }),
    {
        let task = self.queue.pop_front();
        proof {
            if old(self)@.queue.len() > 0 {
                assert(self.queue@ =~= old(self)@.queue.drop_first());
            }
        }
        task
    }

    /// Counts one task as completed. The count wraps around at zero.
    pub fn task_completed(&mut self)
        ensures
            final(self)@ == (InjectorState {
                active: if old(self)@.active == 0 {
                    usize::MAX
                } else {
                    (old(self)@.active - 1) as usize
                },
                ..old(self)@
            }),
    {
        self.active = if self.active == 0 {
            usize::MAX
        } else {
            self.active - 1
        };
    }

    /// Whether no task is under way.
    pub fn is_idle(&self) -> (idle: bool)
        ensures
            idle == (self@.active == 0),
    {
        self.active == 0
    }

    /// Whether no task is queued.
    pub fn is_empty(&self) -> (empty: bool)
        ensures
            empty == (self@.queue.len() == 0),
    {
        self.queue.len() == 0
    }
}

/// The queue of one worker. Its view is the sequence of its tasks; the owner
/// works at the back, thieves take from the front.
pub struct LocalQueue<R> {
    deque: VecDeque<R>,
}

impl<R> View for LocalQueue<R> {
    type V = Seq<R>;

    closed spec fn view(&self) -> Seq<R> {
        self.deque@
    }
}

impl<R> LocalQueue<R> {
    /// A queue with no task.
    pub fn new() -> (queue: Self)
        ensures
            queue@ == Seq::<R>::empty(),
    {
        LocalQueue { deque: VecDeque::new() }
    }

    /// Puts `task` at the back of the queue.
    pub fn push(&mut self, task: R)
        ensures
            final(self)@ == old(self)@.push(task),
    {
        self.deque.push_back(task);
    }

    /// Takes the task at the back of the queue, for the owner.
    pub fn pop(&mut self) -> (task: Option<R>)
        ensures
            old(self)@.len() == 0 ==> task is None && final(self)@ == old(self)@,
            old(self)@.len() > 0 ==> task == Some(old(self)@.last()) && final(self)@ == old(
                self,
            )@.drop_last(),
    {
        let task = self.deque.pop_back();
        proof {
            if old(self)@.len() > 0 {
                assert(self.deque@ =~= old(self)@.drop_last());
            }
        }
        task
    }

    /// Takes the task at the front of the queue, for a thief.
    pub fn steal(&mut self) -> (task: Option<R>)
        ensures
            old(self)@.len() == 0 ==> task is None && final(self)@ == old(self)@,
            old(self)@.len() > 0 ==> task == Some(old(self)@.first()) && final(self)@ == old(
                self,
            )@.drop_first(),
    {
        let task = self.deque.pop_front();
        proof {
            if old(self)@.len() > 0 {
                assert(self.deque@ =~= old(self)@.drop_first());
            }
        }
        task
    }
}

/// The queue that the worker `id` of `len` workers looks at in its `round`th
/// attempt to steal: its neighbours in turn, its own queue last.
pub open spec fn spec_victim(id: int, round: int, len: int) -> int {
    (id + round + 1) % len
}

/// Whether the worker `id` took `task` in its `round`th attempt to steal:
/// the queues it looked at before were empty, the queue it looked at then
/// gave up its front task, and no other queue changed.
pub open spec fn spec_stole_at<R>(
    id: int,
    round: int,
    before: Seq<LocalQueue<R>>,
    after: Seq<LocalQueue<R>>,
    task: R,
) -> bool {
    let len = before.len() as int;
    let victim = spec_victim(id, round, len);
    &&& 0 <= round < len
    &&& after.len() == len
    &&& forall|r: int| 0 <= r < round ==> (#[trigger] before[spec_victim(id, r, len)])@.len() == 0
    &&& before[victim]@.len() > 0
    &&& task == before[victim]@.first()
    &&& after[victim]@ == before[victim]@.drop_first()
    &&& forall|n: int| 0 <= n < len && n != victim ==> (#[trigger] after[n])@ == before[n]@
}

/// Whether the queues `after` hold what the queues `before` hold, but for
/// the queue `except`, which is not looked at.
pub open spec fn spec_same_queues<R>(
    before: Seq<LocalQueue<R>>,
    after: Seq<LocalQueue<R>>,
    except: int,
) -> bool {
    &&& after.len() == before.len()
    &&& forall|n: int| 0 <= n < before.len() && n != except ==> (#[trigger] after[n])@ == before[n]@
}

/// Whether every queue of `queues` is empty.
pub open spec fn spec_all_empty<R>(queues: Seq<LocalQueue<R>>) -> bool {
    forall|n: int| 0 <= n < queues.len() ==> (#[trigger] queues[n])@.len() == 0
}

/// What a worker does next.
pub enum Step<R> {
    /// Stop: the workers were told to.
    Stop,
    /// Poll the task given.
    Run(R),
    /// Nothing to do: wait for new work, for `WAIT_MS` milliseconds at most.
    Wait,
}

/// Longest wait of a worker without work, in milliseconds.
pub const WAIT_MS: u64 = 10;

/// What a worker `id` without work of its own comes to when the injector is
/// empty too: it runs the task it stole from the first neighbour that had
/// one, or it waits because every queue was empty and none was changed.
pub open spec fn spec_looked_around<R>(
    id: int,
    before: Seq<LocalQueue<R>>,
    after: Seq<LocalQueue<R>>,
    step: Step<R>,
) -> bool {
    if step is Run {
        exists|round: int| #[trigger] spec_stole_at(id, round, before, after, step->Run_0)
    } else {
        step is Wait && spec_all_empty(before) && spec_same_queues(before, after, -1)
    }
}

/// One of several workers, known by its number.
#[derive(Clone, Copy, Debug, PartialEq, Eq, Structural)]
pub struct Worker {
    /// The number of the worker, which is the index of its local queue.
    pub id: usize,
}

impl Worker {
    /// Looks for a task in the local queues, starting at the worker's right
    /// neighbour and going round: the first queue that is not empty gives
    /// up its front task, and the queues before it are found empty.
    pub fn try_steal<R>(&self, locals: &mut Vec<LocalQueue<R>>) -> (task: Option<R>)
        requires
            old(locals)@.len() > 0 ==> self.id < old(locals)@.len(),
        ensures
            final(locals)@.len() == old(locals)@.len(),
            task is None ==> {
                &&& forall|n: int| 0 <= n < old(locals)@.len() ==> old(locals)@[n]@.len() == 0
                &&& forall|n: int|
                    0 <= n < old(locals)@.len() ==> final(locals)@[n]@ == old(locals)@[n]@
            },
            task matches Some(stolen) ==> exists|round: int| #[trigger]
                spec_stole_at(self.id as int, round, old(locals)@, final(locals)@, stolen),
    {
        let len: usize = locals.len();
        let mut round: usize = 0;
        while round < len
            invariant
                round <= len,
                len == locals@.len(),
                len == old(locals)@.len(),
                len > 0 ==> self.id < len,
                forall|n: int| 0 <= n < len ==> locals@[n]@ == old(locals)@[n]@,
                forall|r: int|
                    0 <= r < round ==> (#[trigger] old(locals)@[spec_victim(
                        self.id as int,
                        r,
                        len as int,
                    )])@.len() == 0,
            decreases len - round,
        {
            let victim: usize = ((self.id as u128 + round as u128 + 1) % (len as u128)) as usize;
            assert(victim == spec_victim(self.id as int, round as int, len as int));
            let task = locals[victim].steal();
            match task {
                Some(task) => {
                    assert(old(locals)@[victim as int]@.len() > 0);
                    assert(spec_stole_at(
                        self.id as int,
                        round as int,
                        old(locals)@,
                        locals@,
                        task,
                    ));
                    return Some(task);
                },
                None => {},
            }
            round += 1;
        }
        proof {
            assert forall|n: int| 0 <= n < len implies old(locals)@[n]@.len() == 0 by {
                let r = (n - self.id - 1 + len) % (len as int);
                assert(0 <= r < len);
                assert(spec_victim(self.id as int, r, len as int) == n) by (nonlinear_arith)
                    requires
                        0 <= n < len,
                        0 <= self.id < len,
                        r == (n - self.id - 1 + len) % (len as int),
                ;
            }
        }
        None
    }

    /// One turn of the worker's loop: stop if told to; else take work from
    /// the back of the own queue, else from the injector, else from another
    /// worker; else wait.
    pub fn run<R>(&self, locals: &mut Vec<LocalQueue<R>>, injector: &mut Injector<R>) -> (step:
        Step<R>)
        requires
            self.id < old(locals)@.len(),
        ensures
            final(locals)@.len() == old(locals)@.len(),
            step is Stop <==> old(injector)@.shutdown,
            old(injector)@.shutdown ==> {
                &&& final(injector)@ == old(injector)@
                &&& final(locals)@ == old(locals)@
            },
            !old(injector)@.shutdown && old(locals)@[self.id as int]@.len() > 0 ==> {
                &&& step == Step::Run(old(locals)@[self.id as int]@.last())
                &&& final(injector)@ == old(injector)@
                &&& final(locals)@[self.id as int]@ == old(locals)@[self.id as int]@.drop_last()
                &&& spec_same_queues(old(locals)@, final(locals)@, self.id as int)
            },
            !old(injector)@.shutdown && old(locals)@[self.id as int]@.len() == 0 && old(injector)@.queue.len() > 0 ==> {
                &&& step == Step::Run(old(injector)@.queue.first())
                &&& final(injector)@ == (InjectorState {
                    queue: old(injector)@.queue.drop_first(),
                    ..old(injector)@
                })
                &&& spec_same_queues(old(locals)@, final(locals)@, -1)
            },
            !old(injector)@.shutdown && old(locals)@[self.id as int]@.len() == 0 && old(injector)@.queue.len() == 0 ==> {
                &&& final(injector)@ == old(injector)@
                &&& spec_looked_around(self.id as int, old(locals)@, final(locals)@, step)
            },
    {
        if injector.is_shutdown() {
            return Step::Stop;
        }
        let own = locals[self.id].pop();
        match own {
            Some(task) => {
                assert(spec_same_queues(old(locals)@, locals@, self.id as int));
                return Step::Run(task);
            },
            None => {},
        }
        assert(spec_same_queues(old(locals)@, locals@, -1)) by {
            assert forall|n: int| 0 <= n < old(locals)@.len() implies (#[trigger] locals@[n])@
                == old(locals)@[n]@ by {
                if n != self.id {
                    assert(locals@[n] == old(locals)@[n]);
                }
            }
        }
        match injector.pop() {
            Some(task) => {
                return Step::Run(task);
            },
            None => {},
        }
        let ghost searched = locals@;
        match self.try_steal(locals) {
            Some(task) => {
                proof {
                    let round = choose|round: int| #[trigger]
                        spec_stole_at(self.id as int, round, searched, locals@, task);
                    let len = searched.len() as int;
                    let victim = spec_victim(self.id as int, round, len);
                    assert(0 <= victim < len);
                    assert forall|r: int| 0 <= r < round implies (#[trigger] old(locals)@[spec_victim(self.id as int, r, len)])@.len() == 0 by {
                        let at = spec_victim(self.id as int, r, len);
                        assert(0 <= at < len);
                        assert(searched[at]@.len() == 0);
                        assert(searched[at]@ == old(locals)@[at]@);
                    }
                    assert(searched[victim]@ == old(locals)@[victim]@);
                    assert forall|n: int| 0 <= n < len && n != victim implies (
                    #[trigger] locals@[n])@ == old(locals)@[n]@ by {
                        assert(locals@[n]@ == searched[n]@);
                        assert(searched[n]@ == old(locals)@[n]@);
                    }
                    assert(spec_stole_at(self.id as int, round, old(locals)@, locals@, task));
                    assert(Step::Run(task)->Run_0 == task);
                    assert(spec_stole_at(
                        self.id as int,
                        round,
                        old(locals)@,
                        locals@,
                        Step::Run(task)->Run_0,
                    ));
                    assert(spec_looked_around(
                        self.id as int,
                        old(locals)@,
                        locals@,
                        Step::Run(task),
                    ));
                }
                Step::Run(task)
            },
            None => {
                proof {
                    assert forall|n: int| 0 <= n < old(locals)@.len() implies (#[trigger] old(locals)@[n])@.len() == 0 by {
                        assert(searched[n]@.len() == 0);
                        assert(searched[n]@ == old(locals)@[n]@);
                    }
                    assert(spec_all_empty(old(locals)@));
                    assert forall|n: int| 0 <= n < old(locals)@.len() implies (
                    #[trigger] locals@[n])@ == old(locals)@[n]@ by {
                        assert(locals@[n]@ == searched[n]@);
                        assert(searched[n]@ == old(locals)@[n]@);
                    }
                    assert(spec_same_queues(old(locals)@, locals@, -1));
                    assert(spec_looked_around(
                        self.id as int,
                        old(locals)@,
                        locals@,
                        Step::<R>::Wait,
                    ));
                }
                Step::Wait
            },
        }
    }
}

} // verus!
