//! FIFO queue of runnable tasks.
//!
//! Tasks join the queue at the back when they are spawned or woken and leave
//! it at the front when the executor takes them for their next poll.

use std::collections::VecDeque;
use vstd::prelude::*;

verus! {

/// A first-in, first-out queue of tasks of type `R`. Its view is the sequence
/// of queued tasks, the one to be polled next at index 0.
pub struct TaskQueue<R> {
    queue: VecDeque<R>,
}

impl<R> View for TaskQueue<R> {
    type V = Seq<R>;

    closed spec fn view(&self) -> Seq<R> {
        self.queue@
    }
}

impl<R> TaskQueue<R> {
    /// A queue with no task in it.
    pub fn new() -> (queue: Self)
        ensures
            queue@ == Seq::<R>::empty(),
    {
        TaskQueue { queue: VecDeque::new() }
    }

    /// Puts `task` at the back of the queue.
    pub fn push(&mut self, task: R)
        ensures
            final(self)@ == old(self)@.push(task),
    {
        self.queue.push_back(task);
    }

    /// Takes the task at the front of the queue, if there is one.
    pub fn pop(&mut self) -> (task: Option<R>)
        ensures
            old(self)@.len() == 0 ==> task is None && final(self)@ == old(self)@,
            old(self)@.len() > 0 ==> task == Some(old(self)@.first()) && final(self)@ == old(self)@.drop_first(),
    {
        let task = self.queue.pop_front();
        proof {
            if old(self)@.len() > 0 {
                assert(self.queue@ =~= old(self)@.drop_first());
            }
        }
        task
    }

    /// Whether no task is queued.
    pub fn is_empty(&self) -> (empty: bool)
        ensures
            empty == (self@.len() == 0),
    {
        self.queue.len() == 0
    }

    /// Number of queued tasks.
    pub fn len(&self) -> (n: usize)
        ensures
            n == self@.len(),
    {
        self.queue.len()
    }
}

/// The queue that is left of `queue` after `pops` tasks were taken from its
/// front.
pub open spec fn spec_after_pops<R>(queue: Seq<R>, pops: nat) -> Seq<R>
    decreases pops,
{
    if pops == 0 {
        queue
    } else {
        spec_after_pops(queue.drop_first(), (pops - 1) as nat)
    }
}

/// A task that joins a queue which is not empty changes neither the task
/// that is taken next nor the order of what is left: taking first and
/// joining afterwards gives the same queue.
pub proof fn lemma_push_behind_pop<R>(queue: Seq<R>, task: R)
    requires
        queue.len() > 0,
    ensures
        queue.push(task).first() == queue.first(),
        queue.push(task).drop_first() == queue.drop_first().push(task),
{
    assert(queue.push(task).drop_first() =~= queue.drop_first().push(task));
}

/// Taking `pops` tasks from a queue that holds at least that many leaves
/// what stands behind them.
pub proof fn lemma_after_pops<R>(queue: Seq<R>, pops: nat)
    requires
        pops <= queue.len(),
    ensures
        spec_after_pops(queue, pops) == queue.skip(pops as int),
    decreases pops,
{
    if pops == 0 {
        assert(queue.skip(0) =~= queue);
    } else {
        lemma_after_pops(queue.drop_first(), (pops - 1) as nat);
        assert(queue.drop_first().skip(pops - 1) =~= queue.skip(pops as int));
    }
}

/// Every queued task gets its turn: a task that joins the queue behind the
/// tasks `ahead` is at the front after exactly `ahead.len()` tasks were
/// taken, and is the next to be taken, whatever joined behind it in the
/// meantime.
pub proof fn lemma_queued_task_is_served<R>(ahead: Seq<R>, task: R, behind: Seq<R>)
    ensures
        spec_after_pops(ahead.push(task) + behind, ahead.len()).len() > 0,
        spec_after_pops(ahead.push(task) + behind, ahead.len()).first() == task,
        spec_after_pops(ahead.push(task) + behind, ahead.len()).drop_first() == behind,
{
    let queue = ahead.push(task) + behind;
    lemma_after_pops(queue, ahead.len());
    assert(queue.skip(ahead.len() as int).drop_first() =~= behind);
}

} // verus!
