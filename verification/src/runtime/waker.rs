//! Wakers that put a task back on the ready queue.
//!
//! There is no deduplication: a task woken twice is queued twice, and a poll
//! that finds the task's computation slot empty returns at once.

use crate::runtime::queue::TaskQueue;
use vstd::prelude::*;

verus! {

/// A waker bound to one task; `R` is the reference through which the task is
/// reached and under which it is queued.
pub struct TaskWaker<R> {
    task: R,
}

impl<R> TaskWaker<R> {
    /// The task that this waker wakes.
    pub closed spec fn target(&self) -> R {
        self.task
    }

    /// A waker for `task`.
    pub fn new(task: R) -> (waker: Self)
        ensures
            waker.target() == task,
    {
        TaskWaker { task }
    }

    /// The task that this waker wakes.
    pub fn task(&self) -> (task: &R)
        ensures
            *task == self.target(),
    {
        &self.task
    }

    /// Wakes the task: its reference joins the back of `queue`. The waker is
    /// used up.
    pub fn wake(self, queue: &mut TaskQueue<R>)
        ensures
            final(queue)@ == old(queue)@.push(self.target()),
    {
        queue.push(self.task);
    }

    /// Wakes the task and keeps the waker: a clone of the task's reference
    /// joins the back of `queue`.
    pub fn wake_by_ref(&self, queue: &mut TaskQueue<R>) where R: Clone
        ensures
            final(queue)@.len() == old(queue)@.len() + 1,
            final(queue)@.drop_last() == old(queue)@,
            cloned(self.target(), final(queue)@.last()),
    {
        let copy = self.task.clone();
        queue.push(copy);
        assert(queue@.drop_last() =~= old(queue)@);
    }
}

/// A waker that puts `task` back on the ready queue when it fires.
pub fn make_waker<R>(task: R) -> (waker: TaskWaker<R>)
    ensures
        waker.target() == task,
{
    TaskWaker::new(task)
}

} // verus!
