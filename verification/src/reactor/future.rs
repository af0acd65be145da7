//! The protocol that every non-blocking read and write follows.
//!
//! On each poll the system call is attempted first. If it succeeds or fails
//! for good, the future resolves. If it would block, the task's waker is
//! lodged with the reactor and the future stays pending; after the wake the
//! call is tried again.
//!
//! The futures here hold the state of that protocol. The system call itself
//! is made by the caller, who passes its [`Outcome`] in.

use crate::error::IoError;
use crate::poll::Poll;
use crate::reactor::dispatch::{Reactor, ReactorState};
use crate::reactor::event::{Event, Filter};
use crate::reactor::syscall::Outcome;
use vstd::prelude::*;

verus! {

/// What one poll of an I/O future decided: the answer of the poll, and the
/// event to submit to the notifier if a waker was lodged.
pub struct Polled<T> {
    /// The answer of the poll.
    pub poll: Poll<Result<T, IoError>>,
    /// The event that arms the notifier, if the reactor took a waker.
    pub arm: Option<Event>,
}

/// Whether a future that would block lodges its waker: always the first
/// time, and later only if the waker it lodged before is gone.
pub open spec fn spec_lodges(registered: bool, lodged: bool) -> bool {
    !registered || !lodged
}

/// A read of a descriptor in progress.
pub struct ReadFuture {
    file_descriptor: i32,
    registered: bool,
}

/// A write to a descriptor in progress.
pub struct WriteFuture {
    file_descriptor: i32,
    registered: bool,
}

impl ReadFuture {
    /// The descriptor that is read.
    pub closed spec fn fd(&self) -> i32 {
        self.file_descriptor
    }

    /// Whether this future has lodged a waker with the reactor before.
    pub closed spec fn registered(&self) -> bool {
        self.registered
    }

    /// A read of `file_descriptor` that has not been polled yet.
    pub fn new(file_descriptor: i32) -> (future: Self)
        ensures
            future.fd() == file_descriptor,
            !future.registered(),
    {
        ReadFuture { file_descriptor, registered: false }
    }

    /// The descriptor that is read.
    pub fn file_descriptor(&self) -> (fd: i32)
        ensures
            fd == self.fd(),
    {
        self.file_descriptor
    }

    /// One poll, given the outcome of the `read` call just made.
    ///
    /// A finished call resolves with the number of bytes read; zero bytes
    /// mean end of stream and are no error. A failed call resolves with the
    /// error number. A call that would block leaves the future pending; if
    /// this is its first such poll, or the waker it lodged before is gone,
    /// `waker` is lodged for read readiness and the arming event returned.
    pub fn poll<W>(&mut self, outcome: Outcome, reactor: &mut Reactor<W>, waker: W) -> (polled:
        Polled<usize>)
        ensures
            final(self).fd() == old(self).fd(),
            match outcome {
                Outcome::Done(n) => {
                    &&& polled.poll == Poll::Ready(Ok::<usize, IoError>(n))
                    &&& polled.arm is None
                    &&& final(self).registered() == old(self).registered()
                    &&& final(reactor)@ == old(reactor)@
                },
                Outcome::Failed(errno) => {
                    &&& polled.poll == Poll::Ready(Err::<usize, IoError>(IoError::Os(errno)))
                    &&& polled.arm is None
                    &&& final(self).registered() == old(self).registered()
                    &&& final(reactor)@ == old(reactor)@
                },
                Outcome::WouldBlock => {
                    &&& polled.poll is Pending
                    &&& final(self).registered()
                    &&& if spec_lodges(
                        old(self).registered(),
                        old(reactor)@.readers.contains_key(old(self).fd()),
                    ) {
                        &&& final(reactor)@ == old(reactor)@.with_reader(old(self).fd(), waker)
                        &&& polled.arm == Some(
                            Event::arming(old(self).fd() as usize, Filter::Read, None),
                        )
                    } else {
                        &&& final(reactor)@ == old(reactor)@
                        &&& polled.arm is None
                    }
                },
            },
    {
        match outcome {
            Outcome::Done(n) => Polled { poll: Poll::Ready(Ok(n)), arm: None },
            Outcome::Failed(errno) => Polled { poll: Poll::Ready(Err(IoError::Os(errno))), arm: None },
            Outcome::WouldBlock => {
                if !self.registered || !reactor.has_reader(self.file_descriptor) {
                    let arm = reactor.register_read(self.file_descriptor, waker);
                    self.registered = true;
                    Polled { poll: Poll::Pending, arm: Some(arm) }
                } else {
                    Polled { poll: Poll::Pending, arm: None }
                }
            },
        }
    }
}

impl WriteFuture {
    /// The descriptor that is written to.
    pub closed spec fn fd(&self) -> i32 {
        self.file_descriptor
    }

    /// Whether this future has lodged a waker with the reactor before.
    pub closed spec fn registered(&self) -> bool {
        self.registered
    }

    /// A write to `file_descriptor` that has not been polled yet.
    pub fn new(file_descriptor: i32) -> (future: Self)
        ensures
            future.fd() == file_descriptor,
            !future.registered(),
    {
        WriteFuture { file_descriptor, registered: false }
    }

    /// The descriptor that is written to.
    pub fn file_descriptor(&self) -> (fd: i32)
        ensures
            fd == self.fd(),
    {
        self.file_descriptor
    }

    /// One poll, given the outcome of the `write` call just made.
    ///
    /// A finished call resolves with the number of bytes written, which may
    /// be zero. A failed call resolves with the error number. A call that
    /// would block leaves the future pending; if this is its first such poll,
    /// or the waker it lodged before is gone, `waker` is lodged for write
    /// readiness and the arming event returned.
    pub fn poll<W>(&mut self, outcome: Outcome, reactor: &mut Reactor<W>, waker: W) -> (polled:
        Polled<usize>)
        ensures
            final(self).fd() == old(self).fd(),
            match outcome {
                Outcome::Done(n) => {
                    &&& polled.poll == Poll::Ready(Ok::<usize, IoError>(n))
                    &&& polled.arm is None
                    &&& final(self).registered() == old(self).registered()
                    &&& final(reactor)@ == old(reactor)@
                },
                Outcome::Failed(errno) => {
                    &&& polled.poll == Poll::Ready(Err::<usize, IoError>(IoError::Os(errno)))
                    &&& polled.arm is None
                    &&& final(self).registered() == old(self).registered()
                    &&& final(reactor)@ == old(reactor)@
                },
                Outcome::WouldBlock => {
                    &&& polled.poll is Pending
                    &&& final(self).registered()
                    &&& if spec_lodges(
                        old(self).registered(),
                        old(reactor)@.writers.contains_key(old(self).fd()),
                    ) {
                        &&& final(reactor)@ == old(reactor)@.with_writer(old(self).fd(), waker)
                        &&& polled.arm == Some(
                            Event::arming(old(self).fd() as usize, Filter::Write, None),
                        )
                    } else {
                        &&& final(reactor)@ == old(reactor)@
                        &&& polled.arm is None
                    }
                },
            },
    {
        match outcome {
            Outcome::Done(n) => Polled { poll: Poll::Ready(Ok(n)), arm: None },
            Outcome::Failed(errno) => Polled { poll: Poll::Ready(Err(IoError::Os(errno))), arm: None },
            Outcome::WouldBlock => {
                if !self.registered || !reactor.has_writer(self.file_descriptor) {
                    let arm = reactor.register_write(self.file_descriptor, waker);
                    self.registered = true;
                    Polled { poll: Poll::Pending, arm: Some(arm) }
                } else {
                    Polled { poll: Poll::Pending, arm: None }
                }
            },
        }
    }
}

/// The answer of one poll of a [`WriteAll`].
#[derive(Clone, Copy, Debug, PartialEq, Eq)]
pub enum WriteAllStep {
    /// The operation is over: every byte was written, or it failed.
    Ready(Result<(), IoError>),
    /// Some bytes were written and more remain: write the rest at once.
    Again,
    /// The write would block; the operation waits for its waker.
    Pending,
}

/// What one poll of a [`WriteAll`] decided.
pub struct WriteAllPolled {
    /// The answer of the poll.
    pub step: WriteAllStep,
    /// The event that arms the notifier, if the reactor took a waker.
    pub arm: Option<Event>,
}

/// Writing a whole buffer to a descriptor, one write after another.
///
/// Each write covers the part of the buffer not written so far. The
/// operation succeeds once the buffer is used up, fails with `WriteZero` if a
/// write of a non-empty rest writes nothing, and passes on any other error.
pub struct WriteAll {
    total: usize,
    written: usize,
    current: WriteFuture,
}

/// The number of bytes counted as written after a poll that saw `outcome`
/// with `written` of `total` bytes written before.
pub open spec fn spec_written(total: usize, written: usize, outcome: Outcome) -> int {
    match outcome {
        Outcome::Done(n) => if written < total {
            written + n
        } else {
            written as int
        },
        _ => written as int,
    }
}

/// The answer of a poll that saw `outcome` with `written` of `total` bytes
/// written before.
pub open spec fn spec_write_all_step(total: usize, written: usize, outcome: Outcome) -> WriteAllStep {
    if written >= total {
        WriteAllStep::Ready(Ok(()))
    } else {
        match outcome {
            Outcome::Done(n) => if n == 0 {
                WriteAllStep::Ready(Err(IoError::WriteZero))
            } else if written + n == total {
                WriteAllStep::Ready(Ok(()))
            } else {
                WriteAllStep::Again
            },
            Outcome::Failed(errno) => WriteAllStep::Ready(Err(IoError::Os(errno))),
            Outcome::WouldBlock => WriteAllStep::Pending,
        }
    }
}

impl WriteAll {
    /// Length of the buffer.
    pub closed spec fn total(&self) -> usize {
        self.total
    }

    /// Number of bytes written so far.
    pub closed spec fn written(&self) -> usize {
        self.written
    }

    /// The write that is under way.
    pub closed spec fn current(&self) -> WriteFuture {
        self.current
    }

    /// No more bytes are counted as written than the buffer holds.
    pub closed spec fn valid(&self) -> bool {
        self.written <= self.total
    }

    /// Writing `len` bytes to `file_descriptor`, with nothing written yet.
    pub fn new(file_descriptor: i32, len: usize) -> (op: Self)
        ensures
            op.valid(),
            op.total() == len,
            op.written() == 0,
            op.current().fd() == file_descriptor,
            !op.current().registered(),
    {
        WriteAll { total: len, written: 0, current: WriteFuture::new(file_descriptor) }
    }

    /// The descriptor that is written to.
    pub fn file_descriptor(&self) -> (fd: i32)
        ensures
            fd == self.current().fd(),
    {
        self.current.file_descriptor()
    }

    /// Where in the buffer the next write starts.
    pub fn offset(&self) -> (offset: usize)
        ensures
            offset == self.written(),
    {
        self.written
    }

    /// How many bytes are still to be written.
    pub fn remaining(&self) -> (rest: usize)
        requires
            self.valid(),
        ensures
            rest == self.total() - self.written(),
    {
        self.total - self.written
    }

    /// One poll, given the outcome of a `write` of the rest of the buffer.
    ///
    /// With nothing left to write the operation succeeds and the outcome is
    /// not looked at. Otherwise the write under way is polled with it: a
    /// write of zero bytes fails the operation with `WriteZero`, a write of
    /// `n` bytes moves the offset on by `n` and either finishes the operation
    /// or asks for the next write, an error is passed on, and a write that
    /// would block waits as every write future does.
    pub fn poll<W>(&mut self, outcome: Outcome, reactor: &mut Reactor<W>, waker: W) -> (polled:
        WriteAllPolled)
        requires
            old(self).valid(),
            outcome matches Outcome::Done(n) ==> n <= old(self).total() - old(self).written(),
        ensures
            final(self).valid(),
            final(self).total() == old(self).total(),
            final(self).current().fd() == old(self).current().fd(),
            final(self).written() == spec_written(
                old(self).total(),
                old(self).written(),
                outcome,
            ),
            polled.step == spec_write_all_step(old(self).total(), old(self).written(), outcome),
            polled.step == WriteAllStep::Ready(Ok(())) ==> final(self).written() == final(self).total(),
            polled.step == WriteAllStep::Again ==> final(self).written() < final(self).total()
                && !final(self).current().registered(),
            if old(self).written() < old(self).total() && outcome == Outcome::WouldBlock {
                &&& final(self).current().registered()
                &&& if spec_lodges(
                    old(self).current().registered(),
                    old(reactor)@.writers.contains_key(old(self).current().fd()),
                ) {
                    &&& final(reactor)@ == old(reactor)@.with_writer(
                        old(self).current().fd(),
                        waker,
                    )
                    &&& polled.arm == Some(
                        Event::arming(old(self).current().fd() as usize, Filter::Write, None),
                    )
                } else {
                    &&& final(reactor)@ == old(reactor)@
                    &&& polled.arm is None
                }
            } else {
                &&& final(reactor)@ == old(reactor)@
                &&& polled.arm is None
            },
    {
        if self.written >= self.total {
            return WriteAllPolled { step: WriteAllStep::Ready(Ok(())), arm: None };
        }
        let fd: i32 = self.current.file_descriptor();
        let polled = self.current.poll(outcome, reactor, waker);
        match polled.poll {
            Poll::Pending => WriteAllPolled { step: WriteAllStep::Pending, arm: polled.arm },
            Poll::Ready(Err(error)) => WriteAllPolled {
                step: WriteAllStep::Ready(Err(error)),
                arm: None,
            },
            Poll::Ready(Ok(n)) => {
                if n == 0 {
                    WriteAllPolled { step: WriteAllStep::Ready(Err(IoError::WriteZero)), arm: None }
                } else {
                    self.written = self.written + n;
                    self.current = WriteFuture::new(fd);
                    if self.written == self.total {
                        WriteAllPolled { step: WriteAllStep::Ready(Ok(())), arm: None }
                    } else {
                        WriteAllPolled { step: WriteAllStep::Again, arm: None }
                    }
                }
            },
        }
    }
}

/// Writing a whole buffer never succeeds in part: a poll answers with
/// success exactly when, counting the bytes of the write it was given, every
/// byte of the buffer is written. With bytes still missing the answer is a
/// failure, a request for the next write, or pending.
pub proof fn lemma_write_all_never_partial(total: usize, written: usize, outcome: Outcome)
    requires
        written <= total,
        outcome matches Outcome::Done(n) ==> n <= total - written,
    ensures
        spec_write_all_step(total, written, outcome) == WriteAllStep::Ready(Ok(())) <==> spec_written(
            total,
            written,
            outcome,
        ) == total,
        written <= spec_written(total, written, outcome) <= total,
{
}

} // verus!
