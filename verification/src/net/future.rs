//! Futures for TCP sockets: accepting a connection, reading and writing.

use crate::error::IoError;
use crate::net::utils::SocketAddrV4;
use crate::poll::Poll;
use crate::reactor::dispatch::{Reactor, ReactorState};
use crate::reactor::event::{Event, Filter};
use crate::reactor::future::{spec_lodges, Polled};
use crate::reactor::syscall::Outcome;
use vstd::prelude::*;

pub use crate::reactor::future::{ReadFuture, WriteFuture};

verus! {

/// Waiting for a connection on a listening socket.
pub struct AcceptFuture {
    listen_fd: i32,
    registered: bool,
}

impl AcceptFuture {
    /// The listening descriptor.
    pub closed spec fn fd(&self) -> i32 {
        self.listen_fd
    }

    /// Whether this future has lodged a waker with the reactor before.
    pub closed spec fn registered(&self) -> bool {
        self.registered
    }

    /// An accept on `listen_fd` that has not been polled yet.
    pub fn new(listen_fd: i32) -> (future: Self)
        ensures
            future.fd() == listen_fd,
            !future.registered(),
    {
        AcceptFuture { listen_fd, registered: false }
    }

    /// The listening descriptor.
    pub fn listen_fd(&self) -> (fd: i32)
        ensures
            fd == self.fd(),
    {
        self.listen_fd
    }

    /// One poll, given the outcome of the `accept` call just made and the
    /// peer address it filled in.
    ///
    /// A finished call resolves with the client's descriptor and `peer`; the
    /// caller switches the descriptor to non-blocking mode before it hands it
    /// on. A failed call resolves with the error number. A call that would
    /// block leaves the future pending; if this is its first such poll, or the
    /// waker it lodged before is gone, `waker` is lodged for read readiness
    /// of the listening descriptor and the arming event returned.
    pub fn poll<W>(
        &mut self,
        outcome: Outcome,
        peer: SocketAddrV4,
        reactor: &mut Reactor<W>,
        waker: W,
    ) -> (polled: Polled<(i32, SocketAddrV4)>)
        requires
            outcome matches Outcome::Done(n) ==> n <= i32::MAX,
        ensures
            final(self).fd() == old(self).fd(),
            match outcome {
                Outcome::Done(n) => {
                    &&& polled.poll == Poll::Ready(
                        Ok::<(i32, SocketAddrV4), IoError>((n as i32, peer)),
                    )
                    &&& polled.arm is None
                    &&& final(self).registered() == old(self).registered()
                    &&& final(reactor)@ == old(reactor)@
                },
                Outcome::Failed(errno) => {
                    &&& polled.poll == Poll::Ready(
                        Err::<(i32, SocketAddrV4), IoError>(IoError::Os(errno)),
                    )
                    &&& polled.arm is None
                    &&& final(self).registered() == old(self).registered()
                    &&& final(reactor)@ == old(reactor)@
                },
                Outcome::WouldBlock => {
                    &&& polled.poll is Pending
                    &&& final(self).registered()
                    &&& if spec_lodges(
                        old(self).registered(),
                        old(reactor)@.readers.contains_key(old(self).fd()),
                    ) {
                        &&& final(reactor)@ == old(reactor)@.with_reader(old(self).fd(), waker)
                        &&& polled.arm == Some(
                            Event::arming(old(self).fd() as usize, Filter::Read, None),
                        )
                    } else {
                        &&& final(reactor)@ == old(reactor)@
                        &&& polled.arm is None
                    }
                },
            },
    {
        match outcome {
            Outcome::Done(n) => Polled { poll: Poll::Ready(Ok((n as i32, peer))), arm: None },
            Outcome::Failed(errno) => Polled { poll: Poll::Ready(Err(IoError::Os(errno))), arm: None },
            Outcome::WouldBlock => {
                if !self.registered || !reactor.has_reader(self.listen_fd) {
                    let arm = reactor.register_read(self.listen_fd, waker);
                    self.registered = true;
                    Polled { poll: Poll::Pending, arm: Some(arm) }
                } else {
                    Polled { poll: Poll::Pending, arm: None }
                }
            },
        }
    }
}

} // verus!
