//! Reading the outcome of a non-blocking system call.
//!
//! A call that returns a negative value failed, and the error number tells
//! why. Two error numbers mean "nothing to do right now, try again when the
//! descriptor is ready"; which numbers they are depends on the platform.

use vstd::prelude::*;

verus! {

/// The two error numbers that report a call that would block.
#[derive(Clone, Copy, Debug, PartialEq, Eq, Structural)]
pub struct RetryCodes {
    /// "Resource temporarily unavailable".
    pub again: i32,
    /// "Operation would block".
    pub would_block: i32,
}

/// What a non-blocking system call amounted to.
#[derive(Clone, Copy, Debug, PartialEq, Eq, Structural)]
pub enum Outcome {
    /// The call succeeded and returned this value.
    Done(usize),
    /// The call could not proceed without blocking.
    WouldBlock,
    /// The call failed with this error number.
    Failed(i32),
}

/// The outcome of a call that returned `ret` and left the error number
/// `errno`, on a platform whose retry codes are `codes`. The error number
/// counts only when the call returned a negative value.
pub open spec fn spec_outcome(ret: isize, errno: i32, codes: RetryCodes) -> Outcome {
    if ret >= 0 {
        Outcome::Done(ret as usize)
    } else if errno == codes.again || errno == codes.would_block {
        Outcome::WouldBlock
    } else {
        Outcome::Failed(errno)
    }
}

/// Reads libc's constant `EAGAIN`. Its value differs between platforms, so
/// nothing is claimed about it.
#[verifier::external_body]
fn errno_again() -> (code: i32) {
    libc::EAGAIN
}

/// Reads libc's constant `EWOULDBLOCK`. Its value differs between platforms,
/// so nothing is claimed about it.
#[verifier::external_body]
fn errno_would_block() -> (code: i32) {
    libc::EWOULDBLOCK
}

impl RetryCodes {
    /// The retry codes of the platform this program runs on.
    pub fn platform() -> (codes: RetryCodes) {
        RetryCodes { again: errno_again(), would_block: errno_would_block() }
    }

    /// Whether `errno` reports a call that would block. Both codes count
    /// alike.
    pub fn matches(&self, errno: i32) -> (retry: bool)
        ensures
            retry == (errno == self.again || errno == self.would_block),
    {
        errno == self.again || errno == self.would_block
    }
}

impl Outcome {
    /// Classifies a call that returned `ret` and left the error number
    /// `errno`, given the platform's retry codes.
    pub fn classify(ret: isize, errno: i32, codes: RetryCodes) -> (outcome: Outcome)
        ensures
            outcome == spec_outcome(ret, errno, codes),
    {
        if ret >= 0 {
            Outcome::Done(ret as usize)
        } else if codes.matches(errno) {
            Outcome::WouldBlock
        } else {
            Outcome::Failed(errno)
        }
    }

    /// Classifies a call that returned `ret` and left the error number
    /// `errno`, with the retry codes of this platform. A call that did not
    /// fail is `Done` whatever the codes are; a failed call is either
    /// `WouldBlock` or `Failed` with its error number.
    pub fn of_call(ret: isize, errno: i32) -> (outcome: Outcome)
        ensures
            ret >= 0 ==> outcome == Outcome::Done(ret as usize),
            ret < 0 ==> outcome == Outcome::WouldBlock || outcome == Outcome::Failed(errno),
            exists|codes: RetryCodes| outcome == spec_outcome(ret, errno, codes),
    {
        let codes = RetryCodes::platform();
        Outcome::classify(ret, errno, codes)
    }
}

} // verus!
