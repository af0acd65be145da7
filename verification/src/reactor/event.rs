//! One kernel event: an identity (a file descriptor or a timer id), the
//! direction of interest, and what is asked of the notifier.

use vstd::prelude::*;

verus! {

/// Largest number of events harvested from the notifier in one batch.
pub const EVENT_CAPACITY: usize = 64;

/// The direction an event speaks of.
#[derive(Clone, Copy, Debug, PartialEq, Eq, Structural)]
pub enum Filter {
    /// The descriptor can be read without blocking.
    Read,
    /// The descriptor can be written without blocking.
    Write,
    /// A one-shot timer expired.
    Timer,
    /// The program itself asked the notifier to wake up.
    User,
    /// Anything the reactor has no interest in.
    Other,
}

/// What a submitted event asks of the notifier.
#[derive(Clone, Copy, Debug, PartialEq, Eq, Structural)]
pub enum Change {
    /// Add the entry, or refresh it if it is already present, and enable it.
    Add,
    /// Remove the entry; silent if it is absent.
    Delete,
}

/// A single event, either submitted to the notifier or harvested from it.
#[derive(Clone, Copy, Debug, PartialEq, Eq, Structural)]
pub struct Event {
    /// File descriptor or timer id.
    pub ident: usize,
    /// Direction of interest.
    pub filter: Filter,
    /// Requested change; harvested events carry `Change::Add`.
    pub change: Change,
    /// Delay in milliseconds for timers, zero otherwise.
    pub data: isize,
}

/// Seconds and nanoseconds of a timeout given in milliseconds.
pub open spec fn spec_timespec(timeout_ms: u64) -> (i64, i64) {
    ((timeout_ms / 1000) as i64, ((timeout_ms % 1000) * 1_000_000) as i64)
}

/// The number of whole milliseconds that cover `nanos` nanoseconds: a
/// started millisecond counts in full.
pub open spec fn spec_millis_up(nanos: u128) -> int {
    if nanos % 1_000_000 == 0 {
        nanos as int / 1_000_000
    } else {
        nanos as int / 1_000_000 + 1
    }
}

/// The millisecond delay armed for a timer that should run for `nanos`
/// nanoseconds: the time asked for, rounded up to whole milliseconds so
/// that the timer never fires early, and never above `isize::MAX`.
pub open spec fn spec_timer_millis(nanos: u128) -> isize {
    if spec_millis_up(nanos) > isize::MAX {
        isize::MAX
    } else {
        spec_millis_up(nanos) as isize
    }
}

/// Reads libc's constant `O_NONBLOCK`, the status flag of a descriptor in
/// non-blocking mode. Its value belongs to the platform, so nothing is
/// claimed about it.
#[verifier::external_body]
fn flag_nonblocking() -> (flag: i32) {
    libc::O_NONBLOCK
}

/// The status flags `flags` with the flag `nonblocking` switched on.
pub open spec fn spec_with_flag(flags: i32, nonblocking: i32) -> i32 {
    flags | nonblocking
}

impl Event {
    /// The event that adds and enables interest in `filter` on `ident`, with
    /// the delay `timer_ms` if there is one and zero otherwise.
    pub open spec fn arming(ident: usize, filter: Filter, timer_ms: Option<isize>) -> Event {
        Event {
            ident,
            filter,
            change: Change::Add,
            data: match timer_ms {
                Some(ms) => ms,
                None => 0,
            },
        }
    }

    /// The event that removes interest in `filter` on `ident`.
    pub open spec fn disarming(ident: usize, filter: Filter) -> Event {
        Event { ident, filter, change: Change::Delete, data: 0 }
    }

    /// An event that adds and enables interest in `filter` on `ident`. A timer
    /// carries its delay in `timer_ms`; a missing delay counts as zero.
    pub fn new(ident: usize, filter: Filter, timer_ms: Option<isize>) -> (event: Event)
        ensures
            event == Event::arming(ident, filter, timer_ms),
    {
        let data: isize = match timer_ms {
            Some(ms) => ms,
            None => 0,
        };
        Event { ident, filter, change: Change::Add, data }
    }

    /// The identity the event speaks of.
    pub fn get_ident(&self) -> (ident: usize)
        ensures
            ident == self.ident,
    {
        self.ident
    }

    /// The direction the event speaks of.
    pub fn get_filter(&self) -> (filter: Filter)
        ensures
            filter == self.filter,
    {
        self.filter
    }

    /// The change that removes interest in `filter` on `ident`.
    pub fn unregister(ident: usize, filter: Filter) -> (event: Event)
        ensures
            event == Event::disarming(ident, filter),
    {
        let mut event = Event::new(ident, filter, None);
        event.change = Change::Delete;
        event
    }

    /// The status flags to set on a descriptor whose flags are `flags` to
    /// put it into non-blocking mode, where `nonblocking` is the flag for
    /// that mode: the flags as they are, with that one added.
    pub fn nonblocking_flags(flags: i32, nonblocking: i32) -> (set: i32)
        ensures
            set == spec_with_flag(flags, nonblocking),
    {
        flags | nonblocking
    }

    /// The status flags to set on a descriptor whose flags are `flags` to
    /// put it into non-blocking mode on this platform: for some flag of the
    /// platform, the flags as they are with that one added.
    pub fn set_nonblocking(flags: i32) -> (set: i32)
        ensures
            exists|nonblocking: i32| set == spec_with_flag(flags, nonblocking),
    {
        let nonblocking = flag_nonblocking();
        let set = Event::nonblocking_flags(flags, nonblocking);
        assert(set == spec_with_flag(flags, nonblocking));
        set
    }

    /// Splits a timeout in milliseconds into whole seconds and the remaining
    /// nanoseconds, as a timed wait on the notifier expects them.
    pub fn wait_with_timeout(timeout_ms: u64) -> (ts: (i64, i64))
        ensures
            ts == spec_timespec(timeout_ms),
            0 <= ts.0 <= i64::MAX,
            0 <= ts.1 < 1_000_000_000,
            ts.0 * 1000 + ts.1 / 1_000_000 == timeout_ms,
    {
        let secs: u64 = timeout_ms / 1000;
        let rest: u64 = (timeout_ms % 1000) * 1_000_000;
        (secs as i64, rest as i64)
    }

    /// The delay, in milliseconds, of a one-shot timer that should run for
    /// `nanos` nanoseconds: rounded up to whole milliseconds, so that the
    /// timer runs at least as long as asked, and clamped to the largest delay
    /// the notifier takes.
    pub fn timer_millis(nanos: u128) -> (ms: isize)
        ensures
            ms == spec_timer_millis(nanos),
            0 <= ms,
            nanos / 1_000_000 < isize::MAX ==> nanos <= ms * 1_000_000 < nanos + 1_000_000,
            nanos % 1_000_000 == 0 && nanos / 1_000_000 <= isize::MAX ==> ms * 1_000_000 == nanos,
    {
        let whole: u128 = nanos / 1_000_000;
        let millis: u128 = if nanos % 1_000_000 == 0 {
            whole
        } else {
            whole + 1
        };
        if millis > isize::MAX as u128 {
            isize::MAX
        } else {
            millis as isize
        }
    }
}

} // verus!
