//! The poller on a kernel event queue.
//!
//! The poller works out the changes to submit to the queue and turns what
//! the queue reports into readiness events, one per token. Submitting and
//! waiting are done by the caller.

use crate::error::IoError;
use crate::reactor::event::{Change, Filter};
use crate::reactor::poller::common::{Event, Interest};
use vstd::prelude::*;

verus! {

/// Identity of the entry through which the poller is woken on request.
pub const WAKE_IDENT: usize = 1;

/// Number of reports taken from the queue in one wait.
pub const POLL_CAPACITY: usize = 64;

/// What a submission asks of the queue.
#[derive(Clone, Copy, Debug, PartialEq, Eq, Structural)]
pub enum Request {
    /// Add the entry and enable it.
    Add,
    /// Add the entry, enable it, and reset it each time it is reported.
    AddClear,
    /// Remove the entry.
    Delete,
    /// Fire the entry.
    Trigger,
}

/// One change submitted to the queue.
#[derive(Clone, Copy, Debug, PartialEq, Eq, Structural)]
pub struct Submission {
    /// File descriptor, or the identity of the wake entry.
    pub ident: usize,
    /// Direction of interest.
    pub filter: Filter,
    /// What is asked.
    pub request: Request,
    /// The token attached to the entry.
    pub token: usize,
}

/// One report of the queue: the direction, and the token of the entry.
#[derive(Clone, Copy, Debug, PartialEq, Eq, Structural)]
pub struct Report {
    /// Direction that became ready.
    pub filter: Filter,
    /// The token attached to the entry.
    pub token: usize,
}

/// The position of the first event with the token `token`, or the length of
/// `events` if there is none.
pub open spec fn spec_position(events: Seq<Event>, token: usize) -> int
    decreases events.len(),
{
    if events.len() == 0 {
        0
    } else if events[0].token == token {
        0
    } else {
        1 + spec_position(events.drop_first(), token)
    }
}

/// The events after one report was taken in. A wake-up of the poller itself
/// leaves them as they are. Any other report sets the flags of the event
/// with its token, which is added at the end if it is not there yet.
pub open spec fn spec_merge(events: Seq<Event>, report: Report) -> Seq<Event> {
    let at = spec_position(events, report.token);
    if report.filter == Filter::User {
        events
    } else if 0 <= at < events.len() {
        events.update(
            at,
            Event {
                token: report.token,
                readable: events[at].readable || report.filter == Filter::Read,
                writable: events[at].writable || report.filter == Filter::Write,
            },
        )
    } else {
        events.push(
            Event {
                token: report.token,
                readable: report.filter == Filter::Read,
                writable: report.filter == Filter::Write,
            },
        )
    }
}

/// The events that a batch of reports amounts to, taken in from first to
/// last.
pub open spec fn spec_merge_all(reports: Seq<Report>) -> Seq<Event>
    decreases reports.len(),
{
    if reports.len() == 0 {
        Seq::empty()
    } else {
        spec_merge(spec_merge_all(reports.drop_last()), reports.last())
    }
}

/// The changes that register `fd` under `token` for `interest`.
pub open spec fn spec_registration(fd: i32, token: usize, interest: Interest) -> Seq<Submission> {
    (if interest.read {
        seq![Submission { ident: fd as usize, filter: Filter::Read, request: Request::Add, token }]
    } else {
        Seq::empty()
    }) + (if interest.write {
        seq![Submission { ident: fd as usize, filter: Filter::Write, request: Request::Add, token }]
    } else {
        Seq::empty()
    })
}

/// The first event with a given token is where a search from the left finds
/// it.
pub proof fn lemma_position_at(events: Seq<Event>, token: usize, at: int)
    requires
        0 <= at <= events.len(),
        forall|i: int| 0 <= i < at ==> events[i].token != token,
        at < events.len() ==> events[at].token == token,
    ensures
        spec_position(events, token) == at,
    decreases at,
{
    if at > 0 {
        let rest = events.drop_first();
        assert forall|i: int| 0 <= i < at - 1 implies rest[i].token != token by {
            assert(rest[i] == events[i + 1]);
        }
        lemma_position_at(rest, token, at - 1);
    }
}

/// Whether no two events carry the same token.
pub open spec fn spec_distinct_tokens(events: Seq<Event>) -> bool {
    forall|i: int, j: int|
        0 <= i < j < events.len() ==> (#[trigger] events[i]).token != (#[trigger] events[j]).token
}

/// A search from the left that finds nothing means the token is nowhere.
pub proof fn lemma_position_absent(events: Seq<Event>, token: usize)
    ensures
        0 <= spec_position(events, token) <= events.len(),
        spec_position(events, token) == events.len() ==> forall|i: int|
            0 <= i < events.len() ==> (#[trigger] events[i]).token != token,
        spec_position(events, token) < events.len() ==> events[spec_position(
            events,
            token,
        )].token == token,
    decreases events.len(),
{
    if events.len() > 0 && events[0].token != token {
        let rest = events.drop_first();
        lemma_position_absent(rest, token);
        if spec_position(events, token) == events.len() {
            assert forall|i: int| 0 <= i < events.len() implies (#[trigger] events[i]).token
                != token by {
                if i > 0 {
                    assert(rest[i - 1] == events[i]);
                }
            }
        } else {
            assert(rest[spec_position(rest, token)] == events[spec_position(events, token)]);
        }
    }
}

/// Each token is reported once: however many reports a batch holds for a
/// token, the events hold one event for it.
pub proof fn lemma_one_event_per_token(reports: Seq<Report>)
    ensures
        spec_distinct_tokens(spec_merge_all(reports)),
        spec_merge_all(reports).len() <= reports.len(),
    decreases reports.len(),
{
    if reports.len() > 0 {
        lemma_one_event_per_token(reports.drop_last());
        let before = spec_merge_all(reports.drop_last());
        let report = reports.last();
        lemma_position_absent(before, report.token);
        let after = spec_merge(before, report);
        assert forall|i: int, j: int| 0 <= i < j < after.len() implies (#[trigger] after[i]).token
            != (#[trigger] after[j]).token by {
            if j < before.len() {
                assert(before[i].token != before[j].token);
            }
        }
    }
}

/// The poller on the kernel event queue `kqueue`.
#[derive(Clone, Copy, Debug, PartialEq, Eq, Structural)]
pub struct KqueuePoller {
    /// The descriptor of the queue.
    pub kqueue: i32,
}

impl KqueuePoller {
    /// The poller on the queue `kqueue`, and the change that sets up the
    /// entry through which the poller is woken on request.
    pub fn new(kqueue: i32) -> (made: (KqueuePoller, Submission))
        ensures
            made.0.kqueue == kqueue,
            made.1 == (Submission {
                ident: WAKE_IDENT,
                filter: Filter::User,
                request: Request::AddClear,
                token: 0,
            }),
    {
        (
            KqueuePoller { kqueue },
            Submission {
                ident: WAKE_IDENT,
                filter: Filter::User,
                request: Request::AddClear,
                token: 0,
            },
        )
    }

    /// The changes that register `fd` under `token`: one for each direction
    /// of `interest`, reading first.
    pub fn register(&self, fd: i32, token: usize, interest: Interest) -> (changes: Vec<Submission>)
        ensures
            changes@ == spec_registration(fd, token, interest),
    {
        let mut changes: Vec<Submission> = Vec::new();
        if interest.read {
            changes.push(
                Submission { ident: fd as usize, filter: Filter::Read, request: Request::Add, token },
            );
        }
        if interest.write {
            changes.push(
                Submission {
                    ident: fd as usize,
                    filter: Filter::Write,
                    request: Request::Add,
                    token,
                },
            );
        }
        assert(changes@ =~= spec_registration(fd, token, interest));
        changes
    }

    /// The changes that withdraw `fd` in both directions.
    pub fn deregister(&self, fd: i32) -> (changes: Vec<Submission>)
        ensures
            changes@ == seq![
                Submission {
                    ident: fd as usize,
                    filter: Filter::Read,
                    request: Request::Delete,
                    token: 0,
                },
                Submission {
                    ident: fd as usize,
                    filter: Filter::Write,
                    request: Request::Delete,
                    token: 0,
                },
            ],
    {
        let mut changes: Vec<Submission> = Vec::new();
        changes.push(
            Submission { ident: fd as usize, filter: Filter::Read, request: Request::Delete, token: 0 },
        );
        changes.push(
            Submission {
                ident: fd as usize,
                filter: Filter::Write,
                request: Request::Delete,
                token: 0,
            },
        );
        assert(changes@ =~= seq![
            Submission {
                ident: fd as usize,
                filter: Filter::Read,
                request: Request::Delete,
                token: 0,
            },
            Submission {
                ident: fd as usize,
                filter: Filter::Write,
                request: Request::Delete,
                token: 0,
            },
        ]);
        changes
    }

    /// The change that wakes the poller from a wait.
    pub fn wake(&self) -> (change: Submission)
        ensures
            change == (Submission {
                ident: WAKE_IDENT,
                filter: Filter::User,
                request: Request::Trigger,
                token: 0,
            }),
    {
        Submission { ident: WAKE_IDENT, filter: Filter::User, request: Request::Trigger, token: 0 }
    }

    /// Takes in what a wait on the queue came to. `failure` is the error
    /// number of a failed wait, `interrupted` tells whether the failure was
    /// an interruption by a signal, and `reports` is what a successful wait
    /// returned.
    ///
    /// An interrupted wait is no error and leaves `events` alone. Any other
    /// failure is passed on. After a successful wait `events` holds one
    /// event for each token reported, in the order of their first report.
    pub fn poll(
        &self,
        events: &mut Vec<Event>,
        failure: Option<i32>,
        interrupted: bool,
        reports: &Vec<Report>,
    ) -> (polled: Result<(), IoError>)
        ensures
            match failure {
                Some(errno) => {
                    &&& final(events)@ == old(events)@
                    &&& polled == if interrupted {
                        Ok::<(), IoError>(())
                    } else {
                        Err::<(), IoError>(IoError::Os(errno))
                    }
                },
                None => {
                    &&& polled == Ok::<(), IoError>(())
                    &&& final(events)@ == spec_merge_all(reports@)
                },
            },
    {
        match failure {
            Some(errno) => {
                if interrupted {
                    return Ok(());
                }
                return Err(IoError::Os(errno));
            },
            None => {},
        }
        events.clear();
        let n: usize = reports.len();
        let mut i: usize = 0;
        assert(reports@.take(0) =~= Seq::<Report>::empty());
        while i < n
            invariant
                i <= n,
                n == reports@.len(),
                events@ == spec_merge_all(reports@.take(i as int)),
            decreases n - i,
        {
            let report: Report = reports[i];
            proof {
                let done = reports@.take(i as int + 1);
                assert(done.drop_last() =~= reports@.take(i as int));
                assert(done.last() == report);
            }
            i += 1;
            match report.filter {
                Filter::User => {
                    continue ;
                },
                _ => {},
            }
            let ghost before = events@;
            let mut at: usize = 0;
            while at < events.len() && events[at].token != report.token
                invariant
                    at <= events@.len(),
                    events@ == before,
                    forall|j: int| 0 <= j < at ==> events@[j].token != report.token,
                decreases events@.len() - at,
            {
                at += 1;
            }
            proof {
                lemma_position_at(before, report.token, at as int);
            }
            let is_read: bool = match report.filter {
                Filter::Read => true,
                _ => false,
            };
            let is_write: bool = match report.filter {
                Filter::Write => true,
                _ => false,
            };
            if at < events.len() {
                let known: Event = events[at];
                events[at] = Event {
                    token: report.token,
                    readable: known.readable || is_read,
                    writable: known.writable || is_write,
                };
            } else {
                events.push(Event { token: report.token, readable: is_read, writable: is_write });
            }
            assert(events@ =~= spec_merge(before, report));
        }
        assert(reports@.take(n as int) =~= reports@);
        Ok(())
    }
}

} // verus!
