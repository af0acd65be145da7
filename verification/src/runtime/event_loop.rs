//! The executor loop, one decision at a time.
//!
//! Running a root computation to completion alternates work that only the
//! embedding program can do (polling the root, polling queued tasks, waiting
//! on the kernel notifier, waking wakers) with decisions about what to do
//! next. [`Runtime`] makes the decisions. The driver performs the [`Action`]
//! it is given, reports the outcome as a [`Reply`], and gets the next action:
//!
//! ```text
//! poll the root                      ready: grace drain, then return
//! drain the ready queue
//! harvest events without blocking, hand out the due wakers
//! root notified, or queue not empty: start over
//! block in the notifier, classify the events, hand out the due wakers
//! start over
//! ```

use crate::reactor::dispatch::{Reactor, ReactorState};
use crate::reactor::event::Event;
use vstd::prelude::*;

verus! {

/// Number of drain rounds granted to spawned tasks after the root resolved.
pub const GRACE_ROUNDS: u8 = 10;

/// Pause between two grace rounds, in milliseconds.
pub const GRACE_PAUSE_MS: u64 = 10;

/// Where the executor loop stands: which report it is waiting for.
#[derive(Clone, Copy, Debug, PartialEq, Eq, Structural)]
pub enum Phase {
    /// No root computation is being driven.
    Idle,
    /// The root is being polled.
    Root,
    /// The ready queue is being drained.
    Draining,
    /// The notifier is being asked for events without blocking.
    Harvesting,
    /// The wakers due after a non-blocking harvest are being woken.
    Waking,
    /// The loop is blocked in the notifier.
    Blocked,
    /// The wakers due after a blocking wait are being woken.
    Resuming,
    /// The root has resolved and the ready queue is drained once more.
    GraceDraining { round: u8 },
    /// The root has resolved and the loop pauses before the next grace round.
    GracePausing { round: u8 },
    /// The root has resolved and its value can be returned.
    Finished,
}

/// What the driver reports after it performed an action.
pub enum Reply {
    /// The root was polled and is not finished.
    RootPending,
    /// The root was polled and produced its value.
    RootReady,
    /// Tasks were popped and polled until a pop found the queue empty.
    /// `queue_empty` tells whether the queue is still empty afterwards.
    Drained { queue_empty: bool },
    /// The notifier returned this batch of events.
    Events(Vec<Event>),
    /// Every waker handed out was woken. `root_notified` tells whether the
    /// root's waker fired since the flag was last cleared, `queue_empty`
    /// whether the ready queue holds no task.
    Woken { root_notified: bool, queue_empty: bool },
    /// The requested pause is over.
    Paused,
}

/// Mathematical form of a [`Reply`].
pub enum ReplyView {
    RootPending,
    RootReady,
    Drained { queue_empty: bool },
    Events(Seq<Event>),
    Woken { root_notified: bool, queue_empty: bool },
    Paused,
}

impl View for Reply {
    type V = ReplyView;

    open spec fn view(&self) -> ReplyView {
        match *self {
            Reply::RootPending => ReplyView::RootPending,
            Reply::RootReady => ReplyView::RootReady,
            Reply::Drained { queue_empty } => ReplyView::Drained { queue_empty },
            Reply::Events(batch) => ReplyView::Events(batch@),
            Reply::Woken { root_notified, queue_empty } => ReplyView::Woken {
                root_notified,
                queue_empty,
            },
            Reply::Paused => ReplyView::Paused,
        }
    }
}

/// What the driver is asked to do next.
pub enum Action<W> {
    /// Poll the root with the flag-setting waker, after clearing the
    /// notification flag if `clear_notified` is set. Report `RootPending` or
    /// `RootReady`.
    PollRoot { clear_notified: bool },
    /// Pop and poll tasks until the ready queue is found empty. Report
    /// `Drained`.
    Drain,
    /// Ask the notifier for events without blocking. Report `Events`.
    Harvest,
    /// Wake each of these wakers once, in order. Report `Woken`.
    Wake(Vec<W>),
    /// Wait in the notifier until an event arrives. Report `Events`.
    Block,
    /// Sleep for `millis` milliseconds. Report `Paused`.
    Pause { millis: u64 },
    /// Return the value that the root produced.
    Return,
    /// The reply does not answer the action that is outstanding. Nothing
    /// changed; the outstanding action is still to be reported.
    Rejected,
}

/// Mathematical form of an [`Action`].
pub enum ActionView<W> {
    PollRoot { clear_notified: bool },
    Drain,
    Harvest,
    Wake(Seq<W>),
    Block,
    Pause { millis: u64 },
    Return,
    Rejected,
}

impl<W> View for Action<W> {
    type V = ActionView<W>;

    open spec fn view(&self) -> ActionView<W> {
        match *self {
            Action::PollRoot { clear_notified } => ActionView::PollRoot { clear_notified },
            Action::Drain => ActionView::Drain,
            Action::Harvest => ActionView::Harvest,
            Action::Wake(due) => ActionView::Wake(due@),
            Action::Block => ActionView::Block,
            Action::Pause { millis } => ActionView::Pause { millis },
            Action::Return => ActionView::Return,
            Action::Rejected => ActionView::Rejected,
        }
    }
}

/// Outcome of one decision: the new phase, the action asked of the driver and
/// the new state of the reactor.
pub struct Turn<W> {
    pub phase: Phase,
    pub action: ActionView<W>,
    pub reactor: ReactorState<W>,
}

/// The decision taken in `phase` on `reply`, with the reactor in state
/// `reactor`.
pub open spec fn spec_turn<W>(phase: Phase, reply: ReplyView, reactor: ReactorState<W>) -> Turn<W> {
    match (phase, reply) {
        (Phase::Root, ReplyView::RootPending) => Turn {
            phase: Phase::Draining,
            action: ActionView::Drain,
            reactor,
        },
        (Phase::Root, ReplyView::RootReady) => Turn {
            phase: Phase::GraceDraining { round: 0 },
            action: ActionView::Drain,
            reactor,
        },
        (Phase::Draining, ReplyView::Drained { queue_empty }) => Turn {
            phase: Phase::Harvesting,
            action: ActionView::Harvest,
            reactor,
        },
        (Phase::Harvesting, ReplyView::Events(batch)) => {
            let classified = if batch.len() == 0 {
                reactor
            } else {
                reactor.harvested(batch).handled()
            };
            Turn {
                phase: Phase::Waking,
                action: ActionView::Wake(classified.pending),
                reactor: classified.flushed(),
            }
        },
        (Phase::Waking, ReplyView::Woken { root_notified, queue_empty }) => if root_notified {
            Turn {
                phase: Phase::Root,
                action: ActionView::PollRoot { clear_notified: true },
                reactor,
            }
        } else if !queue_empty {
            Turn {
                phase: Phase::Root,
                action: ActionView::PollRoot { clear_notified: false },
                reactor,
            }
        } else {
            Turn { phase: Phase::Blocked, action: ActionView::Block, reactor }
        },
        (Phase::Blocked, ReplyView::Events(batch)) => {
            let classified = reactor.harvested(batch).handled();
            Turn {
                phase: Phase::Resuming,
                action: ActionView::Wake(classified.pending),
                reactor: classified.flushed(),
            }
        },
        (Phase::Resuming, ReplyView::Woken { root_notified, queue_empty }) => Turn {
            phase: Phase::Root,
            action: ActionView::PollRoot { clear_notified: false },
            reactor,
        },
        (Phase::GraceDraining { round }, ReplyView::Drained { queue_empty }) => if queue_empty {
            Turn { phase: Phase::Finished, action: ActionView::Return, reactor }
        } else {
            Turn {
                phase: Phase::GracePausing { round },
                action: ActionView::Pause { millis: GRACE_PAUSE_MS },
                reactor,
            }
        },
        (Phase::GracePausing { round }, ReplyView::Paused) => if round + 1 < GRACE_ROUNDS {
            Turn {
                phase: Phase::GraceDraining { round: (round + 1) as u8 },
                action: ActionView::Drain,
                reactor,
            }
        } else {
            Turn { phase: Phase::Finished, action: ActionView::Return, reactor }
        },
        _ => Turn { phase, action: ActionView::Rejected, reactor },
    }
}

/// The executor: the feature switches it was built with and the phase of its
/// loop.
pub struct Runtime {
    io_enabled: bool,
    fs_enabled: bool,
    phase: Phase,
}

impl Runtime {
    /// The phase of the executor loop.
    pub closed spec fn phase(&self) -> Phase {
        self.phase
    }

    /// Whether reactor-backed I/O is enabled.
    pub closed spec fn spec_io_enabled(&self) -> bool {
        self.io_enabled
    }

    /// Whether filesystem operations are enabled.
    pub closed spec fn spec_fs_enabled(&self) -> bool {
        self.fs_enabled
    }

    /// A runtime with neither I/O nor filesystem support.
    pub fn new() -> (runtime: Self)
        ensures
            !runtime.spec_io_enabled(),
            !runtime.spec_fs_enabled(),
            runtime.phase() == Phase::Idle,
    {
        Self::with_features(false, false)
    }

    /// A runtime with the requested features. Filesystem support relies on
    /// the reactor, so asking for it enables I/O as well.
    pub fn with_features(io_enabled: bool, fs_enabled: bool) -> (runtime: Self)
        ensures
            runtime.spec_io_enabled() == (io_enabled || fs_enabled),
            runtime.spec_fs_enabled() == fs_enabled,
            runtime.phase() == Phase::Idle,
    {
        Runtime { io_enabled: io_enabled || fs_enabled, fs_enabled, phase: Phase::Idle }
    }

    /// Whether reactor-backed I/O is enabled for this runtime.
    #[verifier::when_used_as_spec(spec_io_enabled)]
    pub fn io_enabled(&self) -> (enabled: bool)
        ensures
            enabled == self.spec_io_enabled(),
    {
        self.io_enabled
    }

    /// Whether filesystem operations are enabled for this runtime.
    #[verifier::when_used_as_spec(spec_fs_enabled)]
    pub fn fs_enabled(&self) -> (enabled: bool)
        ensures
            enabled == self.spec_fs_enabled(),
    {
        self.fs_enabled
    }

    /// The phase of the executor loop.
    pub fn current_phase(&self) -> (phase: Phase)
        ensures
            phase == self.phase(),
    {
        self.phase
    }

    /// Starts driving a root computation: whatever the loop was doing is
    /// forgotten, and the root is to be polled first.
    pub fn block_on_begin<W>(&mut self) -> (action: Action<W>)
        ensures
            final(self).phase() == Phase::Root,
            final(self).spec_io_enabled() == old(self).spec_io_enabled(),
            final(self).spec_fs_enabled() == old(self).spec_fs_enabled(),
            action@ == (ActionView::<W>::PollRoot { clear_notified: false }),
    {
        self.phase = Phase::Root;
        Action::PollRoot { clear_notified: false }
    }

    /// Takes the driver's report on the outstanding action and decides what
    /// comes next. Batches of events are classified by `reactor`, and the
    /// wakers that became due leave it with the `Wake` action.
    pub fn block_on_step<W>(&mut self, reactor: &mut Reactor<W>, reply: Reply) -> (action: Action<
        W,
    >)
        ensures
            final(self).phase() == spec_turn(old(self).phase(), reply@, old(reactor)@).phase,
            action@ == spec_turn(old(self).phase(), reply@, old(reactor)@).action,
            final(reactor)@ == spec_turn(old(self).phase(), reply@, old(reactor)@).reactor,
            final(self).spec_io_enabled() == old(self).spec_io_enabled(),
            final(self).spec_fs_enabled() == old(self).spec_fs_enabled(),
    {
        match (self.phase, reply) {
            (Phase::Root, Reply::RootPending) => {
                self.phase = Phase::Draining;
                Action::Drain
            },
            (Phase::Root, Reply::RootReady) => {
                self.phase = Phase::GraceDraining { round: 0 };
                Action::Drain
            },
            (Phase::Draining, Reply::Drained { queue_empty: _ }) => {
                self.phase = Phase::Harvesting;
                Action::Harvest
            },
            (Phase::Harvesting, Reply::Events(batch)) => {
                reactor.poll_events(batch);
                let due = reactor.wake_ready();
                self.phase = Phase::Waking;
                Action::Wake(due)
            },
            (Phase::Waking, Reply::Woken { root_notified, queue_empty }) => {
                if root_notified {
                    self.phase = Phase::Root;
                    Action::PollRoot { clear_notified: true }
                } else if !queue_empty {
                    self.phase = Phase::Root;
                    Action::PollRoot { clear_notified: false }
                } else {
                    self.phase = Phase::Blocked;
                    Action::Block
                }
            },
            (Phase::Blocked, Reply::Events(batch)) => {
                reactor.wait_for_event(batch);
                reactor.handle_events();
                let due = reactor.wake_ready();
                self.phase = Phase::Resuming;
                Action::Wake(due)
            },
            (Phase::Resuming, Reply::Woken { root_notified: _, queue_empty: _ }) => {
                self.phase = Phase::Root;
                Action::PollRoot { clear_notified: false }
            },
            (Phase::GraceDraining { round }, Reply::Drained { queue_empty }) => {
                if queue_empty {
                    self.phase = Phase::Finished;
                    Action::Return
                } else {
                    self.phase = Phase::GracePausing { round };
                    Action::Pause { millis: GRACE_PAUSE_MS }
                }
            },
            (Phase::GracePausing { round }, Reply::Paused) => {
                if round < GRACE_ROUNDS - 1 {
                    self.phase = Phase::GraceDraining { round: round + 1 };
                    Action::Drain
                } else {
                    self.phase = Phase::Finished;
                    Action::Return
                }
            },
            _ => Action::Rejected,
        }
    }
}

impl Default for Runtime {
    fn default() -> (runtime: Self)
        ensures
            !runtime.spec_io_enabled(),
            !runtime.spec_fs_enabled(),
            runtime.phase() == Phase::Idle,
    {
        Self::new()
    }
}

/// The loop blocks only when nothing is left to do: the action `Block` is
/// given in no other case than after the due wakers were woken, with the root
/// not notified and the ready queue empty. A task that became ready, or a
/// notified root, is polled before the loop next blocks.
pub proof fn lemma_blocks_only_when_idle<W>(phase: Phase, reply: ReplyView, reactor: ReactorState<W>)
    requires
        spec_turn(phase, reply, reactor).action is Block,
    ensures
        phase == Phase::Waking,
        reply == (ReplyView::Woken { root_notified: false, queue_empty: true }),
        spec_turn(phase, reply, reactor).phase == Phase::Blocked,
        spec_turn(phase, reply, reactor).reactor == reactor,
{
}

/// The ready queue is drained only after the root was polled or a grace
/// pause ended, and events are harvested only after a drain: within one
/// iteration the root comes first, the queued tasks second, the notifier
/// third.
pub proof fn lemma_order_of_an_iteration<W>(phase: Phase, reply: ReplyView, reactor: ReactorState<W>)
    ensures
        spec_turn(phase, reply, reactor).action is Drain ==> phase == Phase::Root || (
        phase is GracePausing && reply == ReplyView::Paused),
        spec_turn(phase, reply, reactor).action is Harvest ==> phase == Phase::Draining
            && reply is Drained,
        spec_turn(phase, reply, reactor).action is PollRoot ==> phase == Phase::Waking || phase
            == Phase::Resuming,
{
}

/// Every batch of events is classified in full, and every waker that is due
/// leaves the reactor with the `Wake` action: after the turn the pending
/// buffer is empty and no batch is stored.
pub proof fn lemma_wake_hands_out_all_due<W>(phase: Phase, batch: Seq<Event>, reactor: ReactorState<W>)
    requires
        phase == Phase::Harvesting || phase == Phase::Blocked,
        reactor.events.len() == 0,
    ensures
        spec_turn(phase, ReplyView::Events(batch), reactor).action == ActionView::Wake(
            reactor.classify_all(batch).pending,
        ),
        spec_turn(phase, ReplyView::Events(batch), reactor).reactor == (ReactorState {
            events: Seq::empty(),
            pending: Seq::empty(),
            ..reactor.classify_all(batch)
        }),
{
    lemma_classify_ignores_stored_batch(reactor, batch, batch);
    assert(reactor.events =~= Seq::<Event>::empty());
}

/// Which batch is stored in the reactor makes no difference to how a batch
/// is classified.
pub proof fn lemma_classify_ignores_stored_batch<W>(
    reactor: ReactorState<W>,
    stored: Seq<Event>,
    events: Seq<Event>,
)
    ensures
        reactor.harvested(stored).classify_all(events) == reactor.classify_all(events).harvested(
            stored,
        ),
    decreases events.len(),
{
    if events.len() > 0 {
        lemma_classify_ignores_stored_batch(reactor, stored, events.drop_last());
    }
}

/// The grace drain is bounded: once the root has resolved, the loop returns
/// after at most `GRACE_ROUNDS` drains, and at once when a drain leaves the
/// ready queue empty.
pub proof fn lemma_grace_is_bounded<W>(round: u8, queue_empty: bool, reactor: ReactorState<W>)
    ensures
        spec_turn(
            Phase::GraceDraining { round },
            ReplyView::Drained { queue_empty: true },
            reactor,
        ).action is Return,
        spec_turn(Phase::GracePausing { round }, ReplyView::Paused, reactor).action is Drain
            ==> round + 1 < GRACE_ROUNDS && spec_turn(
            Phase::GracePausing { round },
            ReplyView::Paused,
            reactor,
        ).phase == (Phase::GraceDraining { round: (round + 1) as u8 }),
        round + 1 >= GRACE_ROUNDS ==> spec_turn(
            Phase::GracePausing { round },
            ReplyView::Paused,
            reactor,
        ).action is Return,
{
}

/// A root that is ready at its first poll is returned at once: with the
/// ready queue empty, the loop asks for one drain and then for the return.
/// It never asks for a harvest, a wait, a wake or a pause on the way, and
/// the reactor is not touched.
pub proof fn lemma_ready_root_returns_at_once<W>(reactor: ReactorState<W>)
    ensures
        spec_turn(Phase::Root, ReplyView::RootReady, reactor).action == ActionView::<W>::Drain,
        spec_turn(Phase::Root, ReplyView::RootReady, reactor).phase == (Phase::GraceDraining {
            round: 0,
        }),
        spec_turn(Phase::Root, ReplyView::RootReady, reactor).reactor == reactor,
        spec_turn(
            Phase::GraceDraining { round: 0 },
            ReplyView::Drained { queue_empty: true },
            reactor,
        ).action == ActionView::<W>::Return,
        spec_turn(
            Phase::GraceDraining { round: 0 },
            ReplyView::Drained { queue_empty: true },
            reactor,
        ).phase == Phase::Finished,
        spec_turn(
            Phase::GraceDraining { round: 0 },
            ReplyView::Drained { queue_empty: true },
            reactor,
        ).reactor == reactor,
{
}

/// A queued task is polled before the loop next blocks. When the wakers
/// were woken and a task is queued, the loop does not block but polls the
/// root; whatever the root answers, the next thing asked for is a drain of
/// the ready queue; and while the root's answer is awaited no reply makes the
/// loop block.
pub proof fn lemma_queued_task_is_polled_before_block<W>(
    root_notified: bool,
    reactor: ReactorState<W>,
    reply: ReplyView,
)
    ensures
        spec_turn(
            Phase::Waking,
            ReplyView::Woken { root_notified, queue_empty: false },
            reactor,
        ).action is PollRoot,
        spec_turn(
            Phase::Waking,
            ReplyView::Woken { root_notified, queue_empty: false },
            reactor,
        ).phase == Phase::Root,
        spec_turn(
            Phase::Resuming,
            ReplyView::Woken { root_notified, queue_empty: false },
            reactor,
        ).phase == Phase::Root,
        spec_turn(Phase::Root, ReplyView::RootPending, reactor).action == ActionView::<W>::Drain,
        spec_turn(Phase::Root, ReplyView::RootPending, reactor).phase == Phase::Draining,
        spec_turn(Phase::Root, ReplyView::RootReady, reactor).action == ActionView::<W>::Drain,
        !(spec_turn(Phase::Root, reply, reactor).action is Block),
        !(spec_turn(Phase::Draining, reply, reactor).action is Block),
        spec_turn(Phase::Root, reply, reactor).action is Drain || spec_turn(
            Phase::Root,
            reply,
            reactor,
        ).action is Rejected,
{
}

/// Every wait in the notifier comes at the end of a full iteration. The
/// loop gets into each phase only from the phase before it: it blocks only
/// after a wake that found the root not notified and the queue empty, it
/// wakes only after a harvest, it harvests only after a drain was reported
/// done, and it drains (before the root has resolved) only after the root
/// was polled and found pending.
pub proof fn lemma_block_ends_a_full_iteration<W>(
    phase: Phase,
    reply: ReplyView,
    reactor: ReactorState<W>,
)
    ensures
        spec_turn(phase, reply, reactor).phase == Phase::Blocked && phase != Phase::Blocked ==> phase
            == Phase::Waking && reply == (ReplyView::Woken {
            root_notified: false,
            queue_empty: true,
        }),
        spec_turn(phase, reply, reactor).phase == Phase::Waking && phase != Phase::Waking ==> phase
            == Phase::Harvesting && reply is Events,
        spec_turn(phase, reply, reactor).phase == Phase::Harvesting && phase != Phase::Harvesting
            ==> phase == Phase::Draining && reply is Drained,
        spec_turn(phase, reply, reactor).phase == Phase::Draining && phase != Phase::Draining
            ==> phase == Phase::Root && reply == ReplyView::RootPending,
        spec_turn(phase, reply, reactor).action is Rejected ==> spec_turn(
            phase,
            reply,
            reactor,
        ).phase == phase && spec_turn(phase, reply, reactor).reactor == reactor,
{
}

} // verus!
