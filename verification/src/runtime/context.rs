//! The current runtime context and its feature switches.
//!
//! While the executor loop runs, and while a task is polled, a context names
//! the ready queue, the reactor and the features of the runtime in charge, so
//! that spawning and I/O find them without being handed them. Entering a
//! context returns the one it replaces, which is put back on leaving.

use vstd::prelude::*;

verus! {

/// Feature switches of a runtime.
#[derive(Clone, Copy, Debug, PartialEq, Eq, Structural)]
pub struct Features {
    /// Reactor-backed I/O is enabled.
    pub io_enabled: bool,
    /// Filesystem operations are enabled.
    pub fs_enabled: bool,
}

/// A capability that an API may depend on.
#[derive(Clone, Copy, Debug, PartialEq, Eq, Structural)]
pub enum Feature {
    /// Reactor-backed I/O.
    Io,
    /// Filesystem operations.
    Fs,
}

/// A use of the runtime that the current context does not allow. Each is a
/// mistake of the calling program, not a condition to recover from.
#[derive(Clone, Copy, Debug, PartialEq, Eq, Structural)]
pub enum ContextError {
    /// A task was spawned outside of any runtime.
    NoRuntime,
    /// An operation needed the reactor outside of any runtime.
    NoReactor,
    /// An operation needed a feature that the runtime was built without.
    FeatureDisabled(Feature),
}

impl ContextError {
    /// The message with which the calling program is stopped.
    pub fn message(&self) -> (text: &'static str)
        ensures
            text@ == match *self {
                ContextError::NoRuntime => "Task::spawn() called outside of a runtime context"@,
                ContextError::NoReactor =>
                    "No reactor in current context. I/O operations must be called within Runtime::block_on"@,
                ContextError::FeatureDisabled(Feature::Io) =>
                    "I/O support not enabled. Use RuntimeBuilder::enable_io()."@,
                ContextError::FeatureDisabled(Feature::Fs) =>
                    "filesystem support not enabled. Use RuntimeBuilder::enable_fs()."@,
            },
    {
        match self {
            ContextError::NoRuntime => "Task::spawn() called outside of a runtime context",
            ContextError::NoReactor =>
                "No reactor in current context. I/O operations must be called within Runtime::block_on",
            ContextError::FeatureDisabled(Feature::Io) =>
                "I/O support not enabled. Use RuntimeBuilder::enable_io().",
            ContextError::FeatureDisabled(Feature::Fs) =>
                "filesystem support not enabled. Use RuntimeBuilder::enable_fs().",
        }
    }
}

impl Features {
    /// Whether `feature` is switched on.
    pub open spec fn allows(self, feature: Feature) -> bool {
        match feature {
            Feature::Io => self.io_enabled,
            Feature::Fs => self.fs_enabled,
        }
    }

    /// Whether `feature` is switched on.
    pub fn has(&self, feature: Feature) -> (enabled: bool)
        ensures
            enabled == self.allows(feature),
    {
        match feature {
            Feature::Io => self.io_enabled,
            Feature::Fs => self.fs_enabled,
        }
    }
}

/// The slots of the current context: the ready queue `Q`, the reactor handle
/// `H` and the features of the runtime in charge, all empty outside of a
/// runtime.
pub struct Context<Q, H> {
    /// The ready queue of the runtime in charge.
    pub queue: Option<Q>,
    /// The reactor of the runtime in charge.
    pub reactor: Option<H>,
    /// The features of the runtime in charge.
    pub features: Option<Features>,
}

/// Whether a context with the features `features` allows the use of
/// `feature`. Outside of a runtime nothing is allowed.
pub open spec fn spec_feature_on(features: Option<Features>, feature: Feature) -> bool {
    match features {
        Some(features) => features.allows(feature),
        None => false,
    }
}

/// What asking a context for its reactor on behalf of `feature` comes to:
/// the feature is checked first, the presence of a reactor second.
pub open spec fn spec_current_reactor<Q, H>(context: Context<Q, H>, feature: Feature) -> Result<
    H,
    ContextError,
> {
    if !spec_feature_on(context.features, feature) {
        Err(ContextError::FeatureDisabled(feature))
    } else {
        match context.reactor {
            Some(reactor) => Ok(reactor),
            None => Err(ContextError::NoReactor),
        }
    }
}

impl<Q, H> Context<Q, H> {
    /// The context outside of any runtime.
    pub fn empty() -> (context: Self)
        ensures
            context == (Context::<Q, H> { queue: None, reactor: None, features: None }),
    {
        Context { queue: None, reactor: None, features: None }
    }

    /// Makes `queue`, `reactor` and `features` current and returns the
    /// context they replace.
    pub fn enter_context(&mut self, queue: Q, reactor: H, features: Features) -> (previous: Self)
        ensures
            previous == *old(self),
            *final(self) == (Context {
                queue: Some(queue),
                reactor: Some(reactor),
                features: Some(features),
            }),
    {
        let mut previous = Context {
            queue: Some(queue),
            reactor: Some(reactor),
            features: Some(features),
        };
        std::mem::swap(self, &mut previous);
        previous
    }

    /// Leaves the current context and makes `previous` current again.
    pub fn exit_context(&mut self, previous: Self)
        ensures
            *final(self) == previous,
    {
        *self = previous;
    }

    /// Checks that the runtime in charge was built with `feature`.
    pub fn ensure_feature(&self, feature: Feature) -> (checked: Result<(), ContextError>)
        ensures
            checked == if spec_feature_on(self.features, feature) {
                Ok::<(), ContextError>(())
            } else {
                Err::<(), ContextError>(ContextError::FeatureDisabled(feature))
            },
    {
        let enabled = match &self.features {
            Some(features) => features.has(feature),
            None => false,
        };
        if enabled {
            Ok(())
        } else {
            Err(ContextError::FeatureDisabled(feature))
        }
    }

    /// The reactor of the runtime in charge, whatever its features.
    pub fn current_reactor_inner(&self) -> (found: Result<&H, ContextError>)
        ensures
            match self.reactor {
                Some(reactor) => found == Ok::<&H, ContextError>(&reactor),
                None => found == Err::<&H, ContextError>(ContextError::NoReactor),
            },
    {
        match &self.reactor {
            Some(reactor) => Ok(reactor),
            None => Err(ContextError::NoReactor),
        }
    }

    /// The reactor, for an I/O operation: refused unless the runtime in
    /// charge was built with I/O.
    pub fn current_reactor_io(&self) -> (found: Result<&H, ContextError>)
        ensures
            match spec_current_reactor(*self, Feature::Io) {
                Ok(reactor) => found == Ok::<&H, ContextError>(&reactor),
                Err(error) => found == Err::<&H, ContextError>(error),
            },
    {
        match self.ensure_feature(Feature::Io) {
            Ok(_) => self.current_reactor_inner(),
            Err(error) => Err(error),
        }
    }

    /// The reactor, for a filesystem operation: refused unless the runtime
    /// in charge was built with filesystem support.
    pub fn current_reactor_fs(&self) -> (found: Result<&H, ContextError>)
        ensures
            match spec_current_reactor(*self, Feature::Fs) {
                Ok(reactor) => found == Ok::<&H, ContextError>(&reactor),
                Err(error) => found == Err::<&H, ContextError>(error),
            },
    {
        match self.ensure_feature(Feature::Fs) {
            Ok(_) => self.current_reactor_inner(),
            Err(error) => Err(error),
        }
    }

    /// The ready queue of the runtime in charge, for spawning a task:
    /// refused outside of a runtime.
    pub fn current_queue(&self) -> (found: Result<&Q, ContextError>)
        ensures
            match self.queue {
                Some(queue) => found == Ok::<&Q, ContextError>(&queue),
                None => found == Err::<&Q, ContextError>(ContextError::NoRuntime),
            },
    {
        match &self.queue {
            Some(queue) => Ok(queue),
            None => Err(ContextError::NoRuntime),
        }
    }
}

/// Makes `queue`, `reactor` and `features` current in `context` and returns
/// the context they replace, to be put back on leaving.
pub fn enter_context<Q, H>(context: &mut Context<Q, H>, queue: Q, reactor: H, features: Features) -> (previous:
    Context<Q, H>)
    ensures
        previous == *old(context),
        *final(context) == (Context {
            queue: Some(queue),
            reactor: Some(reactor),
            features: Some(features),
        }),
{
    context.enter_context(queue, reactor, features)
}

} // verus!
