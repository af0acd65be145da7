//! The arguments of the entry attribute: nothing, or
//! `worker_threads = <number>`.
//!
//! Reading the tokens is left to the caller; what is checked here is what
//! they say.

use vstd::prelude::*;
use vstd::string::*;

verus! {

/// Number of worker threads when the attribute has no argument.
pub const DEFAULT_WORKER_THREADS: usize = 1;

/// The arguments of the entry attribute.
#[derive(Clone, Copy, Debug, PartialEq, Eq, Structural)]
pub struct MainArgs {
    /// Number of worker threads asked for.
    pub worker_threads: usize,
}

/// Why the arguments of the entry attribute are refused.
#[derive(Clone, Copy, Debug, PartialEq, Eq, Structural)]
pub enum ArgsError {
    /// The argument is not called `worker_threads`.
    UnknownArgument,
    /// Zero worker threads were asked for.
    ZeroWorkers,
}

impl ArgsError {
    /// The message shown at the argument that is refused.
    pub fn message(&self) -> (text: &'static str)
        ensures
            text@ == match *self {
                ArgsError::UnknownArgument => "expected `worker_threads`"@,
                ArgsError::ZeroWorkers => "worker_threads must be greater than 0"@,
            },
    {
        match self {
            ArgsError::UnknownArgument => "expected `worker_threads`",
            ArgsError::ZeroWorkers => "worker_threads must be greater than 0",
        }
    }
}

/// Whether two texts are the same, byte for byte.
pub fn same_text(left: &str, right: &str) -> (same: bool)
    ensures
        same == (left.spec_bytes() == right.spec_bytes()),
{
    let a = left.as_bytes();
    let b = right.as_bytes();
    if a.len() != b.len() {
        return false;
    }
    let mut i: usize = 0;
    while i < a.len()
        invariant
            i <= a@.len(),
            a@.len() == b@.len(),
            a@ == left.spec_bytes(),
            b@ == right.spec_bytes(),
            forall|j: int| 0 <= j < i ==> a@[j] == b@[j],
        decreases a@.len() - i,
    {
        if a[i] != b[i] {
            return false;
        }
        i += 1;
    }
    assert(a@ =~= b@);
    true
}

/// What the arguments `argument` come to: `worker_threads` with a number
/// above zero, or nothing at all, which stands for the default.
pub open spec fn spec_parse(argument: Option<(Seq<u8>, usize)>) -> Result<MainArgs, ArgsError> {
    match argument {
        None => Ok(MainArgs { worker_threads: DEFAULT_WORKER_THREADS }),
        Some((name, value)) => if name != "worker_threads".spec_bytes() {
            Err(ArgsError::UnknownArgument)
        } else if value == 0 {
            Err(ArgsError::ZeroWorkers)
        } else {
            Ok(MainArgs { worker_threads: value })
        },
    }
}

impl MainArgs {
    /// Checks the arguments of the attribute: `argument` is the name and
    /// the number that were written, or nothing if the attribute stands
    /// alone. The name is checked before the number.
    pub fn parse(argument: Option<(&str, usize)>) -> (parsed: Result<MainArgs, ArgsError>)
        ensures
            parsed == spec_parse(
                match argument {
                    None => None,
                    Some((name, value)) => Some((name.spec_bytes(), value)),
                },
            ),
    {
        match argument {
            None => Ok(MainArgs { worker_threads: DEFAULT_WORKER_THREADS }),
            Some((name, value)) => {
                if !same_text(name, "worker_threads") {
                    return Err(ArgsError::UnknownArgument);
                }
                if value == 0 {
                    return Err(ArgsError::ZeroWorkers);
                }
                Ok(MainArgs { worker_threads: value })
            },
        }
    }
}

} // verus!
