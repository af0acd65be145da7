//! Errors surfaced by the I/O operations of the runtime.
//!
//! "Would block" is not among them: it never reaches a caller and turns into
//! a pending poll instead.

use vstd::prelude::*;

verus! {

/// Why an input was refused before any system call was made.
#[derive(Clone, Copy, Debug, PartialEq, Eq, Structural)]
pub enum InvalidInput {
    /// A socket address without a `:` between host and port.
    InvalidAddress,
    /// A port that is not a decimal number between 0 and 65535.
    InvalidPort,
    /// A host that does not consist of four parts separated by dots.
    InvalidIpv4Address,
    /// A host part that is not a decimal number between 0 and 255.
    InvalidIpv4Octet,
    /// A path that holds a zero byte.
    NulInPath,
    /// An empty path.
    EmptyPath,
    /// A path with a `..` component.
    ParentDir,
}

/// An error of an I/O operation.
#[derive(Clone, Copy, Debug, PartialEq, Eq, Structural)]
pub enum IoError {
    /// The operating system refused the call; the payload is its error
    /// number, passed on unchanged.
    Os(i32),
    /// A write that should have made progress wrote nothing.
    WriteZero,
    /// The input was refused before any system call was made.
    InvalidInput(InvalidInput),
}

impl InvalidInput {
    /// A short description of the reason.
    pub fn message(&self) -> (text: &'static str)
        ensures
            text@ == match *self {
                InvalidInput::InvalidAddress => "invalid address"@,
                InvalidInput::InvalidPort => "invalid port"@,
                InvalidInput::InvalidIpv4Address => "invalid IPv4 address"@,
                InvalidInput::InvalidIpv4Octet => "invalid IPv4 octet"@,
                InvalidInput::NulInPath => "path contains null byte"@,
                InvalidInput::EmptyPath => "empty path"@,
                InvalidInput::ParentDir => "parent directory (..) not supported"@,
            },
    {
        match self {
            InvalidInput::InvalidAddress => "invalid address",
            InvalidInput::InvalidPort => "invalid port",
            InvalidInput::InvalidIpv4Address => "invalid IPv4 address",
            InvalidInput::InvalidIpv4Octet => "invalid IPv4 octet",
            InvalidInput::NulInPath => "path contains null byte",
            InvalidInput::EmptyPath => "empty path",
            InvalidInput::ParentDir => "parent directory (..) not supported",
        }
    }
}

impl IoError {
    /// The error number of the operating system, if the error came from it.
    pub fn raw_os_error(&self) -> (code: Option<i32>)
        ensures
            code == match *self {
                IoError::Os(errno) => Some(errno),
                _ => None::<i32>,
            },
    {
        match self {
            IoError::Os(errno) => Some(*errno),
            _ => None,
        }
    }
}

} // verus!
