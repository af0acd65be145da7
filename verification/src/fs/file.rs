//! Files opened in non-blocking mode.
//!
//! Opening a file checks the path, works out the arguments of the `open`
//! call and reads its result; the call itself is made by the caller's `open`
//! function, which returns what the call returned and the error number it
//! left.

use crate::error::{InvalidInput, IoError};
use crate::reactor::future::{ReadFuture, WriteAll, WriteFuture};
use vstd::prelude::*;
use vstd::string::*;

verus! {

/// Permission bits of a file that `open` creates: `rw-r--r--`.
pub const CREATE_MODE: u32 = 0o644;

/// The arguments of an `open` call, besides the path.
#[derive(Clone, Copy, Debug, PartialEq, Eq)]
pub struct OpenCall {
    /// The open flags.
    pub flags: i32,
    /// The permission bits, given exactly when the call may create the file.
    pub mode: Option<u32>,
}

/// An open file, known by its descriptor. Closing the descriptor is up to
/// the owner of the file.
#[derive(Debug, PartialEq, Eq, Structural)]
pub struct File {
    /// The descriptor of the file.
    pub file_descriptor: i32,
}

/// Whether a path holds a zero byte, which no path handed to the operating
/// system may do.
pub open spec fn spec_has_nul(path: Seq<u8>) -> bool {
    exists|i: int| 0 <= i < path.len() && path[i] == 0
}

/// The arguments of an `open` call with the flags `flags`, where `creat` is
/// the flag that lets the call create the file.
pub open spec fn spec_open_call(flags: i32, creat: i32) -> OpenCall {
    OpenCall {
        flags,
        mode: if flags & creat != 0 {
            Some(CREATE_MODE)
        } else {
            None
        },
    }
}

/// The flags with which a file is created: the union of the flag that lets
/// `open` create the file, the flag for writing and the flag that empties
/// the file.
pub open spec fn spec_create_flags(creat: i32, write_only: i32, truncate: i32) -> i32 {
    creat | write_only | truncate
}

/// What opening comes to once the `open` call has returned `ret` and left
/// the error number `errno`.
pub open spec fn spec_opened(ret: i32, errno: i32) -> Result<File, IoError> {
    if ret < 0 {
        Err(IoError::Os(errno))
    } else {
        Ok(File { file_descriptor: ret })
    }
}

/// Reads libc's constant `O_RDONLY`, the flag for opening a file for
/// reading. Its value belongs to the platform, so nothing is claimed about
/// it.
#[verifier::external_body]
fn flag_read_only() -> (flag: i32) {
    libc::O_RDONLY
}

/// Reads libc's constant `O_WRONLY`, the flag for opening a file for
/// writing. Its value belongs to the platform, so nothing is claimed about
/// it.
#[verifier::external_body]
fn flag_write_only() -> (flag: i32) {
    libc::O_WRONLY
}

/// Reads libc's constant `O_CREAT`, the flag that lets `open` create the
/// file. Its value belongs to the platform, so nothing is claimed about it.
#[verifier::external_body]
fn flag_create() -> (flag: i32) {
    libc::O_CREAT
}

/// Reads libc's constant `O_TRUNC`, the flag that empties the file when it
/// is opened. Its value belongs to the platform, so nothing is claimed about
/// it.
#[verifier::external_body]
fn flag_truncate() -> (flag: i32) {
    libc::O_TRUNC
}

/// Whether `path` holds a zero byte.
pub fn has_nul(path: &str) -> (found: bool)
    ensures
        found == spec_has_nul(path.spec_bytes()),
{
    let bytes = path.as_bytes();
    let mut i: usize = 0;
    while i < bytes.len()
        invariant
            i <= bytes.len(),
            bytes@ == path.spec_bytes(),
            forall|j: int| 0 <= j < i ==> bytes@[j] != 0,
        decreases bytes.len() - i,
    {
        if bytes[i] == 0 {
            return true;
        }
        i += 1;
    }
    false
}

impl File {
    /// The file on the open descriptor `file_descriptor`.
    pub fn new(file_descriptor: i32) -> (file: Self)
        ensures
            file.file_descriptor == file_descriptor,
    {
        File { file_descriptor }
    }

    /// Opens `path` with the flags `flags`, where `creat` is the flag that
    /// lets the call create the file.
    ///
    /// A path with a zero byte is refused before any call is made. Otherwise
    /// `open` is called once with the arguments of the call; a negative
    /// return value becomes the error with the number the call left, any
    /// other return value is the descriptor of the file.
    pub fn open_with<S: FnOnce(OpenCall) -> (i32, i32)>(
        path: &str,
        flags: i32,
        creat: i32,
        open: S,
    ) -> (opened: Result<File, IoError>)
        requires
            call_requires(open, (spec_open_call(flags, creat),)),
        ensures
            spec_has_nul(path.spec_bytes()) ==> opened == Err::<File, IoError>(
                IoError::InvalidInput(InvalidInput::NulInPath),
            ),
            !spec_has_nul(path.spec_bytes()) ==> exists|ret: i32, errno: i32|
                call_ensures(open, (spec_open_call(flags, creat),), (ret, errno)) && opened
                    == spec_opened(ret, errno),
    {
        if has_nul(path) {
            return Err(IoError::InvalidInput(InvalidInput::NulInPath));
        }
        let mode: Option<u32> = if flags & creat != 0 {
            Some(CREATE_MODE)
        } else {
            None
        };
        let call = OpenCall { flags, mode };
        assert(call == spec_open_call(flags, creat));
        let (ret, errno) = open(call);
        proof {
            assert(call_ensures(open, (spec_open_call(flags, creat),), (ret, errno)));
            assert(spec_opened(ret, errno) == if ret < 0 {
                Err::<File, IoError>(IoError::Os(errno))
            } else {
                Ok::<File, IoError>(File { file_descriptor: ret })
            });
        }
        if ret < 0 {
            Err(IoError::Os(errno))
        } else {
            Ok(File { file_descriptor: ret })
        }
    }

    /// Opens `path` with the flags `flags`; the flag that lets the call
    /// create the file is the platform's. For that flag, whatever its value,
    /// the call is made with the arguments that [`File::open_with`] hands
    /// over: the flags as given, and the permission bits exactly when the
    /// flags hold the platform's flag.
    pub fn open_with_flags<S: FnOnce(OpenCall) -> (i32, i32)>(path: &str, flags: i32, open: S) -> (opened:
        Result<File, IoError>)
        requires
            forall|call: OpenCall| call.flags == flags ==> call_requires(open, (call,)),
        ensures
            spec_has_nul(path.spec_bytes()) ==> opened == Err::<File, IoError>(
                IoError::InvalidInput(InvalidInput::NulInPath),
            ),
            !spec_has_nul(path.spec_bytes()) ==> exists|creat: i32, ret: i32, errno: i32|
                call_ensures(open, (spec_open_call(flags, creat),), (ret, errno)) && opened
                    == spec_opened(ret, errno),
    {
        let creat = flag_create();
        assert(spec_open_call(flags, creat).flags == flags);
        File::open_with(path, flags, creat, open)
    }

    /// Opens `path` for reading: the flags of the call are the platform's
    /// flag for reading, and the permission bits are handed over exactly
    /// when that flag holds the platform's flag for creating.
    pub fn open<S: FnOnce(OpenCall) -> (i32, i32)>(path: &str, open: S) -> (opened: Result<
        File,
        IoError,
    >)
        requires
            forall|call: OpenCall| call_requires(open, (call,)),
        ensures
            spec_has_nul(path.spec_bytes()) ==> opened == Err::<File, IoError>(
                IoError::InvalidInput(InvalidInput::NulInPath),
            ),
            !spec_has_nul(path.spec_bytes()) ==> exists|
                read_only: i32,
                creat: i32,
                ret: i32,
                errno: i32,
            |
                call_ensures(open, (spec_open_call(read_only, creat),), (ret, errno)) && opened
                    == spec_opened(ret, errno),
    {
        let read_only = flag_read_only();
        let creat = flag_create();
        File::open_with(path, read_only, creat, open)
    }

    /// Opens `path` for writing; the file is created if it is missing and
    /// emptied if it is there. The flags of the call are the union of the
    /// platform's flags for creating, for writing and for emptying, and the
    /// permission bits go with them whenever the flag for creating is not
    /// zero.
    pub fn create<S: FnOnce(OpenCall) -> (i32, i32)>(path: &str, open: S) -> (opened: Result<
        File,
        IoError,
    >)
        requires
            forall|call: OpenCall| call_requires(open, (call,)),
        ensures
            spec_has_nul(path.spec_bytes()) ==> opened == Err::<File, IoError>(
                IoError::InvalidInput(InvalidInput::NulInPath),
            ),
            !spec_has_nul(path.spec_bytes()) ==> exists|
                creat: i32,
                write_only: i32,
                truncate: i32,
                ret: i32,
                errno: i32,
            |
                call_ensures(
                    open,
                    (spec_open_call(spec_create_flags(creat, write_only, truncate), creat),),
                    (ret, errno),
                ) && opened == spec_opened(ret, errno),
    {
        let creat = flag_create();
        let write_only = flag_write_only();
        let truncate = flag_truncate();
        let flags: i32 = creat | write_only | truncate;
        assert(flags == spec_create_flags(creat, write_only, truncate));
        File::open_with(path, flags, creat, open)
    }

    /// A read from the file.
    pub fn read(&self) -> (future: ReadFuture)
        ensures
            future.fd() == self.file_descriptor,
            !future.registered(),
    {
        ReadFuture::new(self.file_descriptor)
    }

    /// A single write to the file, which may write less than it is given.
    pub fn write(&self) -> (future: WriteFuture)
        ensures
            future.fd() == self.file_descriptor,
            !future.registered(),
    {
        WriteFuture::new(self.file_descriptor)
    }

    /// A write of a whole buffer of `len` bytes to the file.
    pub fn write_all(&self, len: usize) -> (op: WriteAll)
        ensures
            op.valid(),
            op.total() == len,
            op.written() == 0,
            op.current().fd() == self.file_descriptor,
            !op.current().registered(),
    {
        WriteAll::new(self.file_descriptor, len)
    }
}

/// A file that is created gets its permission bits: the flags for creating
/// a file hold the flag that lets `open` create it, so the permission bits
/// go with the call on every platform on which that flag is not zero.
pub proof fn lemma_create_hands_over_the_mode(creat: i32, write_only: i32, truncate: i32)
    ensures
        spec_open_call(spec_create_flags(creat, write_only, truncate), creat).flags
            == spec_create_flags(creat, write_only, truncate),
        spec_open_call(spec_create_flags(creat, write_only, truncate), creat).mode == if creat
            != 0 {
            Some(CREATE_MODE)
        } else {
            None::<u32>
        },
{
    assert((creat | write_only | truncate) & creat == creat) by (bit_vector);
}

} // verus!
