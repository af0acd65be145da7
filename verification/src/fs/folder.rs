//! Directories.

use crate::error::{InvalidInput, IoError};
use crate::fs::file::{has_nul, spec_has_nul};
use crate::utils::text::{spec_split, split};
use vstd::prelude::*;
use vstd::string::*;

verus! {

/// Permission bits of a directory that is created: `rwxr-xr-x`.
pub const CREATE_MODE: u32 = 0o755;

/// Whether a component of a path names a directory of its own: it is
/// neither empty nor `.` nor `..`.
pub open spec fn spec_is_normal(component: Seq<u8>) -> bool {
    component.len() > 0 && component != seq![0x2Eu8] && component != seq![0x2Eu8, 0x2Eu8]
}

/// The path `base` with `component` appended, a slash between them unless
/// `base` is empty or ends in one.
pub open spec fn spec_joined(base: Seq<u8>, component: Seq<u8>) -> Seq<u8> {
    if base.len() == 0 || base.last() == 0x2F {
        base + component
    } else {
        base + seq![0x2Fu8] + component
    }
}

/// Mathematical form of a [`Plan`].
pub struct PlanSpec {
    pub dirs: Seq<Seq<u8>>,
    pub refusal: Option<InvalidInput>,
}

/// The directories to create for the components `components` below `base`,
/// taken from left to right. Empty components and `.` are passed over. Each
/// other component is appended to the path so far, and the result is a
/// directory to create. The walk stops at a `..`, and at a path that holds
/// a zero byte.
pub open spec fn spec_plan(components: Seq<Seq<u8>>, base: Seq<u8>) -> PlanSpec
    decreases components.len(),
{
    if components.len() == 0 {
        PlanSpec { dirs: Seq::empty(), refusal: None }
    } else {
        let first = components.first();
        if first == seq![0x2Eu8, 0x2Eu8] {
            PlanSpec { dirs: Seq::empty(), refusal: Some(InvalidInput::ParentDir) }
        } else if !spec_is_normal(first) {
            spec_plan(components.drop_first(), base)
        } else if spec_has_nul(spec_joined(base, first)) {
            PlanSpec { dirs: Seq::empty(), refusal: Some(InvalidInput::NulInPath) }
        } else {
            let rest = spec_plan(components.drop_first(), spec_joined(base, first));
            PlanSpec { dirs: seq![spec_joined(base, first)] + rest.dirs, refusal: rest.refusal }
        }
    }
}

/// The path from which the walk over `path` starts: the root for an
/// absolute path, nothing for a relative one.
pub open spec fn spec_base(path: Seq<u8>) -> Seq<u8> {
    if path.len() > 0 && path[0] == 0x2F {
        seq![0x2Fu8]
    } else {
        Seq::empty()
    }
}

/// What creating a directory and all its missing parents takes.
pub struct Plan {
    /// The directories to create, outermost first, each as the bytes of its
    /// path. A directory that exists already is no failure.
    pub dirs: Vec<Vec<u8>>,
    /// Why the path is refused once these directories are made, if it is.
    pub refusal: Option<InvalidInput>,
}

impl View for Plan {
    type V = PlanSpec;

    open spec fn view(&self) -> PlanSpec {
        PlanSpec {
            dirs: Seq::new(self.dirs@.len(), |k: int| self.dirs@[k]@),
            refusal: self.refusal,
        }
    }
}

/// Reads libc's constant `EEXIST`, the error number for "file exists". Its
/// value belongs to the platform, so nothing is claimed about it.
#[verifier::external_body]
fn errno_exists() -> (code: i32) {
    libc::EEXIST
}

/// Whether `bytes` holds a zero byte.
fn bytes_have_nul(bytes: &Vec<u8>) -> (found: bool)
    ensures
        found == spec_has_nul(bytes@),
{
    let mut i: usize = 0;
    while i < bytes.len()
        invariant
            i <= bytes@.len(),
            forall|j: int| 0 <= j < i ==> bytes@[j] != 0,
        decreases bytes@.len() - i,
    {
        if bytes[i] == 0 {
            return true;
        }
        i += 1;
    }
    false
}

/// A directory, known by its path.
pub struct Folder {
    path: String,
}

impl View for Folder {
    type V = Seq<char>;

    closed spec fn view(&self) -> Seq<char> {
        self.path@
    }
}

impl Folder {
    /// Creates the directory `path`, whose parent must exist.
    ///
    /// A path with a zero byte is refused before any call is made. Otherwise
    /// `mkdir` is called once with the path and the permission bits, and
    /// returns what the system call returned and the error number it left; a
    /// negative return value becomes the error with that number.
    pub fn create<S: FnOnce(&str, u32) -> (i32, i32)>(path: &str, mkdir: S) -> (created: Result<
        Folder,
        IoError,
    >)
        requires
            call_requires(mkdir, (path, CREATE_MODE)),
        ensures
            spec_has_nul(path.spec_bytes()) ==> created == Err::<Folder, IoError>(
                IoError::InvalidInput(InvalidInput::NulInPath),
            ),
            !spec_has_nul(path.spec_bytes()) ==> exists|ret: i32, errno: i32|
                {
                    &&& call_ensures(mkdir, (path, CREATE_MODE), (ret, errno))
                    &&& ret < 0 ==> created == Err::<Folder, IoError>(IoError::Os(errno))
                    &&& ret >= 0 ==> created is Ok && created->Ok_0@ == path@
                },
    {
        if has_nul(path) {
            return Err(IoError::InvalidInput(InvalidInput::NulInPath));
        }
        let (ret, errno) = mkdir(path, CREATE_MODE);
        proof {
            assert(call_ensures(mkdir, (path, CREATE_MODE), (ret, errno)));
        }
        if ret < 0 {
            return Err(IoError::Os(errno));
        }
        Ok(Folder { path: path.to_owned() })
    }

    /// Works out what creating `path` and all its missing parents takes.
    ///
    /// An empty path is refused. Otherwise the path is cut at its slashes
    /// and walked from the left, starting at the root if the path is
    /// absolute; the plan lists the directory of each component in turn. A
    /// `..` component, or a zero byte in a directory's path, ends the walk:
    /// the directories before it are still to be made, and the plan says
    /// why the path is refused after them.
    pub fn create_all(path: &str) -> (planned: Result<Plan, IoError>)
        ensures
            path.spec_bytes().len() == 0 ==> planned == Err::<Plan, IoError>(
                IoError::InvalidInput(InvalidInput::EmptyPath),
            ),
            path.spec_bytes().len() > 0 ==> planned is Ok && planned->Ok_0@ == spec_plan(
                spec_split(path.spec_bytes(), 0x2F),
                spec_base(path.spec_bytes()),
            ),
    {
        let bytes = path.as_bytes();
        let end: usize = bytes.len();
        if end == 0 {
            return Err(IoError::InvalidInput(InvalidInput::EmptyPath));
        }
        assert(bytes@.take(end as int) =~= bytes@);
        let cuts: Vec<(usize, usize)> = split(bytes, end, 0x2F);
        let ghost components = spec_split(bytes@, 0x2F);
        let mut base: Vec<u8> = Vec::new();
        if bytes[0] == 0x2F {
            base.push(0x2F);
        }
        assert(base@ =~= spec_base(bytes@));
        let ghost total = spec_plan(components, base@);
        let mut dirs: Vec<Vec<u8>> = Vec::new();
        let mut refusal: Option<InvalidInput> = None;
        let mut k: usize = 0;
        assert(components.skip(0) =~= components);
        while k < cuts.len()
            invariant_except_break
                refusal is None,
                total == (PlanSpec {
                    dirs: Seq::new(dirs@.len(), |n: int| dirs@[n]@) + spec_plan(
                        components.skip(k as int),
                        base@,
                    ).dirs,
                    refusal: spec_plan(components.skip(k as int), base@).refusal,
                }),
            invariant
                k <= cuts@.len(),
                end == bytes@.len(),
                cuts@.len() == components.len(),
                forall|n: int|
                    0 <= n < cuts@.len() ==> (#[trigger] cuts@[n]).0 <= cuts@[n].1 <= end,
                forall|n: int|
                    0 <= n < cuts@.len() ==> components[n] == bytes@.subrange(
                        (#[trigger] cuts@[n]).0 as int,
                        cuts@[n].1 as int,
                    ),
            ensures
                total == (PlanSpec {
                    dirs: Seq::new(dirs@.len(), |n: int| dirs@[n]@),
                    refusal,
                }),
            decreases cuts@.len() - k,
        {
            let (from, to) = cuts[k];
            let ghost rest = components.skip(k as int);
            let ghost first = components[k as int];
            let ghost done = Seq::new(dirs@.len(), |n: int| dirs@[n]@);
            proof {
                assert(cuts@[k as int].0 <= cuts@[k as int].1 <= end);
                assert(rest.first() == first);
                assert(rest.drop_first() =~= components.skip(k + 1));
                assert(first == bytes@.subrange(from as int, to as int));
            }
            let len: usize = to - from;
            let dots: bool = len == 2 && bytes[from] == 0x2E && bytes[from + 1] == 0x2E;
            assert(dots == (first == seq![0x2Eu8, 0x2Eu8])) by {
                if dots {
                    assert(first =~= seq![0x2Eu8, 0x2Eu8]);
                } else if first == seq![0x2Eu8, 0x2Eu8] {
                    assert(first[0] == 0x2E && first[1] == 0x2E);
                }
            }
            if dots {
                refusal = Some(InvalidInput::ParentDir);
                assert(done + Seq::<Seq<u8>>::empty() =~= done);
                break ;
            }
            let dot: bool = len == 1 && bytes[from] == 0x2E;
            assert(dot == (first == seq![0x2Eu8])) by {
                if dot {
                    assert(first =~= seq![0x2Eu8]);
                } else if first == seq![0x2Eu8] {
                    assert(first[0] == 0x2E);
                }
            }
            if len == 0 || dot {
                assert(!spec_is_normal(first));
                k += 1;
                continue ;
            }
            assert(spec_is_normal(first));
            let ghost before = base@;
            let needs_slash: bool = base.len() > 0 && base[base.len() - 1] != 0x2F;
            if needs_slash {
                base.push(0x2F);
            }
            let mut i: usize = from;
            while i < to
                invariant
                    from <= i <= to <= bytes@.len(),
                    base@ == (if needs_slash {
                        before + seq![0x2Fu8]
                    } else {
                        before
                    }) + bytes@.subrange(from as int, i as int),
                decreases to - i,
            {
                base.push(bytes[i]);
                assert(bytes@.subrange(from as int, i + 1) =~= bytes@.subrange(
                    from as int,
                    i as int,
                ).push(bytes@[i as int]));
                i += 1;
            }
            assert(base@ =~= spec_joined(before, first));
            if bytes_have_nul(&base) {
                refusal = Some(InvalidInput::NulInPath);
                assert(done + Seq::<Seq<u8>>::empty() =~= done);
                break ;
            }
            let mut dir: Vec<u8> = Vec::new();
            dir.extend_from_slice(base.as_slice());
            assert(dir@ =~= base@);
            dirs.push(dir);
            proof {
                let now = Seq::new(dirs@.len(), |n: int| dirs@[n]@);
                assert(now =~= done + seq![base@]);
                let tail = spec_plan(components.skip(k + 1), base@);
                assert(spec_plan(rest, before).dirs == seq![base@] + tail.dirs);
                assert(done + (seq![base@] + tail.dirs) =~= now + tail.dirs);
            }
            k += 1;
        }
        proof {
            if refusal is None {
                assert(components.skip(cuts@.len() as int) =~= Seq::<Seq<u8>>::empty());
                let done = Seq::new(dirs@.len(), |n: int| dirs@[n]@);
                assert(done + Seq::<Seq<u8>>::empty() =~= done);
            }
        }
        Ok(Plan { dirs, refusal })
    }

    /// Reads the outcome of one `mkdir` of a plan: `ret` is what the call
    /// returned and `errno` the error number it left, `present` the error
    /// number for a directory that is there already. A failure for any
    /// other reason ends the work with that error.
    pub fn made_with(ret: i32, errno: i32, present: i32) -> (made: Result<(), IoError>)
        ensures
            made == if ret < 0 && errno != present {
                Err::<(), IoError>(IoError::Os(errno))
            } else {
                Ok::<(), IoError>(())
            },
    {
        if ret < 0 && errno != present {
            Err(IoError::Os(errno))
        } else {
            Ok(())
        }
    }

    /// Reads the outcome of one `mkdir` of a plan, with the platform's error
    /// number for a directory that is there already. A call that did not
    /// fail is fine whatever that number is; a failed call is either passed
    /// over or ends the work with its error number.
    pub fn made(ret: i32, errno: i32) -> (made: Result<(), IoError>)
        ensures
            ret >= 0 ==> made == Ok::<(), IoError>(()),
            ret < 0 ==> made == Ok::<(), IoError>(()) || made == Err::<(), IoError>(
                IoError::Os(errno),
            ),
    {
        Folder::made_with(ret, errno, errno_exists())
    }

    /// The directory at `path`, once it is known to be there.
    pub fn new(path: &str) -> (folder: Folder)
        ensures
            folder@ == path@,
    {
        Folder { path: path.to_owned() }
    }

    /// The path of the directory, as it was given.
    pub fn path(&self) -> (path: &str)
        ensures
            path@ == self@,
    {
        self.path.as_str()
    }
}

} // verus!
