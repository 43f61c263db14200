use vstd::prelude::*;
use crate::errno::{Errno, Error, classify, errno_of};

verus! {

/// A process identifier.
#[derive(Clone, Copy, Debug, PartialEq, Eq, Structural, Hash)]
pub struct Pid {
    raw: i32,
}

impl View for Pid {
    type V = i32;

    closed spec fn view(&self) -> i32 {
        self.raw
    }
}

impl Pid {
    /// The identifier with this native value.
    pub closed spec fn spec_from_raw(raw: i32) -> Pid {
        Pid { raw }
    }

    /// The identifier with this native value.
    pub fn from_raw(raw: i32) -> (r: Pid)
        ensures
            r == Pid::spec_from_raw(raw),
            r@ == raw,
    {
        Pid { raw }
    }

    /// The native value.
    pub fn as_raw(self) -> (r: i32)
        ensures
            r == self@,
    {
        self.raw
    }
}

/// A process identifier survives the trip through its native value, both ways.
pub proof fn pid_raw_round_trip(raw: i32, p: Pid)
    ensures
        Pid::spec_from_raw(raw)@ == raw,
        Pid::spec_from_raw(p@) == p,
{
}

/// A user identifier.
#[derive(Clone, Copy, Debug, PartialEq, Eq, Structural, Hash)]
pub struct Uid {
    raw: u32,
}

impl View for Uid {
    type V = u32;

    closed spec fn view(&self) -> u32 {
        self.raw
    }
}

impl Uid {
    /// The identifier with this native value.
    pub fn from_raw(raw: u32) -> (r: Uid)
        ensures
            r@ == raw,
    {
        Uid { raw }
    }

    /// The native value.
    pub fn as_raw(self) -> (r: u32)
        ensures
            r == self@,
    {
        self.raw
    }

    /// Whether this is the superuser, whose identifier is 0.
    pub fn is_root(self) -> (r: bool)
        ensures
            r == (self@ == 0),
    {
        self.raw == 0
    }
}

/// A group identifier.
#[derive(Clone, Copy, Debug, PartialEq, Eq, Structural, Hash)]
pub struct Gid {
    raw: u32,
}

impl View for Gid {
    type V = u32;

    closed spec fn view(&self) -> u32 {
        self.raw
    }
}

impl Gid {
    /// The identifier with this native value.
    pub fn from_raw(raw: u32) -> (r: Gid)
        ensures
            r@ == raw,
    {
        Gid { raw }
    }

    /// The native value.
    pub fn as_raw(self) -> (r: u32)
        ensures
            r == self@,
    {
        self.raw
    }
}

/// The side of a `fork` that a process is on.
#[derive(Clone, Copy, Debug, PartialEq, Eq, Structural)]
pub enum ForkResult {
    /// The original process, told the identifier of the new one.
    Parent { child: Pid },
    /// The new process.
    Child,
}

/// What the raw return value of `fork` means: `-1` is the error in `errno`,
/// `0` is the child's side, any other value is the child's identifier.
pub open spec fn fork_outcome(ret: i32, errno: i32) -> Result<ForkResult, Errno> {
    if ret == -1 {
        Err(errno_of(errno))
    } else if ret == 0 {
        Ok(ForkResult::Child)
    } else {
        Ok(ForkResult::Parent { child: Pid::spec_from_raw(ret) })
    }
}

impl ForkResult {
    /// Reads the raw return value of `fork` (and `errno`, on failure).
    pub fn from_raw(ret: i32, errno: i32) -> (r: Result<ForkResult, Errno>)
        ensures
            r == fork_outcome(ret, errno),
    {
        if ret == -1 {
            Err(Errno::from_i32(errno))
        } else if ret == 0 {
            Ok(ForkResult::Child)
        } else {
            Ok(ForkResult::Parent { child: Pid::from_raw(ret) })
        }
    }

    /// Whether this is the new process.
    pub fn is_child(&self) -> (r: bool)
        ensures
            r == (*self is Child),
    {
        match self {
            ForkResult::Child => true,
            ForkResult::Parent { .. } => false,
        }
    }

    /// Whether this is the original process.
    pub fn is_parent(&self) -> (r: bool)
        ensures
            r == (*self is Parent),
    {
        !self.is_child()
    }
}

/// The native process argument for an optional identifier: `None` is 0,
/// which the operating system reads as the calling process.
pub open spec fn pid_arg(pid: Option<Pid>) -> i32 {
    match pid {
        Some(p) => p@,
        None => 0,
    }
}

/// The native process argument of `getsid` and its kin.
pub fn pid_or_self(pid: Option<Pid>) -> (r: i32)
    ensures
        r == pid_arg(pid),
{
    match pid {
        Some(p) => p.as_raw(),
        None => 0,
    }
}

/// The native sentinel that names the current working directory in the
/// operations relative to a directory descriptor.
pub const AT_FDCWD: i32 = -100;

/// The native directory argument of an operation relative to a directory
/// descriptor: `None` is the current working directory.
pub fn at_rawfd(fd: Option<i32>) -> (r: i32)
    ensures
        r == (match fd {
            Some(f) => f,
            None => AT_FDCWD,
        }),
{
    match fd {
        Some(f) => f,
        None => AT_FDCWD,
    }
}

/// The byte of `/`.
pub const SLASH: u8 = 0x2f;

/// A model of how the kernel resolves the path of an operation relative to
/// a directory: the path reached for `path` from directory `dir`. An absolute
/// path stands for itself, an empty one for the directory, and a relative one
/// is taken inside the directory.
pub open spec fn at_path(dir: Seq<u8>, path: Seq<u8>) -> Seq<u8> {
    if path.len() > 0 && path[0] == SLASH {
        path
    } else if path.len() == 0 {
        dir
    } else if dir.len() > 0 && dir[dir.len() - 1] == SLASH {
        dir + path
    } else {
        dir + seq![SLASH] + path
    }
}

fn push_all(out: &mut Vec<u8>, src: &[u8])
    ensures
        final(out)@ == old(out)@ + src@,
{
    let mut i: usize = 0;
    while i < src.len()
        invariant
            i <= src@.len(),
            out@ == old(out)@ + src@.subrange(0, i as int),
        decreases src@.len() - i,
    {
        out.push(src[i]);
        i = i + 1;
        assert(src@.subrange(0, i as int) =~= src@.subrange(0, i - 1) + seq![src@[i - 1]]);
    }
    assert(src@.subrange(0, src@.len() as int) =~= src@);
}

/// Computes the path that the kernel reaches for `path` from directory `dir`,
/// by the model [`at_path`]; the `*at` calls themselves resolve in the kernel.
pub fn resolve_at(dir: &[u8], path: &[u8]) -> (r: Vec<u8>)
    ensures
        r@ == at_path(dir@, path@),
{
    let mut out: Vec<u8> = Vec::new();
    if path.len() > 0 && path[0] == SLASH {
        push_all(&mut out, path);
    } else if path.len() == 0 {
        push_all(&mut out, dir);
    } else {
        push_all(&mut out, dir);
        if !(dir.len() > 0 && dir[dir.len() - 1] == SLASH) {
            out.push(SLASH);
        }
        push_all(&mut out, path);
    }
    assert(out@ =~= at_path(dir@, path@));
    out
}

/// An absolute path reaches the same place whatever the directory.
pub proof fn at_path_absolute_ignores_dir(dir1: Seq<u8>, dir2: Seq<u8>, path: Seq<u8>)
    requires
        path.len() > 0,
        path[0] == SLASH,
    ensures
        at_path(dir1, path) == path,
        at_path(dir1, path) == at_path(dir2, path),
{
}

/// A relative path reaches the directory's path, a `/`, then the relative path.
pub proof fn at_path_relative_joins(dir: Seq<u8>, path: Seq<u8>)
    requires
        path.len() > 0,
        path[0] != SLASH,
        dir.len() > 0,
        dir[dir.len() - 1] != SLASH,
    ensures
        at_path(dir, path) == dir + seq![SLASH] + path,
        at_path(dir, path).subrange(0, dir.len() as int) == dir,
        at_path(dir, path)[dir.len() as int] == SLASH,
        at_path(dir, path).subrange(dir.len() as int + 1, at_path(dir, path).len() as int) == path,
{
    let r = dir + seq![SLASH] + path;
    assert(r.subrange(0, dir.len() as int) =~= dir);
    assert(r.subrange(dir.len() as int + 1, r.len() as int) =~= path);
}

/// The longest path, terminating NUL included, that the platform takes.
pub const PATH_MAX: usize = 4096;

/// Whether a path can be handed to the operating system: shorter than
/// `PATH_MAX` and free of NUL bytes.
pub open spec fn path_ok(path: Seq<u8>) -> bool {
    path.len() < PATH_MAX && forall|i: int| 0 <= i < path.len() ==> path[i] != 0
}

/// The NUL-terminated form of a path, or `InvalidPath` where it is too long or
/// holds a NUL byte.
pub fn to_c_path(path: &[u8]) -> (r: Result<Vec<u8>, Error>)
    ensures
        r is Ok <==> path_ok(path@),
        r is Ok ==> r.unwrap()@ == path@.push(0),
        r is Err ==> r == Err::<Vec<u8>, Error>(Error::InvalidPath),
{
    if path.len() >= PATH_MAX {
        return Err(Error::InvalidPath);
    }
    let mut out: Vec<u8> = Vec::with_capacity(path.len() + 1);
    let mut i: usize = 0;
    while i < path.len()
        invariant
            i <= path@.len(),
            path@.len() < PATH_MAX,
            out@ == path@.subrange(0, i as int),
            forall|k: int| 0 <= k < i ==> path@[k] != 0,
        decreases path@.len() - i,
    {
        if path[i] == 0 {
            return Err(Error::InvalidPath);
        }
        out.push(path[i]);
        i = i + 1;
        assert(out@ =~= path@.subrange(0, i as int));
    }
    out.push(0);
    assert(out@ =~= path@.push(0));
    Ok(out)
}

/// What the raw result of `sysconf`, `pathconf` or `fpathconf` means, with
/// `errno` cleared before the call: `-1` with `errno` still 0 is a limit that
/// does not exist (`None`), `-1` with `errno` set is that error, any other
/// value is the limit.
pub open spec fn limit_outcome(raw: i64, errno: i32) -> Result<Option<i64>, Errno> {
    if raw == -1 {
        if errno == 0 {
            Ok(None)
        } else {
            Err(errno_of(errno))
        }
    } else {
        Ok(Some(raw))
    }
}

/// Reads the raw result of `sysconf`, `pathconf` or `fpathconf`.
pub fn limit_from_raw(raw: i64, errno: i32) -> (r: Result<Option<i64>, Errno>)
    ensures
        r == limit_outcome(raw, errno),
{
    if raw == -1 {
        if errno == 0 {
            Ok(None)
        } else {
            Err(Errno::from_i32(errno))
        }
    } else {
        Ok(Some(raw))
    }
}

/// The origin of a seek.
#[derive(Clone, Copy, Debug, PartialEq, Eq, Structural)]
pub enum Whence {
    /// From the start of the file.
    SeekSet,
    /// From the current offset.
    SeekCur,
    /// From the end of the file.
    SeekEnd,
    /// To the next data at or after the offset.
    SeekData,
    /// To the next hole at or after the offset.
    SeekHole,
}

impl Whence {
    /// The native value (`SEEK_SET` and its kin).
    pub fn to_raw(self) -> (r: i32)
        ensures
            r == (match self {
                Whence::SeekSet => 0i32,
                Whence::SeekCur => 1i32,
                Whence::SeekEnd => 2i32,
                Whence::SeekData => 3i32,
                Whence::SeekHole => 4i32,
            }),
    {
        match self {
            Whence::SeekSet => 0,
            Whence::SeekCur => 1,
            Whence::SeekEnd => 2,
            Whence::SeekData => 3,
            Whence::SeekHole => 4,
        }
    }
}

/// Reads the raw result of `lseek`: the new offset, or the error in `errno`
/// (`ESPIPE` on a descriptor that cannot seek, such as a pipe).
pub fn offset_from_raw(raw: i64, errno: i32) -> (r: Result<i64, Errno>)
    ensures
        r == classify(raw, errno),
        r is Ok ==> r.unwrap() == raw,
{
    crate::errno::result(raw, errno)
}

/// Reads the raw result of `pipe`/`pipe2` and the two descriptors it filled:
/// the read end first, then the write end.
pub fn pipe_from_raw(ret: i32, fds: [i32; 2], errno: i32) -> (r: Result<(i32, i32), Errno>)
    ensures
        ret == -1 ==> r == Err::<(i32, i32), Errno>(errno_of(errno)),
        ret != -1 ==> r == Ok::<(i32, i32), Errno>((fds[0], fds[1])),
{
    if ret == -1 {
        Err(Errno::from_i32(errno))
    } else {
        Ok((fds[0], fds[1]))
    }
}

/// The buffer size of the first `getcwd` attempt.
pub const GETCWD_INITIAL_CAPACITY: usize = 512;

/// What to do after a `getcwd` attempt with a buffer of `cap` bytes.
#[derive(Clone, Copy, Debug, PartialEq, Eq, Structural)]
pub enum CwdStep {
    /// The path fit: the buffer holds it.
    Done,
    /// The buffer was too small (`ERANGE`): try again with this size.
    Retry(usize),
    /// Give up with this error.
    Fail(Errno),
}

/// The decision after a `getcwd` attempt: done on success; on `ERANGE` retry
/// with twice the buffer, unless that size does not fit in `usize`, where the
/// `ERANGE` is reported; any other error is reported.
pub open spec fn cwd_step(cap: usize, succeeded: bool, errno: i32) -> CwdStep {
    if succeeded {
        CwdStep::Done
    } else if errno_of(errno) != Errno::ERANGE {
        CwdStep::Fail(errno_of(errno))
    } else if cap <= usize::MAX / 2 {
        CwdStep::Retry((cap * 2) as usize)
    } else {
        CwdStep::Fail(Errno::ERANGE)
    }
}

/// Decides what follows a `getcwd` attempt with a buffer of `cap` bytes.
pub fn next_cwd_step(cap: usize, succeeded: bool, errno: i32) -> (r: CwdStep)
    requires
        cap > 0,
    ensures
        r == cwd_step(cap, succeeded, errno),
        r matches CwdStep::Retry(n) ==> n > cap,
{
    if succeeded {
        CwdStep::Done
    } else {
        let e = Errno::from_i32(errno);
        if e != Errno::ERANGE {
            CwdStep::Fail(e)
        } else if cap <= usize::MAX / 2 {
            CwdStep::Retry(cap * 2)
        } else {
            CwdStep::Fail(Errno::ERANGE)
        }
    }
}

} // verus!
