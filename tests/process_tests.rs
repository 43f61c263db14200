use nixcore::errno::{Errno, Error};
use nixcore::signal::Signal;
use nixcore::unistd::{
    at_rawfd, limit_from_raw, offset_from_raw, pid_or_self, pipe_from_raw, resolve_at, to_c_path,
    ForkResult, Gid, Pid, Uid, Whence, AT_FDCWD,
};
use nixcore::unistd::{next_cwd_step, CwdStep, GETCWD_INITIAL_CAPACITY};
use nixcore::wait::WaitStatus;

#[test]
fn fork_results() {
    assert_eq!(ForkResult::from_raw(0, 0), Ok(ForkResult::Child));
    let p = ForkResult::from_raw(4321, 0).unwrap();
    assert_eq!(p, ForkResult::Parent { child: Pid::from_raw(4321) });
    assert!(p.is_parent());
    assert!(!p.is_child());
    assert!(ForkResult::Child.is_child());
    assert_eq!(ForkResult::from_raw(-1, libc::EAGAIN), Err(Errno::EAGAIN));
    assert_eq!(ForkResult::from_raw(-1, libc::ENOMEM), Err(Errno::ENOMEM));
}

#[test]
fn reaping_an_exited_child() {
    let child = Pid::from_raw(777);
    assert_eq!(WaitStatus::from_waitpid(777, 0, 0), Ok(WaitStatus::Exited(child, 0)));
    assert_eq!(WaitStatus::from_waitpid(777, 3 << 8, 0), Ok(WaitStatus::Exited(child, 3)));
    assert_eq!(WaitStatus::from_waitpid(777, 255 << 8, 0), Ok(WaitStatus::Exited(child, 255)));
    assert_eq!(WaitStatus::from_waitpid(777, 0, 0).unwrap().pid(), Some(child));
}

#[test]
fn wait_status_kinds() {
    let p = Pid::from_raw(10);
    assert_eq!(WaitStatus::from_raw(p, libc::SIGKILL), Ok(WaitStatus::Signaled(p, Signal::SIGKILL, false)));
    assert_eq!(WaitStatus::from_raw(p, libc::SIGSEGV | 0x80), Ok(WaitStatus::Signaled(p, Signal::SIGSEGV, true)));
    assert_eq!(WaitStatus::from_raw(p, (libc::SIGSTOP << 8) | 0x7f), Ok(WaitStatus::Stopped(p, Signal::SIGSTOP)));
    assert_eq!(WaitStatus::from_raw(p, 0xffff), Ok(WaitStatus::Continued(p)));
    assert_eq!(WaitStatus::from_raw(p, (libc::SIGTSTP << 8) | 0x7f), Ok(WaitStatus::Stopped(p, Signal::SIGTSTP)));
    assert_eq!(WaitStatus::from_raw(p, 0x857f), Ok(WaitStatus::PtraceSyscall(p)));
    assert_eq!(WaitStatus::from_raw(p, (1 << 16) | (libc::SIGTRAP << 8) | 0x7f),
               Ok(WaitStatus::PtraceEvent(p, Signal::SIGTRAP, 1)));
    // signal 40 is a real-time signal, which has no variant
    assert_eq!(WaitStatus::from_raw(p, 40), Err(Errno::EINVAL));
    assert_eq!(WaitStatus::from_raw(p, 0xff7f), Err(Errno::EINVAL));
}

#[test]
fn waitpid_results() {
    assert_eq!(WaitStatus::from_waitpid(0, 0, 0), Ok(WaitStatus::StillAlive));
    assert_eq!(WaitStatus::StillAlive.pid(), None);
    assert_eq!(WaitStatus::from_waitpid(-1, 0, libc::ECHILD), Err(Errno::ECHILD));
    assert_eq!(WaitStatus::from_waitpid(-1, 0, libc::EINTR), Err(Errno::EINTR));
}

#[test]
fn identifiers() {
    assert_eq!(Pid::from_raw(42).as_raw(), 42);
    assert_eq!(pid_or_self(None), 0);
    assert_eq!(pid_or_self(Some(Pid::from_raw(9))), 9);
    assert!(Uid::from_raw(0).is_root());
    assert!(!Uid::from_raw(1000).is_root());
    assert_eq!(Uid::from_raw(1000).as_raw(), 1000);
    assert_eq!(Gid::from_raw(123).as_raw(), 123);
}

#[test]
fn directory_relative_paths() {
    assert_eq!(AT_FDCWD, libc::AT_FDCWD);
    assert_eq!(at_rawfd(None), libc::AT_FDCWD);
    assert_eq!(at_rawfd(Some(5)), 5);
    assert_eq!(resolve_at(b"/tmp/dir", b"test_path"), b"/tmp/dir/test_path".to_vec());
    assert_eq!(resolve_at(b"/tmp/dir/", b"foo"), b"/tmp/dir/foo".to_vec());
    assert_eq!(resolve_at(b"/tmp/dir", b"/bin/sh"), b"/bin/sh".to_vec());
    assert_eq!(resolve_at(b"/", b"/bin/sh"), b"/bin/sh".to_vec());
    assert_eq!(resolve_at(b"/bin", b"./sh"), b"/bin/./sh".to_vec());
    assert_eq!(resolve_at(b"/bin/sh", b""), b"/bin/sh".to_vec());
}

#[test]
fn c_paths() {
    assert_eq!(to_c_path(b"/tmp/x"), Ok(b"/tmp/x\0".to_vec()));
    assert_eq!(to_c_path(b""), Ok(vec![0u8]));
    assert_eq!(to_c_path(b"a\0b"), Err(Error::InvalidPath));
    let long = vec![b'a'; libc::PATH_MAX as usize];
    assert_eq!(to_c_path(&long), Err(Error::InvalidPath));
    let just = vec![b'a'; libc::PATH_MAX as usize - 1];
    assert_eq!(to_c_path(&just).unwrap().len(), libc::PATH_MAX as usize);
}

#[test]
fn limits() {
    assert_eq!(limit_from_raw(4096, 0), Ok(Some(4096)));
    assert_eq!(limit_from_raw(-1, 0), Ok(None));
    assert_eq!(limit_from_raw(-1, libc::EINVAL), Err(Errno::EINVAL));
}

#[test]
fn seeking() {
    assert_eq!(Whence::SeekSet.to_raw(), libc::SEEK_SET);
    assert_eq!(Whence::SeekCur.to_raw(), libc::SEEK_CUR);
    assert_eq!(Whence::SeekEnd.to_raw(), libc::SEEK_END);
    assert_eq!(Whence::SeekData.to_raw(), libc::SEEK_DATA);
    assert_eq!(Whence::SeekHole.to_raw(), libc::SEEK_HOLE);
    assert_eq!(offset_from_raw(5, 0), Ok(5));
    // a pipe cannot seek
    assert_eq!(offset_from_raw(-1, libc::ESPIPE), Err(Errno::ESPIPE));
}

#[test]
fn pipes() {
    assert_eq!(pipe_from_raw(0, [3, 4], 0), Ok((3, 4)));
    assert_eq!(pipe_from_raw(-1, [0, 0], libc::EMFILE), Err(Errno::EMFILE));
}

#[test]
fn exists_error_is_classified() {
    // the error number that `mkfifo` sets for a path that is a directory
    assert_eq!(nixcore::errno::result(-1, libc::EEXIST), Err(Errno::EEXIST));
}

#[test]
fn getcwd_buffer_growth() {
    assert_eq!(next_cwd_step(GETCWD_INITIAL_CAPACITY, true, 0), CwdStep::Done);
    assert_eq!(next_cwd_step(512, false, libc::ERANGE), CwdStep::Retry(1024));
    assert_eq!(next_cwd_step(1024, false, libc::ERANGE), CwdStep::Retry(2048));
    assert_eq!(next_cwd_step(512, false, libc::EACCES), CwdStep::Fail(Errno::EACCES));
    assert_eq!(next_cwd_step(usize::MAX, false, libc::ERANGE), CwdStep::Fail(Errno::ERANGE));
}
