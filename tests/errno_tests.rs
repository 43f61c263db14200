use nixcore::errno::{result, Errno, Error};

#[test]
fn errno_numbers_match_the_platform() {
    assert_eq!(Errno::EPERM.as_i32(), libc::EPERM);
    assert_eq!(Errno::ENOENT.as_i32(), libc::ENOENT);
    assert_eq!(Errno::EINTR.as_i32(), libc::EINTR);
    assert_eq!(Errno::ECHILD.as_i32(), libc::ECHILD);
    assert_eq!(Errno::EAGAIN.as_i32(), libc::EAGAIN);
    assert_eq!(Errno::EEXIST.as_i32(), libc::EEXIST);
    assert_eq!(Errno::EISDIR.as_i32(), libc::EISDIR);
    assert_eq!(Errno::EINVAL.as_i32(), libc::EINVAL);
    assert_eq!(Errno::ESPIPE.as_i32(), libc::ESPIPE);
    assert_eq!(Errno::ENAMETOOLONG.as_i32(), libc::ENAMETOOLONG);
    assert_eq!(Errno::ELOOP.as_i32(), libc::ELOOP);
    assert_eq!(Errno::ENOMSG.as_i32(), libc::ENOMSG);
    assert_eq!(Errno::EOVERFLOW.as_i32(), libc::EOVERFLOW);
    assert_eq!(Errno::EDQUOT.as_i32(), libc::EDQUOT);
    assert_eq!(Errno::ETIMEDOUT.as_i32(), libc::ETIMEDOUT);
    assert_eq!(Errno::EOPNOTSUPP.as_i32(), libc::EOPNOTSUPP);
    assert_eq!(Errno::EHWPOISON.as_i32(), libc::EHWPOISON);
    assert_eq!(Errno::from_i32(libc::EOVERFLOW), Errno::EOVERFLOW);
    assert_eq!(Errno::from_i32(libc::EDQUOT), Errno::EDQUOT);
    assert_eq!(Errno::UnknownErrno.as_i32(), 0);
}

#[test]
fn errno_round_trips_through_numbers() {
    for code in 1..=133 {
        if code == 41 || code == 58 {
            assert_eq!(Errno::from_i32(code), Errno::UnknownErrno);
        } else {
            assert_eq!(Errno::from_i32(code).as_i32(), code);
        }
    }
}

#[test]
fn unknown_errno_numbers() {
    assert_eq!(Errno::from_i32(0), Errno::UnknownErrno);
    assert_eq!(Errno::from_i32(134), Errno::UnknownErrno);
    assert_eq!(Errno::from_i32(-3), Errno::UnknownErrno);
    assert_eq!(Errno::from_i32(4095), Errno::UnknownErrno);
}

#[test]
fn result_classifies_return_values() {
    assert_eq!(result(-1, libc::EAGAIN), Err(Errno::EAGAIN));
    assert_eq!(result(-1, libc::ENOENT), Err(Errno::ENOENT));
    assert_eq!(result(-1, libc::EOVERFLOW), Err(Errno::EOVERFLOW));
    assert_eq!(result(0, libc::ENOENT), Ok(0));
    assert_eq!(result(7, 0), Ok(7));
    assert_eq!(result(-2, libc::EINTR), Ok(-2));
}

#[test]
fn error_wraps_errno() {
    assert_eq!(Error::from_errno(Errno::EACCES), Error::Sys(Errno::EACCES));
    assert_eq!(Error::Sys(Errno::EIO).as_errno(), Some(Errno::EIO));
    assert_eq!(Error::InvalidPath.as_errno(), None);
    assert_eq!(Error::UnsupportedOperation.as_errno(), None);
}
