use nixcore::flags::{AccessMode, AtFlags, FdFlag, Mode, OFlag, SFlag, SaFlags, WaitPidFlag};

#[test]
fn flag_values_match_the_platform() {
    assert_eq!(OFlag::O_CLOEXEC().bits(), libc::O_CLOEXEC);
    assert_eq!(OFlag::O_CREAT().bits(), libc::O_CREAT);
    assert_eq!(OFlag::O_NONBLOCK().bits(), libc::O_NONBLOCK);
    assert_eq!(OFlag::O_DIRECTORY().bits(), libc::O_DIRECTORY);
    assert_eq!(OFlag::O_SYNC().bits(), libc::O_SYNC);
    assert_eq!(OFlag::O_TMPFILE().bits(), libc::O_TMPFILE);
    assert_eq!(OFlag::O_PATH().bits(), libc::O_PATH);
    assert_eq!(AccessMode::R_OK().bits(), libc::R_OK);
    assert_eq!(AccessMode::W_OK().bits(), libc::W_OK);
    assert_eq!(AccessMode::X_OK().bits(), libc::X_OK);
    assert_eq!(AtFlags::AT_EMPTY_PATH().bits(), libc::AT_EMPTY_PATH);
    assert_eq!(AtFlags::AT_REMOVEDIR().bits(), libc::AT_REMOVEDIR);
    assert_eq!(AtFlags::AT_SYMLINK_NOFOLLOW().bits(), libc::AT_SYMLINK_NOFOLLOW);
    assert_eq!(SaFlags::SA_RESTART().bits(), libc::SA_RESTART);
    assert_eq!(SaFlags::SA_SIGINFO().bits(), libc::SA_SIGINFO);
    assert_eq!(SaFlags::SA_RESETHAND().bits(), libc::SA_RESETHAND);
    assert_eq!(FdFlag::FD_CLOEXEC().bits(), libc::FD_CLOEXEC);
    assert_eq!(WaitPidFlag::WNOHANG().bits(), libc::WNOHANG);
    assert_eq!(WaitPidFlag::WUNTRACED().bits(), libc::WUNTRACED);
    assert_eq!(WaitPidFlag::__WALL().bits(), libc::__WALL);
    assert_eq!(Mode::S_IRUSR().bits(), libc::S_IRUSR);
    assert_eq!(Mode::S_IRWXU().bits(), libc::S_IRWXU);
    assert_eq!(SFlag::S_IFIFO().bits(), libc::S_IFIFO);
    assert_eq!(SFlag::S_IFDIR().bits(), libc::S_IFDIR);
    assert_eq!(SFlag::S_IFMT().bits(), libc::S_IFMT);
}

#[test]
fn from_bits_round_trip() {
    let b = libc::O_CLOEXEC | libc::O_NONBLOCK | libc::O_RDWR;
    assert_eq!(OFlag::from_bits(b).unwrap().bits(), b);
    let m = libc::S_IRUSR | libc::S_IWGRP | libc::S_ISVTX;
    assert_eq!(Mode::from_bits(m).unwrap().bits(), m);
    assert_eq!(SaFlags::from_bits(libc::SA_RESTART | libc::SA_RESETHAND).unwrap().bits(),
               libc::SA_RESTART | libc::SA_RESETHAND);
    assert_eq!(AtFlags::from_bits(0).unwrap().bits(), 0);
    assert_eq!(OFlag::from_bits(OFlag::all().bits()).unwrap(), OFlag::all());
}

#[test]
fn from_bits_rejects_unknown_bits() {
    assert_eq!(AccessMode::from_bits(8), None);
    assert_eq!(FdFlag::from_bits(2), None);
    assert_eq!(Mode::from_bits(0o10000), None);
    assert_eq!(AtFlags::from_bits(0x1), None);
}

#[test]
fn from_bits_truncate_drops_unknown_bits() {
    assert_eq!(FdFlag::from_bits_truncate(3).bits(), 1);
    assert_eq!(AccessMode::from_bits_truncate(0xff).bits(), 7);
    // the file-type bits of a mode, as `stat` hands it back for a fifo
    let st_mode = libc::S_IFIFO | 0o644;
    assert_eq!(SFlag::from_bits_truncate(st_mode), SFlag::S_IFIFO());
    assert_eq!(Mode::from_bits_truncate(st_mode).bits(), 0o644);
}

#[test]
fn flag_set_operations() {
    let rw = AccessMode::R_OK().union(AccessMode::W_OK());
    assert_eq!(rw.bits(), 6);
    assert!(rw.contains(AccessMode::R_OK()));
    assert!(!rw.contains(AccessMode::X_OK()));
    assert!(rw.intersects(AccessMode::W_OK().union(AccessMode::X_OK())));
    assert!(!rw.intersects(AccessMode::X_OK()));
    assert_eq!(rw.intersection(AccessMode::W_OK()).bits(), 2);
    assert_eq!(rw.difference(AccessMode::W_OK()).bits(), 4);
    let mut f = OFlag::empty();
    assert!(f.is_empty());
    f.insert(OFlag::O_CLOEXEC());
    f.insert(OFlag::O_NONBLOCK());
    assert_eq!(f.bits(), libc::O_CLOEXEC | libc::O_NONBLOCK);
    f.remove(OFlag::O_CLOEXEC());
    assert_eq!(f.bits(), libc::O_NONBLOCK);
    assert!(!f.is_empty());
    assert_eq!(SFlag::all().bits(), libc::S_IFMT);
}

#[test]
fn flag_values_round_trip_through_bits() {
    let mut f = OFlag::O_RDWR().union(OFlag::O_CLOEXEC());
    f.insert(OFlag::O_APPEND());
    assert_eq!(OFlag::from_bits(f.bits()), Some(f));
    let s = SaFlags::SA_RESETHAND().union(SaFlags::SA_RESTART());
    assert_eq!(SaFlags::from_bits(s.bits()), Some(s));
    let w = WaitPidFlag::__WCLONE().difference(WaitPidFlag::WNOHANG());
    assert_eq!(WaitPidFlag::from_bits(w.bits()), Some(w));
}
