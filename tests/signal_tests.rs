use nixcore::disposition::Dispositions;
use nixcore::errno::Errno;
use nixcore::flags::SaFlags;
use nixcore::signal::{check_sigaction, next_mask, SigAction, SigHandler, SigSet, SigmaskHow, Signal};

#[test]
fn signal_numbers_match_the_platform() {
    assert_eq!(Signal::SIGHUP.as_raw(), libc::SIGHUP);
    assert_eq!(Signal::SIGKILL.as_raw(), libc::SIGKILL);
    assert_eq!(Signal::SIGALRM.as_raw(), libc::SIGALRM);
    assert_eq!(Signal::SIGCHLD.as_raw(), libc::SIGCHLD);
    assert_eq!(Signal::SIGSTOP.as_raw(), libc::SIGSTOP);
    assert_eq!(Signal::SIGSYS.as_raw(), libc::SIGSYS);
    for n in 1..=31 {
        assert_eq!(Signal::from_c_int(n).unwrap().as_raw(), n);
    }
}

#[test]
fn invalid_signal_numbers() {
    assert_eq!(Signal::from_c_int(0), Err(Errno::EINVAL));
    assert_eq!(Signal::from_c_int(32), Err(Errno::EINVAL));
    assert_eq!(Signal::from_c_int(-1), Err(Errno::EINVAL));
}

#[test]
fn sigset_membership() {
    let mut s = SigSet::empty();
    assert!(!s.contains(Signal::SIGINT));
    s.add(Signal::SIGINT);
    s.add(Signal::SIGSYS);
    assert!(s.contains(Signal::SIGINT));
    assert!(s.contains(Signal::SIGSYS));
    assert!(!s.contains(Signal::SIGHUP));
    s.remove(Signal::SIGINT);
    assert!(!s.contains(Signal::SIGINT));
    assert!(s.contains(Signal::SIGSYS));
    let all = SigSet::all();
    for n in 1..=31 {
        assert!(all.contains(Signal::from_c_int(n).unwrap()));
    }
}

#[test]
fn sigset_union_membership() {
    let mut a = SigSet::empty();
    a.add(Signal::SIGUSR1);
    a.add(Signal::SIGTERM);
    let mut b = SigSet::empty();
    b.add(Signal::SIGTERM);
    b.add(Signal::SIGALRM);
    let mut u = a;
    u.extend(&b);
    for n in 1..=31 {
        let x = Signal::from_c_int(n).unwrap();
        assert_eq!(u.contains(x), a.contains(x) || b.contains(x));
    }
    assert!(u.contains(Signal::SIGUSR1));
    assert!(u.contains(Signal::SIGALRM));
    assert!(!u.contains(Signal::SIGHUP));
}

#[test]
fn handler_words() {
    assert_eq!(SigHandler::SigDfl.to_raw(), libc::SIG_DFL);
    assert_eq!(SigHandler::SigIgn.to_raw(), libc::SIG_IGN);
    assert_eq!(SigHandler::Handler(0x1234).to_raw(), 0x1234);
}

#[test]
fn sigaction_parts() {
    let mut mask = SigSet::empty();
    mask.add(Signal::SIGINT);
    let a = SigAction::new(SigHandler::SigIgn, SaFlags::SA_RESTART(), mask);
    assert_eq!(a.handler(), SigHandler::SigIgn);
    assert_eq!(a.flags(), SaFlags::SA_RESTART());
    assert_eq!(a.mask(), mask);
}

#[test]
fn uncatchable_signals_are_refused() {
    assert_eq!(check_sigaction(Signal::SIGKILL), Err(Errno::EINVAL));
    assert_eq!(check_sigaction(Signal::SIGSTOP), Err(Errno::EINVAL));
    assert_eq!(check_sigaction(Signal::SIGALRM), Ok(()));
    assert_eq!(check_sigaction(Signal::SIGTERM), Ok(()));
}

#[test]
fn dispositions_swap_and_restore() {
    let mut table = Dispositions::new();
    assert_eq!(table.get(Signal::SIGALRM), SigAction::default_action());
    let handler = SigAction::new(SigHandler::Handler(0x4000), SaFlags::SA_RESTART(), SigSet::empty());
    let old = table.install(Signal::SIGALRM, handler).unwrap();
    assert_eq!(old, SigAction::default_action());
    assert_eq!(table.get(Signal::SIGALRM), handler);
    assert_eq!(table.get(Signal::SIGINT), SigAction::default_action());
    let replaced = table.install(Signal::SIGALRM, old).unwrap();
    assert_eq!(replaced, handler);
    assert_eq!(table.get(Signal::SIGALRM), SigAction::default_action());
    assert_eq!(table.install(Signal::SIGKILL, handler), Err(Errno::EINVAL));
    assert_eq!(table.get(Signal::SIGKILL), SigAction::default_action());
}

#[test]
fn sigmask_changes() {
    assert_eq!(SigmaskHow::SigBlock.to_raw(), libc::SIG_BLOCK);
    assert_eq!(SigmaskHow::SigUnblock.to_raw(), libc::SIG_UNBLOCK);
    assert_eq!(SigmaskHow::SigSetmask.to_raw(), libc::SIG_SETMASK);
    let mut cur = SigSet::empty();
    cur.add(Signal::SIGINT);
    let mut set = SigSet::empty();
    set.add(Signal::SIGTERM);
    set.add(Signal::SIGKILL);
    let blocked = next_mask(SigmaskHow::SigBlock, &cur, &set);
    assert!(blocked.contains(Signal::SIGINT));
    assert!(blocked.contains(Signal::SIGTERM));
    assert!(!blocked.contains(Signal::SIGKILL));
    let unblocked = next_mask(SigmaskHow::SigUnblock, &blocked, &set);
    assert!(unblocked.contains(Signal::SIGINT));
    assert!(!unblocked.contains(Signal::SIGTERM));
    let replaced = next_mask(SigmaskHow::SigSetmask, &cur, &SigSet::all());
    assert!(!replaced.contains(Signal::SIGKILL));
    assert!(!replaced.contains(Signal::SIGSTOP));
    assert!(replaced.contains(Signal::SIGHUP));
    assert!(replaced.contains(Signal::SIGSYS));
    let diff = SigSet::all().difference(&cur);
    assert!(!diff.contains(Signal::SIGINT));
    assert!(diff.contains(Signal::SIGQUIT));
}
