use vstd::prelude::*;
use crate::errno::{Errno, errno_of};
use crate::signal::{Signal, signal_of};
use crate::unistd::Pid;

verus! {

/// What `wait` or `waitpid` reports of a child.
#[derive(Clone, Copy, Debug, PartialEq, Eq, Structural)]
pub enum WaitStatus {
    /// The child exited with this code.
    Exited(Pid, i32),
    /// A signal ended the child; the flag tells whether it dumped core.
    Signaled(Pid, Signal, bool),
    /// A signal stopped the child.
    Stopped(Pid, Signal),
    /// A traced child stopped at a tracing event, with the event's number.
    PtraceEvent(Pid, Signal, i32),
    /// A traced child stopped at a system call.
    PtraceSyscall(Pid),
    /// A stopped child went on.
    Continued(Pid),
    /// No child changed state (non-blocking wait).
    StillAlive,
}

/// The low seven bits of a raw status: 0 for an exit, `0x7f` for a stop.
pub open spec fn status_low(status: i32) -> i32 {
    status & 0x7f
}

/// The exit code, or the stop signal, of a raw status.
pub open spec fn status_high(status: i32) -> i32 {
    (status & 0xff00) >> 8
}

/// The raw stop signal that a system-call stop of a traced child reports.
pub const SYSCALL_STOP: i32 = 0x85;

/// What a raw status of child `pid` says, in the Linux encoding.
pub open spec fn decode_status(pid: Pid, status: i32) -> Result<WaitStatus, Errno> {
    if status_low(status) == 0 {
        Ok(WaitStatus::Exited(pid, status_high(status)))
    } else if status_low(status) != 0x7f {
        match signal_of(status_low(status)) {
            Some(s) => Ok(WaitStatus::Signaled(pid, s, status & 0x80 != 0)),
            None => Err(Errno::EINVAL),
        }
    } else if status & 0xff == 0x7f {
        if status_high(status) == SYSCALL_STOP {
            Ok(WaitStatus::PtraceSyscall(pid))
        } else {
            match signal_of(status_high(status)) {
                Some(s) => if status >> 16 == 0 {
                    Ok(WaitStatus::Stopped(pid, s))
                } else {
                    Ok(WaitStatus::PtraceEvent(pid, s, status >> 16))
                },
                None => Err(Errno::EINVAL),
            }
        }
    } else if status == 0xffff {
        Ok(WaitStatus::Continued(pid))
    } else {
        Err(Errno::EINVAL)
    }
}

/// What the raw results of `waitpid` mean: `-1` is the error in `errno`, `0`
/// is no change (non-blocking), any other value is the child whose status
/// was filled in.
pub open spec fn waitpid_outcome(ret: i32, status: i32, errno: i32) -> Result<WaitStatus, Errno> {
    if ret == -1 {
        Err(errno_of(errno))
    } else if ret == 0 {
        Ok(WaitStatus::StillAlive)
    } else {
        decode_status(Pid::spec_from_raw(ret), status)
    }
}

impl WaitStatus {
    /// Decodes a raw status of child `pid`; `EINVAL` for a status that names
    /// no signal of the platform or no state at all.
    pub fn from_raw(pid: Pid, status: i32) -> (r: Result<WaitStatus, Errno>)
        ensures
            r == decode_status(pid, status),
    {
        let low: i32 = status & 0x7f;
        let high: i32 = (status & 0xff00) >> 8;
        if low == 0 {
            Ok(WaitStatus::Exited(pid, high))
        } else if low != 0x7f {
            match Signal::from_c_int(low) {
                Ok(s) => Ok(WaitStatus::Signaled(pid, s, status & 0x80 != 0)),
                Err(_) => Err(Errno::EINVAL),
            }
        } else if status & 0xff == 0x7f {
            if high == SYSCALL_STOP {
                Ok(WaitStatus::PtraceSyscall(pid))
            } else {
                match Signal::from_c_int(high) {
                    Ok(s) => if status >> 16 == 0 {
                        Ok(WaitStatus::Stopped(pid, s))
                    } else {
                        Ok(WaitStatus::PtraceEvent(pid, s, status >> 16))
                    },
                    Err(_) => Err(Errno::EINVAL),
                }
            }
        } else if status == 0xffff {
            Ok(WaitStatus::Continued(pid))
        } else {
            Err(Errno::EINVAL)
        }
    }

    /// Reads the raw results of `waitpid`.
    pub fn from_waitpid(ret: i32, status: i32, errno: i32) -> (r: Result<WaitStatus, Errno>)
        ensures
            r == waitpid_outcome(ret, status, errno),
    {
        if ret == -1 {
            Err(Errno::from_i32(errno))
        } else if ret == 0 {
            Ok(WaitStatus::StillAlive)
        } else {
            WaitStatus::from_raw(Pid::from_raw(ret), status)
        }
    }

    /// The child that the status is about, if any.
    pub fn pid(&self) -> (r: Option<Pid>)
        ensures
            r == (match *self {
                WaitStatus::Exited(p, _) => Some(p),
                WaitStatus::Signaled(p, _, _) => Some(p),
                WaitStatus::Stopped(p, _) => Some(p),
                WaitStatus::PtraceEvent(p, _, _) => Some(p),
                WaitStatus::PtraceSyscall(p) => Some(p),
                WaitStatus::Continued(p) => Some(p),
                WaitStatus::StillAlive => None::<Pid>,
            }),
    {
        match *self {
            WaitStatus::Exited(p, _) => Some(p),
            WaitStatus::Signaled(p, _, _) => Some(p),
            WaitStatus::Stopped(p, _) => Some(p),
            WaitStatus::PtraceEvent(p, _, _) => Some(p),
            WaitStatus::PtraceSyscall(p) => Some(p),
            WaitStatus::Continued(p) => Some(p),
            WaitStatus::StillAlive => None,
        }
    }
}

/// The raw status of a child that exited with `code`.
pub open spec fn exit_status(code: i32) -> i32 {
    code << 8
}

/// A child that exited with `code`, reaped by `waitpid` on its identifier,
/// reads as `Exited` with that very identifier and that code.
pub proof fn reap_exited_child(child: i32, code: i32, errno: i32)
    requires
        child > 0,
        0 <= code <= 255,
    ensures
        waitpid_outcome(child, exit_status(code), errno) == Ok::<WaitStatus, Errno>(
            WaitStatus::Exited(Pid::spec_from_raw(child), code),
        ),
{
    let s = code << 8;
    assert(s & 0x7f == 0 && (s & 0xff00) >> 8 == code) by (bit_vector)
        requires
            0 <= code <= 255,
            s == code << 8,
    ;
}

/// The raw status of a child that a signal numbered `sig` ended.
pub open spec fn signal_status(sig: i32, core: bool) -> i32 {
    if core {
        sig | 0x80
    } else {
        sig
    }
}

/// A child that signal `s` ended reads as `Signaled`, with that signal and the
/// core-dump flag kept.
pub proof fn reap_signaled_child(pid: Pid, s: Signal, core: bool)
    ensures
        decode_status(pid, signal_status(crate::signal::signal_number(s), core))
            == Ok::<WaitStatus, Errno>(WaitStatus::Signaled(pid, s, core)),
{
    let n = crate::signal::signal_number(s);
    crate::signal::signal_round_trip(s);
    let a = n | 0x80;
    assert(a & 0x7f == n && a & 0x80 != 0) by (bit_vector)
        requires
            1 <= n <= 31,
            a == n | 0x80,
    ;
    assert(n & 0x7f == n && n & 0x80 == 0) by (bit_vector)
        requires
            1 <= n <= 31,
    ;
}

/// The raw status of a child that a signal numbered `sig` stopped.
pub open spec fn stop_status(sig: i32) -> i32 {
    (sig << 8) | 0x7f
}

/// A child that signal `s` stopped reads as `Stopped` with that signal.
pub proof fn reap_stopped_child(pid: Pid, s: Signal)
    ensures
        decode_status(pid, stop_status(crate::signal::signal_number(s)))
            == Ok::<WaitStatus, Errno>(WaitStatus::Stopped(pid, s)),
{
    let n = crate::signal::signal_number(s);
    crate::signal::signal_round_trip(s);
    let st = (n << 8) | 0x7f;
    assert(st & 0x7f == 0x7f && st & 0xff == 0x7f && (st & 0xff00) >> 8 == n && st >> 16 == 0)
        by (bit_vector)
        requires
            1 <= n <= 31,
            st == (n << 8) | 0x7f,
    ;
}

/// The raw status of a stopped child that went on.
pub const CONTINUED_STATUS: i32 = 0xffff;

/// A child that went on after a stop reads as `Continued`.
pub proof fn reap_continued_child(pid: Pid)
    ensures
        decode_status(pid, CONTINUED_STATUS) == Ok::<WaitStatus, Errno>(WaitStatus::Continued(pid)),
{
    assert(0xffffi32 & 0x7f == 0x7f && 0xffffi32 & 0xff != 0x7f) by (bit_vector);
}

} // verus!
