use vstd::prelude::*;
use crate::errno::{Errno, errno_code};
use crate::flags::SaFlags;

verus! {

/// The signals of the platform, with the Linux numbering.
#[derive(Clone, Copy, Debug, PartialEq, Eq, Structural, Hash)]
pub enum Signal {
    SIGHUP,
    SIGINT,
    SIGQUIT,
    SIGILL,
    SIGTRAP,
    SIGABRT,
    SIGBUS,
    SIGFPE,
    SIGKILL,
    SIGUSR1,
    SIGSEGV,
    SIGUSR2,
    SIGPIPE,
    SIGALRM,
    SIGTERM,
    SIGSTKFLT,
    SIGCHLD,
    SIGCONT,
    SIGSTOP,
    SIGTSTP,
    SIGTTIN,
    SIGTTOU,
    SIGURG,
    SIGXCPU,
    SIGXFSZ,
    SIGVTALRM,
    SIGPROF,
    SIGWINCH,
    SIGIO,
    SIGPWR,
    SIGSYS,
}

/// The number of signals in [`Signal`]; they are numbered from 1 to this.
pub const NSIG: i32 = 31;

/// The native number of a signal.
pub open spec fn signal_number(s: Signal) -> i32 {
    match s {
        Signal::SIGHUP => 1,
        Signal::SIGINT => 2,
        Signal::SIGQUIT => 3,
        Signal::SIGILL => 4,
        Signal::SIGTRAP => 5,
        Signal::SIGABRT => 6,
        Signal::SIGBUS => 7,
        Signal::SIGFPE => 8,
        Signal::SIGKILL => 9,
        Signal::SIGUSR1 => 10,
        Signal::SIGSEGV => 11,
        Signal::SIGUSR2 => 12,
        Signal::SIGPIPE => 13,
        Signal::SIGALRM => 14,
        Signal::SIGTERM => 15,
        Signal::SIGSTKFLT => 16,
        Signal::SIGCHLD => 17,
        Signal::SIGCONT => 18,
        Signal::SIGSTOP => 19,
        Signal::SIGTSTP => 20,
        Signal::SIGTTIN => 21,
        Signal::SIGTTOU => 22,
        Signal::SIGURG => 23,
        Signal::SIGXCPU => 24,
        Signal::SIGXFSZ => 25,
        Signal::SIGVTALRM => 26,
        Signal::SIGPROF => 27,
        Signal::SIGWINCH => 28,
        Signal::SIGIO => 29,
        Signal::SIGPWR => 30,
        Signal::SIGSYS => 31,
    }
}

/// The signal that a native number stands for, if any.
pub open spec fn signal_of(n: i32) -> Option<Signal> {
    match n {
        1 => Some(Signal::SIGHUP),
        2 => Some(Signal::SIGINT),
        3 => Some(Signal::SIGQUIT),
        4 => Some(Signal::SIGILL),
        5 => Some(Signal::SIGTRAP),
        6 => Some(Signal::SIGABRT),
        7 => Some(Signal::SIGBUS),
        8 => Some(Signal::SIGFPE),
        9 => Some(Signal::SIGKILL),
        10 => Some(Signal::SIGUSR1),
        11 => Some(Signal::SIGSEGV),
        12 => Some(Signal::SIGUSR2),
        13 => Some(Signal::SIGPIPE),
        14 => Some(Signal::SIGALRM),
        15 => Some(Signal::SIGTERM),
        16 => Some(Signal::SIGSTKFLT),
        17 => Some(Signal::SIGCHLD),
        18 => Some(Signal::SIGCONT),
        19 => Some(Signal::SIGSTOP),
        20 => Some(Signal::SIGTSTP),
        21 => Some(Signal::SIGTTIN),
        22 => Some(Signal::SIGTTOU),
        23 => Some(Signal::SIGURG),
        24 => Some(Signal::SIGXCPU),
        25 => Some(Signal::SIGXFSZ),
        26 => Some(Signal::SIGVTALRM),
        27 => Some(Signal::SIGPROF),
        28 => Some(Signal::SIGWINCH),
        29 => Some(Signal::SIGIO),
        30 => Some(Signal::SIGPWR),
        31 => Some(Signal::SIGSYS),
        _ => None,
    }
}

/// Every signal survives the trip through its native number, which lies in `1..=NSIG`.
pub proof fn signal_round_trip(s: Signal)
    ensures
        signal_of(signal_number(s)) == Some(s),
        1 <= signal_number(s) <= NSIG,
{
}

/// The two signals whose action cannot be changed.
pub open spec fn is_uncatchable(s: Signal) -> bool {
    s == Signal::SIGKILL || s == Signal::SIGSTOP
}

impl Signal {
    /// The native number of this signal.
    pub fn as_raw(self) -> (r: i32)
        ensures
            r == signal_number(self),
            1 <= r <= NSIG,
    {
        match self {
            Signal::SIGHUP => 1,
            Signal::SIGINT => 2,
            Signal::SIGQUIT => 3,
            Signal::SIGILL => 4,
            Signal::SIGTRAP => 5,
            Signal::SIGABRT => 6,
            Signal::SIGBUS => 7,
            Signal::SIGFPE => 8,
            Signal::SIGKILL => 9,
            Signal::SIGUSR1 => 10,
            Signal::SIGSEGV => 11,
            Signal::SIGUSR2 => 12,
            Signal::SIGPIPE => 13,
            Signal::SIGALRM => 14,
            Signal::SIGTERM => 15,
            Signal::SIGSTKFLT => 16,
            Signal::SIGCHLD => 17,
            Signal::SIGCONT => 18,
            Signal::SIGSTOP => 19,
            Signal::SIGTSTP => 20,
            Signal::SIGTTIN => 21,
            Signal::SIGTTOU => 22,
            Signal::SIGURG => 23,
            Signal::SIGXCPU => 24,
            Signal::SIGXFSZ => 25,
            Signal::SIGVTALRM => 26,
            Signal::SIGPROF => 27,
            Signal::SIGWINCH => 28,
            Signal::SIGIO => 29,
            Signal::SIGPWR => 30,
            Signal::SIGSYS => 31,
        }
    }

    /// The signal of a native number; `EINVAL` where no signal has it.
    pub fn from_c_int(n: i32) -> (r: Result<Signal, Errno>)
        ensures
            signal_of(n) is Some ==> r == Ok::<Signal, Errno>(signal_of(n).unwrap()),
            signal_of(n) is None ==> r == Err::<Signal, Errno>(Errno::EINVAL),
            r is Ok <==> 1 <= n <= NSIG,
    {
        match n {
            1 => Ok(Signal::SIGHUP),
            2 => Ok(Signal::SIGINT),
            3 => Ok(Signal::SIGQUIT),
            4 => Ok(Signal::SIGILL),
            5 => Ok(Signal::SIGTRAP),
            6 => Ok(Signal::SIGABRT),
            7 => Ok(Signal::SIGBUS),
            8 => Ok(Signal::SIGFPE),
            9 => Ok(Signal::SIGKILL),
            10 => Ok(Signal::SIGUSR1),
            11 => Ok(Signal::SIGSEGV),
            12 => Ok(Signal::SIGUSR2),
            13 => Ok(Signal::SIGPIPE),
            14 => Ok(Signal::SIGALRM),
            15 => Ok(Signal::SIGTERM),
            16 => Ok(Signal::SIGSTKFLT),
            17 => Ok(Signal::SIGCHLD),
            18 => Ok(Signal::SIGCONT),
            19 => Ok(Signal::SIGSTOP),
            20 => Ok(Signal::SIGTSTP),
            21 => Ok(Signal::SIGTTIN),
            22 => Ok(Signal::SIGTTOU),
            23 => Ok(Signal::SIGURG),
            24 => Ok(Signal::SIGXCPU),
            25 => Ok(Signal::SIGXFSZ),
            26 => Ok(Signal::SIGVTALRM),
            27 => Ok(Signal::SIGPROF),
            28 => Ok(Signal::SIGWINCH),
            29 => Ok(Signal::SIGIO),
            30 => Ok(Signal::SIGPWR),
            31 => Ok(Signal::SIGSYS),
            _ => Err(Errno::EINVAL),
        }
    }
}

/// Whether the bit of signal `s` is set in a mask (signal `n` has bit `n - 1`).
pub open spec fn mask_has(bits: u64, s: Signal) -> bool {
    (bits >> ((signal_number(s) - 1) as u64)) & 1u64 == 1u64
}

proof fn lemma_bit_or(a: u64, b: u64, k: u64)
    requires
        k < 64,
    ensures
        ((a | b) >> k) & 1u64 == 1u64 <==> ((a >> k) & 1u64 == 1u64 || (b >> k) & 1u64 == 1u64),
{
    assert(((a | b) >> k) & 1u64 == 1u64 <==> ((a >> k) & 1u64 == 1u64 || (b >> k) & 1u64 == 1u64))
        by (bit_vector)
        requires
            k < 64,
    ;
}

proof fn lemma_bit_single(j: u64, k: u64)
    requires
        j < 64,
        k < 64,
    ensures
        ((1u64 << j) >> k) & 1u64 == 1u64 <==> j == k,
        ((!(1u64 << j)) >> k) & 1u64 == 1u64 <==> j != k,
{
    assert(((1u64 << j) >> k) & 1u64 == 1u64 <==> j == k) by (bit_vector)
        requires
            j < 64,
            k < 64,
    ;
    assert(((!(1u64 << j)) >> k) & 1u64 == 1u64 <==> j != k) by (bit_vector)
        requires
            j < 64,
            k < 64,
    ;
}

proof fn lemma_bit_and(a: u64, b: u64, k: u64)
    requires
        k < 64,
    ensures
        ((a & b) >> k) & 1u64 == 1u64 <==> ((a >> k) & 1u64 == 1u64 && (b >> k) & 1u64 == 1u64),
{
    assert(((a & b) >> k) & 1u64 == 1u64 <==> ((a >> k) & 1u64 == 1u64 && (b >> k) & 1u64 == 1u64))
        by (bit_vector)
        requires
            k < 64,
    ;
}

proof fn lemma_bit_const(k: u64)
    requires
        k < 31,
    ensures
        (0u64 >> k) & 1u64 != 1u64,
        (0x7fff_ffffu64 >> k) & 1u64 == 1u64,
{
    assert((0u64 >> k) & 1u64 != 1u64) by (bit_vector);
    assert((0x7fff_ffffu64 >> k) & 1u64 == 1u64) by (bit_vector)
        requires
            k < 31,
    ;
}

/// A set of signals, held as the kernel holds it: signal `n` is bit `n - 1`.
#[derive(Clone, Copy, Debug, PartialEq, Eq, Structural)]
pub struct SigSet {
    bits: u64,
}

impl View for SigSet {
    type V = Set<Signal>;

    closed spec fn view(&self) -> Set<Signal> {
        Set::new(|s: Signal| mask_has(self.bits, s))
    }
}

impl SigSet {
    /// The set that holds the signals of both sets.
    pub closed spec fn spec_union(self, other: SigSet) -> SigSet {
        SigSet { bits: self.bits | other.bits }
    }

    /// The set with no signal.
    pub closed spec fn spec_empty() -> SigSet {
        SigSet { bits: 0 }
    }

    /// The set with no signal.
    pub fn empty() -> (r: SigSet)
        ensures
            r == SigSet::spec_empty(),
            r@ == Set::<Signal>::empty(),
    {
        let r = SigSet { bits: 0 };
        assert forall|s: Signal| !r@.contains(s) by {
            lemma_bit_const((signal_number(s) - 1) as u64);
        }
        assert(r@ =~= Set::<Signal>::empty());
        r
    }

    /// The set of every signal.
    pub fn all() -> (r: SigSet)
        ensures
            r@ == Set::<Signal>::full(),
    {
        let r = SigSet { bits: 0x7fff_ffff };
        assert forall|s: Signal| r@.contains(s) by {
            lemma_bit_const((signal_number(s) - 1) as u64);
        }
        assert(r@ =~= Set::<Signal>::full());
        r
    }

    /// Whether `signal` is in the set.
    pub fn contains(&self, signal: Signal) -> (r: bool)
        ensures
            r == self@.contains(signal),
    {
        let k: u64 = (signal.as_raw() - 1) as u64;
        (self.bits >> k) & 1 == 1
    }

    /// Adds `signal` to the set.
    pub fn add(&mut self, signal: Signal)
        ensures
            final(self)@ == old(self)@.insert(signal),
    {
        let j: u64 = (signal.as_raw() - 1) as u64;
        let ghost b = self.bits;
        self.bits = self.bits | (1u64 << j);
        assert forall|s: Signal| #[trigger] final(self)@.contains(s) == old(self)@.insert(signal).contains(s) by {
            let k = (signal_number(s) - 1) as u64;
            lemma_bit_or(b, 1u64 << j, k);
            lemma_bit_single(j, k);
        }
        assert(final(self)@ =~= old(self)@.insert(signal));
    }

    /// Removes `signal` from the set.
    pub fn remove(&mut self, signal: Signal)
        ensures
            final(self)@ == old(self)@.remove(signal),
    {
        let j: u64 = (signal.as_raw() - 1) as u64;
        let ghost b = self.bits;
        self.bits = self.bits & !(1u64 << j);
        assert forall|s: Signal| #[trigger] final(self)@.contains(s) == old(self)@.remove(signal).contains(s) by {
            let k = (signal_number(s) - 1) as u64;
            lemma_bit_and(b, !(1u64 << j), k);
            lemma_bit_single(j, k);
        }
        assert(final(self)@ =~= old(self)@.remove(signal));
    }

    /// Adds every signal of `other` to the set.
    pub fn extend(&mut self, other: &SigSet)
        ensures
            *final(self) == old(self).spec_union(*other),
            final(self)@ == old(self)@.union(other@),
    {
        proof {
            sigset_union_membership_all(*self, *other);
        }
        self.bits = self.bits | other.bits;
    }
}

/// Membership in the union of two signal sets is membership in either one.
pub proof fn sigset_union_membership(a: SigSet, b: SigSet, x: Signal)
    ensures
        a.spec_union(b)@.contains(x) <==> (a@.contains(x) || b@.contains(x)),
{
    lemma_bit_or(a.bits, b.bits, (signal_number(x) - 1) as u64);
}

proof fn sigset_union_membership_all(a: SigSet, b: SigSet)
    ensures
        a.spec_union(b)@ == a@.union(b@),
{
    assert forall|x: Signal| #[trigger] a.spec_union(b)@.contains(x) == a@.union(b@).contains(x) by {
        sigset_union_membership(a, b, x);
    }
    assert(a.spec_union(b)@ =~= a@.union(b@));
}

proof fn lemma_bit_not(b: u64, k: u64)
    requires
        k < 64,
    ensures
        ((!b) >> k) & 1u64 == 1u64 <==> !((b >> k) & 1u64 == 1u64),
{
    assert(((!b) >> k) & 1u64 == 1u64 <==> !((b >> k) & 1u64 == 1u64)) by (bit_vector)
        requires
            k < 64,
    ;
}

/// How a change of the signal mask combines with the mask in force.
#[derive(Clone, Copy, Debug, PartialEq, Eq, Structural)]
pub enum SigmaskHow {
    /// Block the given signals as well.
    SigBlock,
    /// Unblock the given signals.
    SigUnblock,
    /// Block exactly the given signals.
    SigSetmask,
}

impl SigmaskHow {
    /// The native value (`SIG_BLOCK` and its kin).
    pub fn to_raw(self) -> (r: i32)
        ensures
            r == (match self {
                SigmaskHow::SigBlock => 0i32,
                SigmaskHow::SigUnblock => 1i32,
                SigmaskHow::SigSetmask => 2i32,
            }),
    {
        match self {
            SigmaskHow::SigBlock => 0,
            SigmaskHow::SigUnblock => 1,
            SigmaskHow::SigSetmask => 2,
        }
    }
}

/// The signals that no mask can block.
pub open spec fn unblockable() -> Set<Signal> {
    set![Signal::SIGKILL, Signal::SIGSTOP]
}

/// The mask in force after a change, as the kernel computes it: `SIGKILL` and
/// `SIGSTOP` are never blocked.
pub open spec fn mask_after(how: SigmaskHow, current: Set<Signal>, set: Set<Signal>) -> Set<Signal> {
    match how {
        SigmaskHow::SigBlock => current.union(set).difference(unblockable()),
        SigmaskHow::SigUnblock => current.difference(set),
        SigmaskHow::SigSetmask => set.difference(unblockable()),
    }
}

impl SigSet {
    /// The signals of this set that are not in `other`.
    pub fn difference(&self, other: &SigSet) -> (r: SigSet)
        ensures
            r@ == self@.difference(other@),
    {
        let r = SigSet { bits: self.bits & !other.bits };
        assert forall|x: Signal| #[trigger] r@.contains(x) == self@.difference(other@).contains(x) by {
            let k = (signal_number(x) - 1) as u64;
            lemma_bit_and(self.bits, !other.bits, k);
            lemma_bit_not(other.bits, k);
        }
        assert(r@ =~= self@.difference(other@));
        r
    }
}

/// A model of the kernel's handling of `sigprocmask(2)`: the signal mask that
/// results when a change `how` with `set` meets the mask `current`. It makes
/// no call: the real mask is changed through `sigprocmask(2)` itself.
pub fn next_mask(how: SigmaskHow, current: &SigSet, set: &SigSet) -> (r: SigSet)
    ensures
        r@ == mask_after(how, current@, set@),
{
    let mut fixed = SigSet::empty();
    fixed.add(Signal::SIGKILL);
    fixed.add(Signal::SIGSTOP);
    assert(fixed@ =~= unblockable());
    match how {
        SigmaskHow::SigBlock => {
            let mut m = *current;
            m.extend(set);
            m.difference(&fixed)
        },
        SigmaskHow::SigUnblock => current.difference(set),
        SigmaskHow::SigSetmask => set.difference(&fixed),
    }
}

/// No change of the mask blocks `SIGKILL` or `SIGSTOP` where they were unblocked.
pub proof fn mask_never_blocks_kill_or_stop(how: SigmaskHow, current: Set<Signal>, set: Set<Signal>)
    requires
        !current.contains(Signal::SIGKILL),
        !current.contains(Signal::SIGSTOP),
    ensures
        !mask_after(how, current, set).contains(Signal::SIGKILL),
        !mask_after(how, current, set).contains(Signal::SIGSTOP),
{
}

/// What happens when a signal arrives.
#[derive(Clone, Copy, Debug, PartialEq, Eq, Structural)]
pub enum SigHandler {
    /// The signal's default action.
    SigDfl,
    /// The signal is ignored.
    SigIgn,
    /// The routine at this address, with the C signal-handler signature, runs.
    /// It may only do what is safe inside a signal handler: no allocation, no lock.
    Handler(usize),
}

/// The native handler word (`sa_handler`): `SIG_DFL` is 0 and `SIG_IGN` is 1.
pub open spec fn handler_word(h: SigHandler) -> usize {
    match h {
        SigHandler::SigDfl => 0,
        SigHandler::SigIgn => 1,
        SigHandler::Handler(a) => a,
    }
}

impl SigHandler {
    /// The native handler word.
    pub fn to_raw(self) -> (r: usize)
        ensures
            r == handler_word(self),
    {
        match self {
            SigHandler::SigDfl => 0,
            SigHandler::SigIgn => 1,
            SigHandler::Handler(a) => a,
        }
    }
}

/// An action for a signal: a handler, the flags, and the signals blocked while
/// the handler runs.
#[derive(Clone, Copy, Debug, PartialEq, Eq, Structural)]
pub struct SigAction {
    pub handler: SigHandler,
    pub flags: SaFlags,
    pub mask: SigSet,
}

impl SigAction {
    /// An action of its parts.
    pub fn new(handler: SigHandler, flags: SaFlags, mask: SigSet) -> (r: SigAction)
        ensures
            r.handler == handler,
            r.flags == flags,
            r.mask == mask,
    {
        SigAction { handler, flags, mask }
    }

    /// The default action, with no flag and nothing blocked.
    pub fn default_action() -> (r: SigAction)
        ensures
            r == SigAction::default_action_spec(),
            r.handler == SigHandler::SigDfl,
            r.flags@ == 0,
            r.mask@ == Set::<Signal>::empty(),
    {
        SigAction { handler: SigHandler::SigDfl, flags: SaFlags::empty(), mask: SigSet::empty() }
    }

    /// The default action, with no flag and nothing blocked.
    pub closed spec fn default_action_spec() -> SigAction {
        SigAction { handler: SigHandler::SigDfl, flags: SaFlags::spec_empty(), mask: SigSet::spec_empty() }
    }

    /// The handler.
    pub fn handler(&self) -> (r: SigHandler)
        ensures
            r == self.handler,
    {
        self.handler
    }

    /// The flags.
    pub fn flags(&self) -> (r: SaFlags)
        ensures
            r == self.flags,
    {
        self.flags
    }

    /// The signals blocked while the handler runs.
    pub fn mask(&self) -> (r: SigSet)
        ensures
            r == self.mask,
    {
        self.mask
    }
}

/// Checks a request to change the action of `signal` before any call is made:
/// the actions of `SIGKILL` and `SIGSTOP` cannot be changed, which is `EINVAL`.
pub fn check_sigaction(signal: Signal) -> (r: Result<(), Errno>)
    ensures
        r is Err <==> is_uncatchable(signal),
        r is Err ==> r == Err::<(), Errno>(Errno::EINVAL),
{
    match signal {
        Signal::SIGKILL | Signal::SIGSTOP => Err(Errno::EINVAL),
        _ => Ok(()),
    }
}

} // verus!
