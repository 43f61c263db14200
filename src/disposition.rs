use vstd::prelude::*;
use crate::errno::Errno;
use crate::signal::{NSIG, SigAction, Signal, is_uncatchable, signal_number, signal_round_trip};

verus! {

/// A model of the kernel's table of signal actions of a process: each signal
/// starts with its default action; installing an action swaps it in and hands
/// back the one it replaced, so that a caller can restore it. It states what
/// `sigaction(2)` promises and makes no call: the process's real actions are
/// changed through `sigaction(2)` itself.
pub struct Dispositions {
    actions: Vec<SigAction>,
}

impl View for Dispositions {
    type V = Map<Signal, SigAction>;

    closed spec fn view(&self) -> Map<Signal, SigAction> {
        Map::new(|s: Signal| true, |s: Signal| self.actions@[signal_number(s) - 1])
    }
}

impl Dispositions {
    /// One action for each signal.
    pub closed spec fn wf(&self) -> bool {
        self.actions@.len() == NSIG
    }

    /// Every signal with its default action.
    pub fn new() -> (r: Dispositions)
        ensures
            r.wf(),
            forall|s: Signal| #[trigger] r@[s] == SigAction::default_action_spec(),
            r@.dom() == Set::<Signal>::full(),
    {
        let mut actions: Vec<SigAction> = Vec::new();
        let mut i: i32 = 0;
        while i < NSIG
            invariant
                0 <= i <= NSIG,
                actions@.len() == i,
                forall|k: int| 0 <= k < i ==> actions@[k] == SigAction::default_action_spec(),
            decreases NSIG - i,
        {
            actions.push(SigAction::default_action());
            i = i + 1;
        }
        let r = Dispositions { actions };
        assert forall|s: Signal| #[trigger] r@[s] == SigAction::default_action_spec() by {
            signal_round_trip(s);
        }
        assert(r@.dom() =~= Set::<Signal>::full());
        r
    }

    /// The action of `signal`.
    pub fn get(&self, signal: Signal) -> (r: SigAction)
        requires
            self.wf(),
        ensures
            r == self@[signal],
    {
        proof {
            signal_round_trip(signal);
        }
        self.actions[(signal.as_raw() - 1) as usize]
    }

    /// Installs `action` for `signal` and returns the action it replaced.
    /// The actions of `SIGKILL` and `SIGSTOP` cannot change: `EINVAL`, and
    /// nothing changes.
    pub fn install(&mut self, signal: Signal, action: SigAction) -> (r: Result<SigAction, Errno>)
        requires
            old(self).wf(),
        ensures
            final(self).wf(),
            is_uncatchable(signal) ==> r == Err::<SigAction, Errno>(Errno::EINVAL) && final(self)@
                == old(self)@,
            !is_uncatchable(signal) ==> r == Ok::<SigAction, Errno>(old(self)@[signal])
                && final(self)@ == old(self)@.insert(signal, action),
    {
        if let Err(e) = crate::signal::check_sigaction(signal) {
            return Err(e);
        }
        proof {
            signal_round_trip(signal);
        }
        let idx: usize = (signal.as_raw() - 1) as usize;
        let prev = self.actions[idx];
        self.actions.set(idx, action);
        proof {
            assert forall|s: Signal| #[trigger] self@[s] == old(self)@.insert(signal, action)[s] by {
                signal_round_trip(s);
                if s != signal {
                    assert(signal_number(s) != signal_number(signal)) by {
                        signal_round_trip(signal);
                    }
                }
            }
            assert(self@ =~= old(self)@.insert(signal, action));
        }
        Ok(prev)
    }
}

/// Installing an action and then installing what came back restores the
/// table as it was.
pub proof fn install_then_restore(
    table: Map<Signal, SigAction>,
    signal: Signal,
    action: SigAction,
)
    requires
        !is_uncatchable(signal),
        table.dom() == Set::<Signal>::full(),
    ensures
        table.insert(signal, action).insert(signal, table[signal]) == table,
{
    assert(table.insert(signal, action).insert(signal, table[signal]) =~= table);
}

} // verus!
