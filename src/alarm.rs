use vstd::prelude::*;

verus! {

/// What the raw result of `alarm(2)` means: 0 is no alarm pending before the
/// call, any other value the seconds that the replaced alarm still had.
pub open spec fn previous_alarm(raw: u32) -> Option<u32> {
    if raw == 0 {
        None
    } else {
        Some(raw)
    }
}

/// Reads the raw result of `alarm(2)`.
pub fn previous_from_raw(raw: u32) -> (r: Option<u32>)
    ensures
        r == previous_alarm(raw),
{
    if raw == 0 {
        None
    } else {
        Some(raw)
    }
}

/// The slot after arming it for `secs` seconds, and what `set` returns.
pub open spec fn slot_set(slot: Option<u32>, secs: u32) -> (Option<u32>, Option<u32>) {
    (Some(secs), slot)
}

/// The slot after disarming it, and what `cancel` returns.
pub open spec fn slot_cancel(slot: Option<u32>) -> (Option<u32>, Option<u32>) {
    (None, slot)
}

/// The slot after `secs` seconds, and whether the alarm was delivered in them.
pub open spec fn slot_elapse(slot: Option<u32>, secs: u32) -> (Option<u32>, bool) {
    match slot {
        None => (None, false),
        Some(r) => if secs >= r {
            (None, true)
        } else {
            (Some((r - secs) as u32), false)
        },
    }
}

/// A model of the single alarm of a process, as the kernel keeps it: at most
/// one is pending, held as the seconds it has left; arming replaces the
/// pending one; it is delivered once. It states what `alarm(2)` promises and
/// makes no call: the process's real alarm is set through `alarm(2)` itself.
#[derive(Clone, Copy, Debug, PartialEq, Eq, Structural)]
pub struct AlarmSlot {
    remaining: Option<u32>,
}

impl View for AlarmSlot {
    type V = Option<u32>;

    closed spec fn view(&self) -> Option<u32> {
        self.remaining
    }
}

impl AlarmSlot {
    /// A slot with no alarm pending.
    pub fn new() -> (r: AlarmSlot)
        ensures
            r@ == None::<u32>,
    {
        AlarmSlot { remaining: None }
    }

    /// The seconds that the pending alarm has left, if one is pending.
    pub fn pending(&self) -> (r: Option<u32>)
        ensures
            r == self@,
    {
        self.remaining
    }

    /// Arms the alarm for `secs` seconds, replacing a pending one, and returns
    /// what the replaced one had left. Zero seconds is no alarm: use `cancel`.
    pub fn set(&mut self, secs: u32) -> (r: Option<u32>)
        requires
            secs != 0,
        ensures
            (final(self)@, r) == slot_set(old(self)@, secs),
    {
        let prev = self.remaining;
        self.remaining = Some(secs);
        prev
    }

    /// Disarms the alarm and returns what it had left, if one was pending.
    pub fn cancel(&mut self) -> (r: Option<u32>)
        ensures
            (final(self)@, r) == slot_cancel(old(self)@),
    {
        let prev = self.remaining;
        self.remaining = None;
        prev
    }

    /// Lets `secs` seconds pass; returns whether the alarm was delivered.
    pub fn elapse(&mut self, secs: u32) -> (r: bool)
        ensures
            (final(self)@, r) == slot_elapse(old(self)@, secs),
    {
        match self.remaining {
            None => false,
            Some(left) => {
                if secs >= left {
                    self.remaining = None;
                    true
                } else {
                    self.remaining = Some(left - secs);
                    false
                }
            },
        }
    }
}

/// Arming twice in a row: the second `set` returns the first one's seconds,
/// and the alarm then delivered is the second one.
pub proof fn set_twice(slot: Option<u32>, n: u32, m: u32, t: u32)
    requires
        n != 0,
        m != 0,
    ensures
        slot_set(slot_set(slot, n).0, m).1 == Some(n),
        slot_set(slot_set(slot, n).0, m).0 == Some(m),
        slot_elapse(slot_set(slot_set(slot, n).0, m).0, t).1 <==> t >= m,
{
}

/// `cancel` with nothing pending returns `None`; with an alarm pending it
/// returns its seconds; either way no alarm is delivered afterwards.
pub proof fn cancel_disarms(slot: Option<u32>, t: u32)
    ensures
        slot is None ==> slot_cancel(slot).1 is None,
        slot is Some ==> slot_cancel(slot).1 == slot,
        !slot_elapse(slot_cancel(slot).0, t).1,
{
}

/// An alarm is delivered once: after it fired, nothing more fires.
pub proof fn delivered_once(slot: Option<u32>, t: u32, u: u32)
    requires
        slot_elapse(slot, t).1,
    ensures
        !slot_elapse(slot_elapse(slot, t).0, u).1,
{
}

} // verus!
