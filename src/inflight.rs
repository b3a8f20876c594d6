use vstd::prelude::*;

verus! {

/// Number of game moves that may be in flight at once.
pub const MOVE_CAP: usize = 4;

/// Counts submitted operations whose effect is not yet applied and that have
/// not failed, never going above a fixed cap or below zero.
pub struct InFlight {
    count: usize,
    cap: usize,
}

impl InFlight {
    pub closed spec fn count_spec(&self) -> nat {
        self.count as nat
    }

    pub closed spec fn cap_spec(&self) -> nat {
        self.cap as nat
    }

    /// The count never exceeds the cap.
    pub open spec fn wf(&self) -> bool {
        self.count_spec() <= self.cap_spec()
    }

    pub fn new(cap: usize) -> (r: Self)
        ensures
            r.wf(),
            r.count_spec() == 0,
            r.cap_spec() == cap,
    {
        InFlight { count: 0, cap }
    }

    pub fn count(&self) -> (r: usize)
        ensures
            r == self.count_spec(),
    {
        self.count
    }

    pub fn cap(&self) -> (r: usize)
        ensures
            r == self.cap_spec(),
    {
        self.cap
    }

    /// Whether a new operation may be submitted now.
    pub fn has_room(&self) -> (r: bool)
        ensures
            r == (self.count_spec() < self.cap_spec()),
    {
        self.count < self.cap
    }

    /// Takes a slot for a new operation. At the cap nothing changes and the
    /// result is false: the caller drops the operation.
    pub fn try_acquire(&mut self) -> (r: bool)
        requires
            old(self).wf(),
        ensures
            final(self).wf(),
            final(self).cap_spec() == old(self).cap_spec(),
            r == (old(self).count_spec() < old(self).cap_spec()),
            final(self).count_spec() == after_acquire(old(self).count_spec(), old(self).cap_spec()),
    {
        if self.count < self.cap {
            self.count = self.count + 1;
            true
        } else {
            false
        }
    }

    /// Forgets every slot, as when a new game starts.
    pub fn reset(&mut self)
        requires
            old(self).wf(),
        ensures
            final(self).wf(),
            final(self).cap_spec() == old(self).cap_spec(),
            final(self).count_spec() == 0,
    {
        self.count = 0;
    }

    /// Gives a slot back; at zero nothing changes.
    pub fn release(&mut self)
        requires
            old(self).wf(),
        ensures
            final(self).wf(),
            final(self).cap_spec() == old(self).cap_spec(),
            final(self).count_spec() == after_release(old(self).count_spec()),
    {
        if self.count > 0 {
            self.count = self.count - 1;
        }
    }
}

/// The count after an acquire attempt.
pub open spec fn after_acquire(count: nat, cap: nat) -> nat {
    if count < cap {
        count + 1
    } else {
        count
    }
}

/// The count after a release.
pub open spec fn after_release(count: nat) -> nat {
    if count > 0 {
        (count - 1) as nat
    } else {
        0
    }
}

/// The count after a run of acquire attempts (`true`) and releases (`false`).
pub open spec fn after_events(count: nat, cap: nat, events: Seq<bool>) -> nat
    decreases events.len(),
{
    if events.len() == 0 {
        count
    } else {
        let next = if events[0] {
            after_acquire(count, cap)
        } else {
            after_release(count)
        };
        after_events(next, cap, events.drop_first())
    }
}

/// Whatever acquires and releases happen, the counter stays within
/// `[0, cap]`; an acquire attempted at the cap leaves it at the cap.
pub proof fn lemma_in_flight_bounded(count: nat, cap: nat, events: Seq<bool>)
    requires
        count <= cap,
    ensures
        after_events(count, cap, events) <= cap,
        after_acquire(cap, cap) == cap,
    decreases events.len(),
{
    if events.len() > 0 {
        let next = if events[0] {
            after_acquire(count, cap)
        } else {
            after_release(count)
        };
        lemma_in_flight_bounded(next, cap, events.drop_first());
    }
}

} // verus!
