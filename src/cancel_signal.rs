use vstd::prelude::*;

verus! {

/// The pending state after a raise: one signal, whatever was pending before.
pub open spec fn raised(_pending: bool) -> bool {
    true
}

/// What a take reports and the pending state it leaves: it reports whether a
/// signal was pending and always leaves none.
pub open spec fn taken(pending: bool) -> (bool, bool) {
    (pending, false)
}

/// A one-shot stop request with no payload.
///
/// A raise overwrites an unconsumed one rather than queueing behind it, so at
/// most one signal is ever outstanding.
pub struct CancelSignal {
    pending: bool,
}

impl View for CancelSignal {
    type V = bool;

    /// Whether a signal is pending.
    closed spec fn view(&self) -> bool {
        self.pending
    }
}

impl CancelSignal {
    /// A signal with nothing pending.
    pub fn new() -> (r: Self)
        ensures
            !r@,
    {
        CancelSignal { pending: false }
    }

    /// Whether a signal is pending, without consuming it.
    pub fn is_pending(&self) -> (r: bool)
        ensures
            r == self@,
    {
        self.pending
    }

    /// Makes a signal pending, replacing any unconsumed one.
    pub fn raise(&mut self)
        ensures
            final(self)@ == raised(old(self)@),
    {
        self.pending = true;
    }

    /// Consumes the pending signal, if any; true when there was one.
    pub fn try_take(&mut self) -> (r: bool)
        ensures
            (r, final(self)@) == taken(old(self)@),
    {
        let was = self.pending;
        self.pending = false;
        was
    }
}

/// Two raises with no take between them leave a single signal: the first take
/// after them consumes it, and a second take finds nothing.
pub proof fn lemma_raise_is_single_shot(pending: bool)
    ensures
        raised(raised(pending)) == raised(pending),
        taken(raised(raised(pending))).0,
        !taken(taken(raised(raised(pending))).1).0,
{
}

} // verus!
