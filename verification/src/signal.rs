//! The signal between the interrupt handler and the main loop.

use vstd::prelude::*;

verus! {

/// A signal with room for one event. The interrupt handler sets it, the main
/// loop tests and clears it; nobody else touches it. Events that arrive while
/// it is set are merged into the one that is pending.
///
/// Both operations take the flag exclusively. Where the handler can preempt
/// the main loop, each call belongs in a critical section, which makes it
/// indivisible.
#[derive(Clone, Copy, Debug, PartialEq, Eq, Structural)]
pub struct EventFlag {
    pending: bool,
}

impl View for EventFlag {
    type V = bool;

    /// Whether an event is pending.
    closed spec fn view(&self) -> bool {
        self.pending
    }
}

impl EventFlag {
    /// A flag with no event pending.
    pub fn new() -> (r: EventFlag)
        ensures
            !r@,
    {
        EventFlag { pending: false }
    }

    /// Records that an event occurred. This is all that the interrupt handler
    /// does.
    pub fn set(&mut self)
        ensures
            final(self)@,
    {
        self.pending = true;
    }

    /// Says whether an event was pending, and leaves none pending. The flag is
    /// cleared before the event is processed, so that an event that arrives
    /// during processing is kept for the next test.
    pub fn test_and_clear(&mut self) -> (fired: bool)
        ensures
            fired == old(self)@,
            !final(self)@,
    {
        let fired: bool = self.pending;
        self.pending = false;
        fired
    }

    /// Whether an event is pending.
    pub fn is_set(&self) -> (r: bool)
        ensures
            r == self@,
    {
        self.pending
    }
}

} // verus!
