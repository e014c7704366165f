//! The wall-clock-to-slot mapping service, as an interface with a settable
//! in-memory implementation for tests.

use vstd::prelude::*;

verus! {

/// Maps the current wall-clock time to a slot number, or reports that no
/// slot is available (time before genesis, or an unreadable clock).
pub trait SlotClock: Sized {
    /// The slot the clock currently reports, if any.
    spec fn current(&self) -> Option<u64>;

    /// Returns the present slot, or `None` if it is unavailable.
    fn present_slot(&self) -> (r: Option<u64>)
        ensures
            r == self.current(),
    ;
}

/// A slot clock for tests: reports exactly the slot it was set to.
pub struct TestingSlotClock {
    pub slot: Option<u64>,
}

impl TestingSlotClock {
    /// A clock reporting `slot`.
    pub fn new(slot: u64) -> (r: TestingSlotClock)
        ensures
            r.current() == Some(slot),
    {
        TestingSlotClock { slot: Some(slot) }
    }

    /// A clock reporting no slot, as before genesis.
    pub fn unavailable() -> (r: TestingSlotClock)
        ensures
            r.current() is None,
    {
        TestingSlotClock { slot: None }
    }

    /// Move the clock to `slot`.
    pub fn set_slot(&mut self, slot: u64)
        ensures
            final(self).current() == Some(slot),
    {
        self.slot = Some(slot);
    }
}

impl SlotClock for TestingSlotClock {
    open spec fn current(&self) -> Option<u64> {
        self.slot
    }

    fn present_slot(&self) -> (r: Option<u64>) {
        self.slot
    }
}

} // verus!
