//! Arbiter of the shared conversion bus. Up to four devices multiplex one
//! serial bus through separate chip-select lines; the arbiter grants the bus
//! to at most one device at a time, and a transaction may run only between a
//! grant and its release.

use vstd::prelude::*;

verus! {

/// The owner of the shared bus, if any. No device retains an unsynchronized
/// bus handle: every transaction must be bracketed by `try_acquire` and
/// `release`.
pub struct BusArbiter {
    /// The device currently granted the bus.
    pub holder: Option<u8>,
}

impl BusArbiter {
    /// Whether no device holds the bus.
    pub open spec fn is_free(self) -> bool {
        self.holder is None
    }

    /// Whether the given device holds the bus.
    pub open spec fn holds(self, device: u8) -> bool {
        self.holder == Some(device)
    }

    /// A free bus.
    pub fn new() -> (bus: BusArbiter)
        ensures
            bus.is_free(),
    {
        BusArbiter { holder: None }
    }

    /// Try to take the bus for one device. The grant succeeds exactly when
    /// the bus is free; a busy bus is left untouched, so a caller in a
    /// context that must not block can retry with a bounded spin.
    pub fn try_acquire(&mut self, device: u8) -> (granted: bool)
        ensures
            granted == old(self).is_free(),
            granted ==> final(self).holds(device),
            !granted ==> *final(self) == *old(self),
    {
        match self.holder {
            None => {
                self.holder = Some(device);
                true
            },
            Some(_) => false,
        }
    }

    /// Give the bus back. Only the holder may release it.
    pub fn release(&mut self, device: u8)
        requires
            old(self).holds(device),
        ensures
            final(self).is_free(),
    {
        self.holder = None;
    }
}

/// Bus exclusivity: two devices can never hold the bus at once.
pub proof fn lemma_bus_exclusive(bus: BusArbiter, d1: u8, d2: u8)
    requires
        bus.holds(d1),
        bus.holds(d2),
    ensures
        d1 == d2,
{
}

} // verus!
