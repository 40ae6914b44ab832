//! System timer generator.
//!
//! The generator holds a 64-bit count exposed as two 32-bit register
//! halves; `Stgen` models the counter, its enable bit and its base
//! frequency.  The split read of the count rereads the upper half to catch
//! a carry between the two halves; with the modelled count still, the
//! reread sees the same value.

use vstd::prelude::*;

verus! {

/// STGEN peripheral.
#[derive(Debug, Clone, Copy, PartialEq, Eq, Structural)]
pub struct Stgen {
    /// The counter increments while set.
    pub enabled: bool,
    /// Current counter value.
    pub counter: u64,
    /// Base frequency in ticks per second.
    pub base_frequency: u32,
}

impl Stgen {
    /// Returns the peripheral instance in its reset state.
    pub fn new() -> (r: Self)
        ensures
            r == (Stgen { enabled: false, counter: 0, base_frequency: 0 }),
    {
        Self { enabled: false, counter: 0, base_frequency: 0 }
    }

    /// Returns the current counter value, read as two register halves with
    /// the upper half reread to catch a carry between the reads.
    pub fn value(&self) -> (r: u64)
        ensures
            r == self.counter,
    {
        let mut upper: u32 = (self.counter >> 32) as u32;
        let lower: u32 = (self.counter & 0xFFFFFFFF) as u32;
        if upper < (self.counter >> 32) as u32 {
            // An overflow occurred inbetween reads of upper and lower.
            upper += 1;
        }

        let r: u64 = (upper as u64) << 32 | lower as u64;
        proof {
            let c = self.counter;
            assert((((c >> 32) as u32) as u64) << 32 | (((c & 0xFFFFFFFF) as u32) as u64) == c)
                by (bit_vector);
        }
        r
    }

    /// Sets the base frequency in number of ticks per second.
    ///
    /// This function can only be used when counter is stopped.
    pub fn set_base_frequency(&mut self, frequency: u32)
        requires
            !old(self).enabled,
        ensures
            *final(self) == (Stgen { base_frequency: frequency, ..*old(self) }),
    {
        self.base_frequency = frequency;
    }

    /// Enables incrementing the counter.
    pub fn start(&mut self)
        ensures
            *final(self) == (Stgen { enabled: true, ..*old(self) }),
    {
        self.enabled = true;
    }

    /// Disables incrementing the counter.
    pub fn stop(&mut self)
        ensures
            *final(self) == (Stgen { enabled: false, ..*old(self) }),
    {
        self.enabled = false;
    }
}

} // verus!
