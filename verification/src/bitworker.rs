//! Helper module for bit manipulation.

use vstd::prelude::*;

verus! {

/// Mask of `count` one-bits starting at bit `offset`.
pub open spec fn spec_bitmask(count: u8, offset: u8) -> u32 {
    ((((1u32 << (count as u32)) - 1) as u32) << (offset as u32))
}

/// A value with `count` bits at `position` replaced by the low bits of
/// `replacement`.
#[verifier::opaque]
pub open spec fn spec_replace(value: u32, replacement: u32, position: u8, count: u8) -> u32 {
    (value & !spec_bitmask(count, position)) | ((replacement << (position as u32)) & spec_bitmask(
        count,
        position,
    ))
}

/// Returns a mask for a number of bits.
/// - `count`:   Number of bits
/// - `offset`:  Bit offset, starting with 0
///
/// # Example
///     bitmask(4, 2) -> 0b111100
pub fn bitmask(count: u8, offset: u8) -> (r: u32)
    requires
        count < 32,
        offset < 32,
    ensures
        r == spec_bitmask(count, offset),
{
    proof {
        assert(count < 32 ==> 1u32 << (count as u32) >= 1) by (bit_vector);
    }
    ((1u32 << (count as u32)) - 1) << (offset as u32)
}

/// Representation of value for manipulation.
#[derive(Debug, PartialEq, Eq, Clone, Copy, Default)]
pub struct BitWorker {
    /// Current value.
    value: u32,
}

impl View for BitWorker {
    type V = u32;

    closed spec fn view(&self) -> u32 {
        self.value
    }
}

impl BitWorker {
    /// Returns a new instance with a start value.
    pub fn new(value: u32) -> (r: Self)
        ensures
            r@ == value,
    {
        Self { value }
    }

    /// Returns the current value.
    pub fn value(&self) -> (r: u32)
        ensures
            r == self@,
    {
        self.value
    }

    /// Returns the value for a number of bits at a specific position.
    /// - `position`:   Bit number, starting with 0
    /// - `count`:      Number of bits
    ///
    /// # Example
    ///     subvalue(0b11010100, 3, 4) -> 0b1010
    pub fn subvalue(&self, position: u8, count: u8) -> (r: u32)
        requires
            position < 32,
            count < 32,
        ensures
            r == (self@ >> (position as u32)) & spec_bitmask(count, 0),
    {
        (self.value >> (position as u32)) & bitmask(count, 0)
    }

    /// Returns if a single bit is set at a specific position.
    /// - `position`:   Number of bit to check, starting with 0
    ///
    /// # Example
    ///     is_set(0b01100100, 5) -> true
    pub fn is_set(&self, position: u8) -> (r: bool)
        requires
            position < 32,
        ensures
            r == (((self@ >> (position as u32)) & 0x01) != 0),
    {
        ((self.value >> (position as u32)) & 0x01) != 0
    }

    /// Sets a single bit at a specific position.
    /// - `position`:   Number of bit to set, starting with 0
    ///
    /// # Example
    ///     set(0b11000001, 3) -> 0b11001001
    pub fn set(&mut self, position: u8) -> (r: &mut Self)
        requires
            position < 32,
        ensures
            (*r)@ == old(self)@ | (1u32 << (position as u32)),
            (*final(self))@ == (*final(r))@,
    {
        self.value = self.value | (1u32 << (position as u32));

        self
    }

    /// Clears a single bit at a specific position.
    /// - `position`:   Number of bit to clear, starting with 0
    ///
    /// # Example:
    ///     clear_at(0b11000001, 6) -> 0b10000001
    pub fn clear(&mut self, position: u32) -> (r: &mut Self)
        requires
            position < 32,
        ensures
            (*r)@ == old(self)@ & !(1u32 << position),
            (*final(self))@ == (*final(r))@,
    {
        self.value = self.value & !(1u32 << position);

        self
    }

    /// Replaces a number of bits with a new value.
    /// - `replacement`:    Replacement value
    /// - `position`:       Bit offset for replacement, starting with 0
    /// - `count`:          Number of bits to replace
    ///
    /// # Example
    ///     replace(0b10010100, 0b1110, 3, 3) -> 0b10110100
    pub fn replace(&mut self, replacement: u32, position: u8, count: u8) -> (r: &mut Self)
        requires
            position < 32,
            count < 32,
        ensures
            (*r)@ == (old(self)@ & !spec_bitmask(count, position)) | ((replacement << (
            position as u32)) & spec_bitmask(count, position)),
            (*r)@ == spec_replace(old(self)@, replacement, position, count),
            (*final(self))@ == (*final(r))@,
    {
        proof {
            reveal(spec_replace);
        }
        let mask = bitmask(count, position);
        self.value = (self.value & !mask) | ((replacement << (position as u32)) & mask);

        self
    }

    /// Mask the value.
    /// - `mask`:   Mask to apply.
    ///
    /// # Example
    ///     mask(0b11001011, 0b01100001) -> 0b01000001
    pub fn mask(&mut self, mask: u32) -> (r: &mut Self)
        ensures
            (*r)@ == old(self)@ & mask,
            (*final(self))@ == (*final(r))@,
    {
        self.value = self.value & mask;

        self
    }
}

} // verus!
