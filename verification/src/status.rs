//! The processor status register: eight named flag bits packed into one
//! byte, in the order (bit 7 down to bit 0)
//! Negative, Overflow, Break2, Break, DecimalMode, InterruptDisable,
//! Zero, Carry.

use vstd::prelude::*;

verus! {

pub const CARRY: u8 = 0b0000_0001;

pub const ZERO: u8 = 0b0000_0010;

pub const INTERRUPT_DISABLE: u8 = 0b0000_0100;

pub const DECIMAL_MODE: u8 = 0b0000_1000;

pub const BREAK: u8 = 0b0001_0000;

pub const BREAK2: u8 = 0b0010_0000;

pub const OVERFLOW: u8 = 0b0100_0000;

pub const NEGATIV: u8 = 0b1000_0000;

/// The status byte that a freshly constructed or reset processor holds:
/// InterruptDisable and Break2 set, everything else clear.
pub const POWER_ON_STATUS: u8 = 0b0010_0100;

/// The bits of `bits` selected by `mask` are set when `on` is true and
/// cleared when it is false; the bits outside `mask` keep their value.
pub open spec fn set_mask(bits: u8, mask: u8, on: bool) -> u8 {
    if on {
        bits | mask
    } else {
        bits & !mask
    }
}

/// The processor status register, stored bit-for-bit as the 6502 packs it.
#[derive(Clone, Copy, Debug, PartialEq, Eq, Structural)]
pub struct CPUFlags {
    pub bits: u8,
}

impl CPUFlags {
    /// Builds a status register straight from a raw byte. Every one of
    /// the eight bits is a defined flag, so no bit is dropped.
    pub fn from_bits_truncate(bits: u8) -> (r: CPUFlags)
        ensures
            r.bits == bits,
    {
        CPUFlags { bits }
    }

    /// The raw status byte.
    pub fn bits(&self) -> (r: u8)
        ensures
            r == self.bits,
    {
        self.bits
    }

    /// True when at least one of the bits in `mask` is set.
    pub fn contains(&self, mask: u8) -> (r: bool)
        ensures
            r == (self.bits & mask != 0),
    {
        self.bits & mask != 0
    }

    /// Sets every bit of `mask`.
    pub fn insert(&mut self, mask: u8)
        ensures
            final (self).bits == old(self).bits | mask,
    {
        self.bits = self.bits | mask;
    }

    /// Clears every bit of `mask`.
    pub fn remove(&mut self, mask: u8)
        ensures
            final (self).bits == old(self).bits & !mask,
    {
        self.bits = self.bits & !mask;
    }

    /// Sets the bits of `mask` when `on` is true, clears them otherwise.
    pub fn set_flag(&mut self, mask: u8, on: bool)
        ensures
            final (self).bits == set_mask(old(self).bits, mask, on),
    {
        if on {
            self.bits = self.bits | mask;
        } else {
            self.bits = self.bits & !mask;
        }
    }
}

} // verus!
