//! The 6502 status register P, bit by bit.

use vstd::prelude::*;

verus! {

pub const CARRY: u8 = 0x01;

pub const ZERO: u8 = 0x02;

pub const INTERRUPT_DISABLE: u8 = 0x04;

pub const DECIMAL_MODE: u8 = 0x08;

pub const BREAK_COMMAND: u8 = 0x10;

pub const UNUSED: u8 = 0x20;

pub const OVERFLOW: u8 = 0x40;

pub const NEGATIVE: u8 = 0x80;

/// The processor status register: eight independent flag bits.
#[derive(Clone, Copy, Debug, PartialEq, Eq, Structural)]
pub struct StatusFlags {
    pub bits: u8,
}

impl StatusFlags {
    /// All flags clear.
    pub fn empty() -> (r: StatusFlags)
        ensures
            r.bits == 0,
    {
        StatusFlags { bits: 0 }
    }

    /// All eight bits carry meaning, so every byte is a valid status value.
    pub fn from_bits_truncate(bits: u8) -> (r: StatusFlags)
        ensures
            r.bits == bits,
    {
        StatusFlags { bits }
    }

    pub fn bits(&self) -> (r: u8)
        ensures
            r == self.bits,
    {
        self.bits
    }

    pub fn contains(&self, mask: u8) -> (r: bool)
        ensures
            r == (self.bits & mask == mask),
    {
        self.bits & mask == mask
    }

    pub fn insert(&mut self, mask: u8)
        ensures
            final(self).bits == old(self).bits | mask,
    {
        self.bits = self.bits | mask;
    }

    pub fn remove(&mut self, mask: u8)
        ensures
            final(self).bits == old(self).bits & !mask,
    {
        self.bits = self.bits & !mask;
    }

    /// Sets or clears `mask` according to `value`.
    pub fn set(&mut self, mask: u8, value: bool)
        ensures
            final(self).bits == if value {
                old(self).bits | mask
            } else {
                old(self).bits & !mask
            },
    {
        if value {
            self.insert(mask);
        } else {
            self.remove(mask);
        }
    }
}

} // verus!
