//! The port status and control register.

use vstd::prelude::*;

verus! {

/// The write-one-to-clear bits of PORTSC: the connect, port-enable and
/// port-reset change bits (17, 18 and 21).
pub const PORTSC_RW1C_BITS: u64 = 0x0026_0000;

/// A PORTSC register: its change bits clear where a one is written, all other
/// bits are read-only.
#[derive(Debug, Clone, Copy)]
pub struct PortscRegister {
    value: u64,
    bitmask_rw1c: u64,
}

impl PortscRegister {
    /// The current content of the register.
    pub closed spec fn value(&self) -> u64 {
        self.value
    }

    /// The bits that a written one clears.
    pub closed spec fn rw1c_mask(&self) -> u64 {
        self.bitmask_rw1c
    }

    /// A register holding `initial_value`.
    pub fn new(initial_value: u64) -> (r: PortscRegister)
        ensures
            r.value() == initial_value,
            r.rw1c_mask() == PORTSC_RW1C_BITS,
    {
        PortscRegister { value: initial_value, bitmask_rw1c: PORTSC_RW1C_BITS }
    }

    /// The current register value.
    pub fn read(&self) -> (r: u64)
        ensures
            r == self.value(),
    {
        self.value
    }

    /// Apply a guest write: each change bit written with a one clears, the
    /// rest of the register stays as it is.
    pub fn write(&mut self, new_value: u64)
        ensures
            final(self).rw1c_mask() == old(self).rw1c_mask(),
            final(self).value() == old(self).value() & !(new_value & old(self).rw1c_mask()),
    {
        let bits_to_clear = new_value & self.bitmask_rw1c;
        self.value = self.value & !bits_to_clear;
    }
}

} // verus!
