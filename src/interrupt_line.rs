//! Interrupt lines: something that can raise an interrupt.

use vstd::prelude::*;

verus! {

/// A line a device raises to signal an interrupt.
pub trait InterruptLine {
    /// Raise the interrupt.
    fn interrupt(&self);
}

/// An interrupt line that goes nowhere.
#[derive(Debug, Clone, Copy, Default)]
pub struct DummyInterruptLine {}

impl InterruptLine for DummyInterruptLine {
    fn interrupt(&self) {
    }
}

} // verus!
