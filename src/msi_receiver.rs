//! Receivers of message-signalled interrupts.

use vstd::prelude::*;

use crate::msi::MsiMessage;

verus! {

/// Something that takes MSIs sent by a device.
pub trait MsiReceiver {
    /// Deliver `msi`.
    fn send_msi(&self, msi: MsiMessage);
}

/// A receiver that drops every message.
#[derive(Debug, Clone, Copy, Default)]
pub struct DummyMsiReceiver {}

impl DummyMsiReceiver {
    /// A receiver that drops every message.
    pub fn new() -> (r: DummyMsiReceiver) {
        DummyMsiReceiver {  }
    }
}

impl MsiReceiver for DummyMsiReceiver {
    fn send_msi(&self, msi: MsiMessage) {
    }
}

} // verus!
