//! MSI messages.

use vstd::prelude::*;

verus! {

/// The address/data pair of a message-signalled interrupt.
#[derive(Debug, Clone, Copy, PartialEq, Eq, Structural)]
pub struct MsiMessage {
    /// The guest physical address the message is sent to.
    pub address: u64,
    /// The payload of the message.
    pub data: u16,
}

impl MsiMessage {
    /// Create a new message.
    pub fn new(address: u64, data: u16) -> (r: MsiMessage)
        ensures
            r.address == address,
            r.data == data,
    {
        MsiMessage { address, data }
    }
}

} // verus!
