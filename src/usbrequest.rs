//! USB control requests as assembled from a control transfer ring.

use vstd::prelude::*;

verus! {

/// A USB control request (USB 2.0, section 9.3) and the guest address of the
/// Status Stage TRB that ends it. `data` holds the Data Stage's buffer
/// pointer for a request with a data stage.
#[derive(Debug, Clone, Copy, PartialEq, Eq, Structural)]
pub struct UsbRequest {
    pub address: u64,
    pub request_type: u8,
    pub request: u8,
    pub value: u16,
    pub index: u16,
    pub length: u16,
    pub data: Option<u64>,
}

} // verus!
