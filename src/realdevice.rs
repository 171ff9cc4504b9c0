//! What the controller knows of the USB devices attached to it.

use vstd::prelude::*;

verus! {

/// The speed of a USB device, numbered as in the PORTSC port speed field.
#[derive(Debug, Clone, Copy, PartialEq, Eq, Structural)]
pub enum Speed {
    Full,
    Low,
    High,
    Super,
    SuperPlus,
}

/// The PORTSC port speed value of a speed.
pub open spec fn speed_value(s: Speed) -> u8 {
    match s {
        Speed::Full => 1,
        Speed::Low => 2,
        Speed::High => 3,
        Speed::Super => 4,
        Speed::SuperPlus => 5,
    }
}

impl Speed {
    /// The PORTSC port speed value.
    pub fn value(self) -> (r: u8)
        ensures
            r == speed_value(self),
    {
        match self {
            Speed::Full => 1,
            Speed::Low => 2,
            Speed::High => 3,
            Speed::Super => 4,
            Speed::SuperPlus => 5,
        }
    }

    /// Whether the speed is one of USB 2 (low, full or high speed).
    pub fn is_usb2_speed(self) -> (r: bool)
        ensures
            r == (speed_value(self) <= 3),
    {
        self.value() <= 3
    }
}

/// The kinds of endpoints the controller serves.
#[derive(Debug, Clone, Copy, PartialEq, Eq, Structural)]
pub enum EndpointType {
    Control,
    BulkIn,
    BulkOut,
    InterruptIn,
}

/// The endpoint type that the EP Type field (bits 5:3 of byte 4 of an
/// endpoint context) names, where it is one the controller serves.
pub open spec fn endpoint_type_spec(field: u8) -> Option<EndpointType> {
    if field == 2 {
        Some(EndpointType::BulkOut)
    } else if field == 4 {
        Some(EndpointType::Control)
    } else if field == 6 {
        Some(EndpointType::BulkIn)
    } else if field == 7 {
        Some(EndpointType::InterruptIn)
    } else {
        None
    }
}

impl EndpointType {
    /// Decode the EP Type field of an endpoint context.
    pub fn from_context_field(field: u8) -> (r: Option<EndpointType>)
        ensures
            r == endpoint_type_spec(field),
    {
        if field == 2 {
            Some(EndpointType::BulkOut)
        } else if field == 4 {
            Some(EndpointType::Control)
        } else if field == 6 {
            Some(EndpointType::BulkIn)
        } else if field == 7 {
            Some(EndpointType::InterruptIn)
        } else {
            None
        }
    }
}

/// The size of the buffer an IN transfer reads into: the transfer length
/// rounded up to whole packets, and at least one packet.
pub open spec fn in_buffer_size_spec(transfer_length: nat, max_packet_size: nat) -> nat {
    if transfer_length == 0 {
        max_packet_size
    } else {
        ((transfer_length + max_packet_size - 1) / max_packet_size as int) as nat * max_packet_size
    }
}

/// The buffer size for an IN transfer of `transfer_length` bytes on an
/// endpoint with packets of `max_packet_size` bytes.
pub fn in_buffer_size(transfer_length: u32, max_packet_size: u16) -> (r: u64)
    requires
        max_packet_size > 0,
    ensures
        r == in_buffer_size_spec(transfer_length as nat, max_packet_size as nat),
{
    let mps = max_packet_size as u64;
    if transfer_length == 0 {
        return mps;
    }
    let packets = (transfer_length as u64 + mps - 1) / mps;
    assert(packets * mps <= (transfer_length as u64 + mps) as int) by (nonlinear_arith)
        requires
            packets == (transfer_length + mps - 1) / mps as int,
            mps > 0,
    ;
    packets * mps
}

/// How many bytes of an IN transfer reach the guest: what the device sent,
/// but never more than the transfer asked for.
pub fn in_bytes_to_copy(actual: u64, transfer_length: u32) -> (r: u64)
    ensures
        r == if actual < transfer_length { actual } else { transfer_length as u64 },
{
    if actual < transfer_length as u64 {
        actual
    } else {
        transfer_length as u64
    }
}

/// The recipient of a control request (bits 4:0 of bmRequestType).
#[derive(Debug, Clone, Copy, PartialEq, Eq, Structural)]
pub enum Recipient {
    Device,
    Interface,
    Endpoint,
}

/// The type of a control request (bits 6:5 of bmRequestType).
#[derive(Debug, Clone, Copy, PartialEq, Eq, Structural)]
pub enum ControlType {
    Standard,
    Class,
    Vendor,
}

/// Split bmRequestType into recipient and type; `None` for the reserved
/// values, which no device request uses.
pub fn extract_recipient_and_type(request_type: u8) -> (r: Option<(Recipient, ControlType)>)
    ensures
        r is Some <==> (request_type & 0x1f <= 2 && (request_type >> 5) & 0x3 <= 2),
        r matches Some((rec, ty)) ==> (rec == Recipient::Device <==> request_type & 0x1f == 0)
            && (rec == Recipient::Interface <==> request_type & 0x1f == 1)
            && (rec == Recipient::Endpoint <==> request_type & 0x1f == 2)
            && (ty == ControlType::Standard <==> (request_type >> 5) & 0x3 == 0)
            && (ty == ControlType::Class <==> (request_type >> 5) & 0x3 == 1)
            && (ty == ControlType::Vendor <==> (request_type >> 5) & 0x3 == 2),
{
    let recipient = match request_type & 0x1f {
        0 => Recipient::Device,
        1 => Recipient::Interface,
        2 => Recipient::Endpoint,
        _ => return None,
    };
    let control_type = match (request_type >> 5) & 0x3 {
        0 => ControlType::Standard,
        1 => ControlType::Class,
        2 => ControlType::Vendor,
        _ => return None,
    };
    Some((recipient, control_type))
}

} // verus!

