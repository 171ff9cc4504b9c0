//! The bytes of a packet capture of USB traffic in the Linux USB link
//! type (`LINKTYPE_USB_LINUX`, 189).

use vstd::prelude::*;

use crate::bytes::{le_byte, le_bytes};
use crate::usbrequest::UsbRequest;

verus! {

/// The link type of Linux USB captures.
pub const LINKTYPE_USB_LINUX: u32 = 189;
/// The magic number that starts a capture file.
pub const PCAP_MAGIC: u32 = 0xa1b2c3d4;
/// The longest packet the capture keeps.
pub const SNAPLEN: u32 = 65_535;
/// The bus number recorded for the emulated controller.
pub const DEFAULT_BUS_NUMBER: u16 = 1;

/// Whether a packet records a submission or a completion.
#[derive(Debug, Clone, Copy, PartialEq, Eq, Structural)]
pub enum UsbEventType {
    Submission,
    Completion,
}

impl UsbEventType {
    /// `'S'` or `'C'`.
    pub fn code(self) -> (r: u8)
        ensures
            r == (if self == UsbEventType::Submission { 0x53u8 } else { 0x43u8 }),
    {
        match self {
            UsbEventType::Submission => 0x53,
            UsbEventType::Completion => 0x43,
        }
    }
}

/// The transfer types of the Linux USB link type.
#[derive(Debug, Clone, Copy, PartialEq, Eq, Structural)]
pub enum UsbTransferType {
    Control,
    Bulk,
    Interrupt,
}

impl UsbTransferType {
    /// Interrupt 1, control 2, bulk 3.
    pub fn code(self) -> (r: u8)
        ensures
            r == match self {
                UsbTransferType::Control => 2u8,
                UsbTransferType::Bulk => 3u8,
                UsbTransferType::Interrupt => 1u8,
            },
    {
        match self {
            UsbTransferType::Control => 2,
            UsbTransferType::Bulk => 3,
            UsbTransferType::Interrupt => 1,
        }
    }
}

/// The direction of a transfer.
#[derive(Debug, Clone, Copy, PartialEq, Eq, Structural)]
pub enum UsbDirection {
    HostToDevice,
    DeviceToHost,
}

impl UsbDirection {
    /// The endpoint address: the endpoint number with the direction bit 7
    /// set for device-to-host transfers.
    pub fn endpoint_address(self, endpoint: u8) -> (r: u8)
        ensures
            r == match self {
                UsbDirection::HostToDevice => endpoint & 0x7f,
                UsbDirection::DeviceToHost => endpoint | 0x80,
            },
    {
        match self {
            UsbDirection::HostToDevice => endpoint & 0x7f,
            UsbDirection::DeviceToHost => endpoint | 0x80,
        }
    }
}

/// A capture time stamp.
#[derive(Debug, Clone, Copy, Default, PartialEq, Eq, Structural)]
pub struct Timestamp {
    pub seconds: u32,
    pub microseconds: u32,
}

/// The Linux USB pseudo header that precedes each captured packet.
#[derive(Debug, Clone, Copy, PartialEq, Eq)]
pub struct UsbPacketLinktypeHeader {
    pub id: u64,
    pub event_type: u8,
    pub transfer_type: u8,
    pub endpoint_address: u8,
    pub device_address: u8,
    pub bus_number: u16,
    pub setup_flag: u8,
    pub data_flag: u8,
    pub status: i32,
    pub urb_len: u32,
    pub data_len: u32,
    pub setup: [u8; 8],
}

/// Append the `n` little-endian bytes of `value` to `v`.
fn push_le(v: &mut Vec<u8>, value: u64, n: usize)
    requires
        n <= 8,
    ensures
        final(v)@ == old(v)@ + le_bytes(value as nat, n as nat),
{
    let mut i: usize = 0;
    while i < n
        invariant
            i <= n,
            n <= 8,
            v@ == old(v)@ + le_bytes(value as nat, i as nat),
        decreases n - i,
    {
        v.push(le_byte(value, i));
        i = i + 1;
        assert(v@ =~= old(v)@ + le_bytes(value as nat, i as nat));
    }
}

/// The 24-byte global header of a capture file: magic, version 2.4, zero
/// time zone and accuracy, snap length and link type.
pub open spec fn global_header_spec() -> Seq<u8> {
    le_bytes(PCAP_MAGIC as nat, 4) + le_bytes(2, 2) + le_bytes(4, 2) + le_bytes(0, 4) + le_bytes(0, 4)
        + le_bytes(SNAPLEN as nat, 4) + le_bytes(LINKTYPE_USB_LINUX as nat, 4)
}

/// The global header of a capture file.
pub fn global_header() -> (r: Vec<u8>)
    ensures
        r@ == global_header_spec(),
{
    let mut v: Vec<u8> = Vec::new();
    push_le(&mut v, PCAP_MAGIC as u64, 4);
    push_le(&mut v, 2, 2);
    push_le(&mut v, 4, 2);
    push_le(&mut v, 0, 4);
    push_le(&mut v, 0, 4);
    push_le(&mut v, SNAPLEN as u64, 4);
    push_le(&mut v, LINKTYPE_USB_LINUX as u64, 4);
    v
}

/// The 48 bytes of a pseudo header, all fields little-endian.
pub open spec fn header_spec(h: UsbPacketLinktypeHeader, t: Timestamp) -> Seq<u8> {
    le_bytes(h.id as nat, 8) + seq![h.event_type, h.transfer_type, h.endpoint_address, h.device_address]
        + le_bytes(h.bus_number as nat, 2) + seq![h.setup_flag, h.data_flag] + le_bytes(t.seconds as nat, 8)
        + le_bytes(t.microseconds as nat, 4) + le_bytes((h.status as u32) as nat, 4) + le_bytes(h.urb_len as nat, 4)
        + le_bytes(h.data_len as nat, 4) + h.setup@
}

impl UsbPacketLinktypeHeader {
    /// The bytes of the header for a packet captured at `timestamp`.
    pub fn header_bytes(&self, timestamp: Timestamp) -> (r: Vec<u8>)
        ensures
            r@ == header_spec(*self, timestamp),
            r@.len() == 48,
    {
        let mut v: Vec<u8> = Vec::new();
        push_le(&mut v, self.id, 8);
        v.push(self.event_type);
        v.push(self.transfer_type);
        v.push(self.endpoint_address);
        v.push(self.device_address);
        push_le(&mut v, self.bus_number as u64, 2);
        v.push(self.setup_flag);
        v.push(self.data_flag);
        push_le(&mut v, timestamp.seconds as u64, 8);
        push_le(&mut v, timestamp.microseconds as u64, 4);
        push_le(&mut v, (self.status as u32) as u64, 4);
        push_le(&mut v, self.urb_len as u64, 4);
        push_le(&mut v, self.data_len as u64, 4);
        let mut i: usize = 0;
        let ghost v0 = v@;
        while i < 8
            invariant
                i <= 8,
                v@ == v0 + self.setup@.subrange(0, i as int),
            decreases 8 - i,
        {
            v.push(self.setup[i]);
            i = i + 1;
            assert(v@ =~= v0 + self.setup@.subrange(0, i as int));
        }
        assert(self.setup@.subrange(0, 8) =~= self.setup@);
        assert(v@ =~= header_spec(*self, timestamp));
        v
    }
}

/// The bytes of one capture record: time stamp, included and original
/// length (equal), the pseudo header and the payload.
pub open spec fn record_spec(t: Timestamp, h: UsbPacketLinktypeHeader, payload: Seq<u8>) -> Seq<u8> {
    let len = (48 + payload.len()) as u32;
    le_bytes(t.seconds as nat, 4) + le_bytes(t.microseconds as nat, 4) + le_bytes(len as nat, 4) + le_bytes(
        len as nat,
        4,
    ) + header_spec(h, t) + payload
}

/// The capture record of `payload` with pseudo header `meta`.
pub fn record_bytes(timestamp: Timestamp, meta: &UsbPacketLinktypeHeader, payload: &[u8]) -> (r: Vec<u8>)
    requires
        48 + payload@.len() <= u32::MAX,
    ensures
        r@ == record_spec(timestamp, *meta, payload@),
{
    let header = meta.header_bytes(timestamp);
    let len = (48 + payload.len()) as u32;
    let mut v: Vec<u8> = Vec::new();
    push_le(&mut v, timestamp.seconds as u64, 4);
    push_le(&mut v, timestamp.microseconds as u64, 4);
    push_le(&mut v, len as u64, 4);
    push_le(&mut v, len as u64, 4);
    let ghost v0 = v@;
    let mut i: usize = 0;
    while i < header.len()
        invariant
            i <= header@.len(),
            v@ == v0 + header@.subrange(0, i as int),
        decreases header@.len() - i,
    {
        v.push(header[i]);
        i = i + 1;
        assert(v@ =~= v0 + header@.subrange(0, i as int));
    }
    let ghost v1 = v@;
    let mut j: usize = 0;
    while j < payload.len()
        invariant
            j <= payload@.len(),
            v@ == v1 + payload@.subrange(0, j as int),
        decreases payload@.len() - j,
    {
        v.push(payload[j]);
        j = j + 1;
        assert(v@ =~= v1 + payload@.subrange(0, j as int));
    }
    assert(header@.subrange(0, header@.len() as int) =~= header@);
    assert(payload@.subrange(0, payload@.len() as int) =~= payload@);
    assert(v@ =~= record_spec(timestamp, *meta, payload@));
    v
}

/// The eight bytes of the setup packet of a control request.
pub fn build_setup_bytes(request: &UsbRequest) -> (r: [u8; 8])
    ensures
        r@ == seq![request.request_type, request.request] + le_bytes(request.value as nat, 2) + le_bytes(
            request.index as nat,
            2,
        ) + le_bytes(request.length as nat, 2),
{
    let r = [
        request.request_type,
        request.request,
        le_byte(request.value as u64, 0),
        le_byte(request.value as u64, 1),
        le_byte(request.index as u64, 0),
        le_byte(request.index as u64, 1),
        le_byte(request.length as u64, 0),
        le_byte(request.length as u64, 1),
    ];
    assert(r@ =~= seq![request.request_type, request.request] + le_bytes(request.value as nat, 2) + le_bytes(
        request.index as nat,
        2,
    ) + le_bytes(request.length as nat, 2));
    r
}

/// The pseudo header of a control packet on endpoint 0 of device
/// `slot_id`: the setup packet is recorded where there is one, the data
/// flag where there is a payload.
pub fn control_packet_header(
    request_id: u64,
    slot_id: u8,
    bus_number: u16,
    event: UsbEventType,
    direction: UsbDirection,
    status: i32,
    urb_len: u32,
    payload_len: u32,
    setup: Option<[u8; 8]>,
) -> (r: UsbPacketLinktypeHeader)
    ensures
        r.id == request_id,
        r.event_type == (if event == UsbEventType::Submission { 0x53u8 } else { 0x43u8 }),
        r.transfer_type == 2,
        r.endpoint_address == (if direction == UsbDirection::DeviceToHost { 0x80u8 } else { 0u8 }),
        r.device_address == slot_id,
        r.bus_number == bus_number,
        r.setup_flag == (if setup is Some { 1u8 } else { 0u8 }),
        r.data_flag == (if payload_len != 0 { 1u8 } else { 0u8 }),
        r.status == status,
        r.urb_len == urb_len,
        r.data_len == payload_len,
        r.setup@ == match setup {
            Some(s) => s@,
            None => Seq::new(8, |i: int| 0u8),
        },
{
    let (setup_flag, setup_bytes): (u8, [u8; 8]) = match setup {
        Some(s) => (1, s),
        None => (0, [0u8; 8]),
    };
    assert(0u8 & 0x7f == 0 && 0u8 | 0x80 == 0x80) by (bit_vector);
    let r = UsbPacketLinktypeHeader {
        id: request_id,
        event_type: event.code(),
        transfer_type: UsbTransferType::Control.code(),
        endpoint_address: direction.endpoint_address(0),
        device_address: slot_id,
        bus_number,
        setup_flag,
        data_flag: if payload_len != 0 { 1 } else { 0 },
        status,
        urb_len,
        data_len: payload_len,
        setup: setup_bytes,
    };
    assert(setup is None ==> r.setup@ =~= Seq::new(8, |i: int| 0u8));
    r
}

/// The pseudo header that records the submission of `request`.
pub fn control_submission_header(slot_id: u8, bus_number: u16, request: &UsbRequest, direction: UsbDirection, payload_len: u32) -> (r: UsbPacketLinktypeHeader)
    ensures
        r.id == request.address,
        r.event_type == 0x53,
        r.setup_flag == 1,
        r.urb_len == request.length,
        r.status == 0,
        r.device_address == slot_id,
        r.data_len == payload_len,
{
    control_packet_header(
        request.address,
        slot_id,
        bus_number,
        UsbEventType::Submission,
        direction,
        0,
        request.length as u32,
        payload_len,
        Some(build_setup_bytes(request)),
    )
}

/// The pseudo header that records the completion of the request with id
/// `request_id`.
pub fn control_completion_header(
    request_id: u64,
    slot_id: u8,
    bus_number: u16,
    direction: UsbDirection,
    status: i32,
    actual_length: u32,
    payload_len: u32,
) -> (r: UsbPacketLinktypeHeader)
    ensures
        r.id == request_id,
        r.event_type == 0x43,
        r.setup_flag == 0,
        r.urb_len == actual_length,
        r.status == status,
        r.device_address == slot_id,
        r.data_len == payload_len,
{
    control_packet_header(
        request_id,
        slot_id,
        bus_number,
        UsbEventType::Completion,
        direction,
        status,
        actual_length,
        payload_len,
        None,
    )
}

} // verus!
