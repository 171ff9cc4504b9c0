//! Encoding and decoding of 16-byte transfer request blocks (TRBs).

use vstd::prelude::*;

use crate::bytes::{byte_of, le_byte, le_bytes, le_value, read_le};
use crate::constants::{
    TRB_ADDRESS_DEVICE_COMMAND, TRB_COMMAND_COMPLETION_EVENT, TRB_CONFIGURE_ENDPOINT_COMMAND,
    TRB_DATA_STAGE, TRB_DISABLE_SLOT_COMMAND, TRB_ENABLE_SLOT_COMMAND, TRB_EVALUATE_CONTEXT_COMMAND,
    TRB_EVENT_DATA, TRB_FORCE_EVENT_COMMAND, TRB_FORCE_HEADER_COMMAND, TRB_GET_PORT_BANDWIDTH_COMMAND,
    TRB_ISOCH, TRB_LINK, TRB_NEGOTIATE_BANDWIDTH_COMMAND, TRB_NORMAL, TRB_NO_OP, TRB_NO_OP_COMMAND,
    TRB_PORT_STATUS_CHANGE_EVENT, TRB_RESET_DEVICE_COMMAND, TRB_RESET_ENDPOINT_COMMAND,
    TRB_SETUP_STAGE, TRB_SET_LATENCY_TOLERANCE_VALUE_COMMAND, TRB_SET_TR_DEQUEUE_POINTER_COMMAND,
    TRB_STATUS_STAGE, TRB_STOP_ENDPOINT_COMMAND, TRB_TRANSFER_EVENT,
};

verus! {

/// The raw bytes of one TRB.
pub type RawTrbBuffer = [u8; 16];

/// A TRB with all bytes zero.
pub fn zeroed_trb_buffer() -> (r: RawTrbBuffer)
    ensures
        forall|i: int| 0 <= i < 16 ==> r@[i] == 0,
{
    [0u8; 16]
}

/// The type field of a TRB: the high six bits of byte 13.
pub open spec fn trb_type(bytes: Seq<u8>) -> u8 {
    bytes[13] >> 2
}

/// The completion codes of event TRBs.
#[derive(Debug, Copy, Clone, PartialEq, Eq, Structural)]
pub enum CompletionCode {
    Invalid,
    Success,
    DataBufferError,
    BabbleDetectedError,
    UsbTransactionError,
    TrbError,
    StallError,
    ResourceError,
    BandwidthError,
    NoSlotsAvailableError,
    InvalidStreamTypeError,
    SlotNotEnabledError,
    EndpointNotEnabledError,
    ShortPacket,
    RingUnderrun,
    RingOverrun,
    VfEventRingFullError,
    ParameterError,
    BandwidthOverrunError,
    ContextStateError,
    NoPingResponseError,
    EventRingFullError,
    IncompatibleDeviceError,
    MissedServiceError,
    CommandRingStopped,
    CommandAborted,
    Stopped,
    StoppedLengthInvalid,
    StoppedShortedPacket,
    MaxExitLatencyTooLargeError,
    Reserved,
    IsochBufferOverrun,
    EventLostError,
    UndefinedError,
    InvalidStreamIdError,
    SecondaryBandwidthError,
    SplitTransactionError,
}

/// The number that encodes a completion code, in declaration order from 0.
pub open spec fn code_value(c: CompletionCode) -> u8 {
    match c {
        CompletionCode::Invalid => 0,
        CompletionCode::Success => 1,
        CompletionCode::DataBufferError => 2,
        CompletionCode::BabbleDetectedError => 3,
        CompletionCode::UsbTransactionError => 4,
        CompletionCode::TrbError => 5,
        CompletionCode::StallError => 6,
        CompletionCode::ResourceError => 7,
        CompletionCode::BandwidthError => 8,
        CompletionCode::NoSlotsAvailableError => 9,
        CompletionCode::InvalidStreamTypeError => 10,
        CompletionCode::SlotNotEnabledError => 11,
        CompletionCode::EndpointNotEnabledError => 12,
        CompletionCode::ShortPacket => 13,
        CompletionCode::RingUnderrun => 14,
        CompletionCode::RingOverrun => 15,
        CompletionCode::VfEventRingFullError => 16,
        CompletionCode::ParameterError => 17,
        CompletionCode::BandwidthOverrunError => 18,
        CompletionCode::ContextStateError => 19,
        CompletionCode::NoPingResponseError => 20,
        CompletionCode::EventRingFullError => 21,
        CompletionCode::IncompatibleDeviceError => 22,
        CompletionCode::MissedServiceError => 23,
        CompletionCode::CommandRingStopped => 24,
        CompletionCode::CommandAborted => 25,
        CompletionCode::Stopped => 26,
        CompletionCode::StoppedLengthInvalid => 27,
        CompletionCode::StoppedShortedPacket => 28,
        CompletionCode::MaxExitLatencyTooLargeError => 29,
        CompletionCode::Reserved => 30,
        CompletionCode::IsochBufferOverrun => 31,
        CompletionCode::EventLostError => 32,
        CompletionCode::UndefinedError => 33,
        CompletionCode::InvalidStreamIdError => 34,
        CompletionCode::SecondaryBandwidthError => 35,
        CompletionCode::SplitTransactionError => 36,
    }
}

impl CompletionCode {
    /// The number that encodes this code.
    pub fn value(self) -> (r: u8)
        ensures
            r == code_value(self),
    {
        match self {
            CompletionCode::Invalid => 0,
            CompletionCode::Success => 1,
            CompletionCode::DataBufferError => 2,
            CompletionCode::BabbleDetectedError => 3,
            CompletionCode::UsbTransactionError => 4,
            CompletionCode::TrbError => 5,
            CompletionCode::StallError => 6,
            CompletionCode::ResourceError => 7,
            CompletionCode::BandwidthError => 8,
            CompletionCode::NoSlotsAvailableError => 9,
            CompletionCode::InvalidStreamTypeError => 10,
            CompletionCode::SlotNotEnabledError => 11,
            CompletionCode::EndpointNotEnabledError => 12,
            CompletionCode::ShortPacket => 13,
            CompletionCode::RingUnderrun => 14,
            CompletionCode::RingOverrun => 15,
            CompletionCode::VfEventRingFullError => 16,
            CompletionCode::ParameterError => 17,
            CompletionCode::BandwidthOverrunError => 18,
            CompletionCode::ContextStateError => 19,
            CompletionCode::NoPingResponseError => 20,
            CompletionCode::EventRingFullError => 21,
            CompletionCode::IncompatibleDeviceError => 22,
            CompletionCode::MissedServiceError => 23,
            CompletionCode::CommandRingStopped => 24,
            CompletionCode::CommandAborted => 25,
            CompletionCode::Stopped => 26,
            CompletionCode::StoppedLengthInvalid => 27,
            CompletionCode::StoppedShortedPacket => 28,
            CompletionCode::MaxExitLatencyTooLargeError => 29,
            CompletionCode::Reserved => 30,
            CompletionCode::IsochBufferOverrun => 31,
            CompletionCode::EventLostError => 32,
            CompletionCode::UndefinedError => 33,
            CompletionCode::InvalidStreamIdError => 34,
            CompletionCode::SecondaryBandwidthError => 35,
            CompletionCode::SplitTransactionError => 36,
        }
    }
}

/// The fields of a command completion event.
#[derive(Debug, Clone, Copy, PartialEq, Eq, Structural)]
pub struct CommandCompletionEventTrbData {
    pub command_trb_pointer: u64,
    pub command_completion_parameter: u32,
    pub completion_code: CompletionCode,
    pub slot_id: u8,
}

/// The fields of a port status change event.
#[derive(Debug, Clone, Copy, PartialEq, Eq, Structural)]
pub struct PortStatusChangeEventTrbData {
    pub port_id: u8,
}

/// The fields of a transfer event.
#[derive(Debug, Clone, Copy, PartialEq, Eq, Structural)]
pub struct TransferEventTrbData {
    pub trb_pointer: u64,
    pub trb_transfer_length: u32,
    pub completion_code: CompletionCode,
    pub event_data: bool,
    pub endpoint_id: u8,
    pub slot_id: u8,
}

/// The event TRBs that the controller places on the event ring.
#[derive(Debug, Clone, Copy, PartialEq, Eq, Structural)]
pub enum EventTrb {
    Transfer(TransferEventTrbData),
    CommandCompletion(CommandCompletionEventTrbData),
    PortStatusChange(PortStatusChangeEventTrbData),
}

/// The TRB type that an event is encoded with.
pub open spec fn event_type(e: EventTrb) -> u8 {
    match e {
        EventTrb::Transfer(_) => TRB_TRANSFER_EVENT,
        EventTrb::CommandCompletion(_) => TRB_COMMAND_COMPLETION_EVENT,
        EventTrb::PortStatusChange(_) => TRB_PORT_STATUS_CHANGE_EVENT,
    }
}

/// The 16 bytes of an event TRB, with the cycle bit `cycle` in bit 0 of
/// byte 12 and the type in the high six bits of byte 13.
pub open spec fn event_bytes(e: EventTrb, cycle: bool) -> Seq<u8> {
    let c: u8 = if cycle { 1 } else { 0 };
    match e {
        EventTrb::CommandCompletion(d) => le_bytes(d.command_trb_pointer as nat, 8) + le_bytes(
            d.command_completion_parameter as nat,
            3,
        ) + seq![code_value(d.completion_code), c, TRB_COMMAND_COMPLETION_EVENT << 2, 0u8, d.slot_id],
        EventTrb::PortStatusChange(d) => seq![0u8, 0u8, 0u8, d.port_id] + Seq::new(7, |i: int| 0u8) + seq![
            code_value(CompletionCode::Success),
            c,
            TRB_PORT_STATUS_CHANGE_EVENT << 2,
            0u8,
            0u8,
        ],
        EventTrb::Transfer(d) => le_bytes(d.trb_pointer as nat, 8) + le_bytes(d.trb_transfer_length as nat, 3)
            + seq![
            code_value(d.completion_code),
            (if d.event_data { 4u8 } else { 0u8 }) | c,
            TRB_TRANSFER_EVENT << 2,
            d.endpoint_id,
            d.slot_id,
        ],
    }
}

impl EventTrb {
    /// A command completion event for the command TRB at
    /// `command_trb_pointer` (16-byte aligned); the parameter has 24 bits.
    pub fn new_command_completion_event_trb(
        command_trb_pointer: u64,
        command_completion_parameter: u32,
        completion_code: CompletionCode,
        slot_id: u8,
    ) -> (r: EventTrb)
        requires
            command_trb_pointer & 0x0f == 0,
            command_completion_parameter & 0xff00_0000 == 0,
        ensures
            r == EventTrb::CommandCompletion(
                CommandCompletionEventTrbData {
                    command_trb_pointer,
                    command_completion_parameter,
                    completion_code,
                    slot_id,
                },
            ),
    {
        EventTrb::CommandCompletion(
            CommandCompletionEventTrbData {
                command_trb_pointer,
                command_completion_parameter,
                completion_code,
                slot_id,
            },
        )
    }

    /// A port status change event for port `port_id`.
    pub fn new_port_status_change_event_trb(port_id: u8) -> (r: EventTrb)
        ensures
            r == EventTrb::PortStatusChange(PortStatusChangeEventTrbData { port_id }),
    {
        EventTrb::PortStatusChange(PortStatusChangeEventTrbData { port_id })
    }

    /// A transfer event for the transfer TRB at `trb_pointer`.
    pub fn new_transfer_event_trb(
        trb_pointer: u64,
        trb_transfer_length: u32,
        completion_code: CompletionCode,
        event_data: bool,
        endpoint_id: u8,
        slot_id: u8,
    ) -> (r: EventTrb)
        ensures
            r == EventTrb::Transfer(
                TransferEventTrbData {
                    trb_pointer,
                    trb_transfer_length,
                    completion_code,
                    event_data,
                    endpoint_id,
                    slot_id,
                },
            ),
    {
        EventTrb::Transfer(
            TransferEventTrbData {
                trb_pointer,
                trb_transfer_length,
                completion_code,
                event_data,
                endpoint_id,
                slot_id,
            },
        )
    }

    /// The bytes of the event, stamped with the cycle bit `cycle_bit`.
    pub fn to_bytes(&self, cycle_bit: bool) -> (r: RawTrbBuffer)
        ensures
            r@ == event_bytes(*self, cycle_bit),
    {
        let c: u8 = if cycle_bit { 1 } else { 0 };
        let r = match self {
            EventTrb::CommandCompletion(d) => {
                let p = d.command_trb_pointer;
                let q = d.command_completion_parameter as u64;
                [
                    le_byte(p, 0),
                    le_byte(p, 1),
                    le_byte(p, 2),
                    le_byte(p, 3),
                    le_byte(p, 4),
                    le_byte(p, 5),
                    le_byte(p, 6),
                    le_byte(p, 7),
                    le_byte(q, 0),
                    le_byte(q, 1),
                    le_byte(q, 2),
                    d.completion_code.value(),
                    c,
                    TRB_COMMAND_COMPLETION_EVENT << 2,
                    0,
                    d.slot_id,
                ]
            },
            EventTrb::PortStatusChange(d) => {
                [
                    0,
                    0,
                    0,
                    d.port_id,
                    0,
                    0,
                    0,
                    0,
                    0,
                    0,
                    0,
                    CompletionCode::Success.value(),
                    c,
                    TRB_PORT_STATUS_CHANGE_EVENT << 2,
                    0,
                    0,
                ]
            },
            EventTrb::Transfer(d) => {
                let p = d.trb_pointer;
                let q = d.trb_transfer_length as u64;
                let ed: u8 = if d.event_data { 4 } else { 0 };
                [
                    le_byte(p, 0),
                    le_byte(p, 1),
                    le_byte(p, 2),
                    le_byte(p, 3),
                    le_byte(p, 4),
                    le_byte(p, 5),
                    le_byte(p, 6),
                    le_byte(p, 7),
                    le_byte(q, 0),
                    le_byte(q, 1),
                    le_byte(q, 2),
                    d.completion_code.value(),
                    ed | c,
                    TRB_TRANSFER_EVENT << 2,
                    d.endpoint_id,
                    d.slot_id,
                ]
            },
        };
        assert(r@ =~= event_bytes(*self, cycle_bit));
        r
    }
}

/// The bytes of an encoded event carry the cycle bit in bit 0 of byte 12
/// and decode back to the event's type from the high six bits of byte 13.
pub proof fn lemma_event_round_trip(e: EventTrb, c: bool)
    ensures
        event_bytes(e, c).len() == 16,
        event_bytes(e, c)[12] & 1 == (if c { 1u8 } else { 0u8 }),
        trb_type(event_bytes(e, c)) == event_type(e),
{
    let b = event_bytes(e, c);
    let cv: u8 = if c { 1 } else { 0 };
    assert(cv & 1 == cv) by (bit_vector)
        requires
            cv == 0 || cv == 1,
    ;
    assert((0u8 | cv) & 1 == cv) by (bit_vector)
        requires
            cv == 0 || cv == 1,
    ;
    assert((4u8 | cv) & 1 == cv) by (bit_vector)
        requires
            cv == 0 || cv == 1,
    ;
    assert((32u8 << 2) >> 2 == 32u8) by (bit_vector);
    assert((33u8 << 2) >> 2 == 33u8) by (bit_vector);
    assert((34u8 << 2) >> 2 == 34u8) by (bit_vector);
    match e {
        EventTrb::Transfer(d) => {
            assert(b[12] == (if d.event_data { 4u8 } else { 0u8 }) | cv);
        },
        _ => {},
    }
}

/// Why a TRB could not be decoded.
#[derive(Debug, Clone, PartialEq, Eq)]
pub enum TrbParseError {
    /// The type names an optional command that is not supported.
    UnsupportedOptionalCommand(u8, String),
    /// The type names no TRB of the ring it was read from.
    UnknownTrbType(u8),
    /// A field that must be zero is not.
    RsvdZViolation,
}

/// The data of a Link TRB.
#[derive(Debug, Clone, Copy, PartialEq, Eq, Structural)]
pub struct LinkTrbData {
    pub ring_segment_pointer: u64,
    pub toggle_cycle: bool,
}

/// The data of an Address Device command.
#[derive(Debug, Clone, Copy, PartialEq, Eq, Structural)]
pub struct AddressDeviceCommandTrbData {
    pub input_context_pointer: u64,
    pub block_set_address_request: bool,
    pub slot_id: u8,
}

/// The data of a Configure Endpoint command.
#[derive(Debug, Clone, Copy, PartialEq, Eq, Structural)]
pub struct ConfigureEndpointCommandTrbData {
    pub input_context_pointer: u64,
    pub deconfigure: bool,
    pub slot_id: u8,
}

/// The data of a Stop Endpoint command.
#[derive(Debug, Clone, Copy, PartialEq, Eq, Structural)]
pub struct StopEndpointCommandTrbData {
    pub endpoint_id: u8,
    pub slot_id: u8,
}

/// The data of a Disable Slot command.
#[derive(Debug, Clone, Copy, PartialEq, Eq, Structural)]
pub struct DisableSlotCommandTrbData {
    pub slot_id: u8,
}

/// The data of a Reset Device command.
#[derive(Debug, Clone, Copy, PartialEq, Eq, Structural)]
pub struct ResetDeviceCommandTrbData {
    pub slot_id: u8,
}

/// The data of a Normal transfer TRB.
#[derive(Debug, Clone, Copy, PartialEq, Eq, Structural)]
pub struct NormalTrbData {
    pub data_pointer: u64,
    pub transfer_length: u32,
    pub interrupt_on_completion: bool,
}

/// The data of a Setup Stage TRB: the eight bytes of a USB setup packet.
#[derive(Debug, Clone, Copy, PartialEq, Eq, Structural)]
pub struct SetupStageTrbData {
    pub request_type: u8,
    pub request: u8,
    pub value: u16,
    pub index: u16,
    pub length: u16,
}

/// The data of a Data Stage TRB.
#[derive(Debug, Clone, Copy, PartialEq, Eq, Structural)]
pub struct DataStageTrbData {
    pub data_pointer: u64,
    pub chain: bool,
}

/// The pointer in bytes 0..8 of a TRB.
pub open spec fn trb_pointer(bytes: Seq<u8>) -> u64 {
    le_value(bytes.subrange(0, 8)) as u64
}

/// The Link TRB that `bytes` hold, or the reserved-zero violation of a
/// segment pointer that is not 16-byte aligned.
pub open spec fn link_spec(bytes: Seq<u8>) -> Result<LinkTrbData, ()> {
    if trb_pointer(bytes) & 0xf != 0 {
        Err(())
    } else {
        Ok(LinkTrbData { ring_segment_pointer: trb_pointer(bytes), toggle_cycle: bytes[12] & 0x2 != 0 })
    }
}

/// The Address Device command that `bytes` hold, or the reserved-zero
/// violation of an input context pointer that is not 16-byte aligned.
pub open spec fn address_device_spec(bytes: Seq<u8>) -> Result<AddressDeviceCommandTrbData, ()> {
    if trb_pointer(bytes) & 0xf != 0 {
        Err(())
    } else {
        Ok(
            AddressDeviceCommandTrbData {
                input_context_pointer: trb_pointer(bytes),
                block_set_address_request: bytes[13] & 0x2 != 0,
                slot_id: bytes[15],
            },
        )
    }
}

/// The Configure Endpoint command that `bytes` hold, or the reserved-zero
/// violation of an input context pointer that is not 16-byte aligned.
pub open spec fn configure_endpoint_spec(bytes: Seq<u8>) -> Result<ConfigureEndpointCommandTrbData, ()> {
    if trb_pointer(bytes) & 0xf != 0 {
        Err(())
    } else {
        Ok(
            ConfigureEndpointCommandTrbData {
                input_context_pointer: trb_pointer(bytes),
                deconfigure: bytes[13] & 0x2 != 0,
                slot_id: bytes[15],
            },
        )
    }
}

/// The Stop Endpoint command that `bytes` hold: the endpoint id in bits 4:0
/// of byte 14 and the slot id in byte 15.
pub open spec fn stop_endpoint_spec(bytes: Seq<u8>) -> StopEndpointCommandTrbData {
    StopEndpointCommandTrbData { endpoint_id: bytes[14] & 0x1f, slot_id: bytes[15] }
}

/// The Normal TRB that `bytes` hold: the buffer pointer, the 17-bit transfer
/// length and the interrupt-on-completion bit (bit 5 of byte 12).
pub open spec fn normal_spec(bytes: Seq<u8>) -> NormalTrbData {
    NormalTrbData {
        data_pointer: trb_pointer(bytes),
        transfer_length: (le_value(bytes.subrange(8, 12)) as u32) & 0x1_ffff,
        interrupt_on_completion: bytes[12] & 0x20 != 0,
    }
}

/// The Setup Stage data that `bytes` hold.
pub open spec fn setup_stage_spec(bytes: Seq<u8>) -> SetupStageTrbData {
    SetupStageTrbData {
        request_type: bytes[0],
        request: bytes[1],
        value: le_value(bytes.subrange(2, 4)) as u16,
        index: le_value(bytes.subrange(4, 6)) as u16,
        length: le_value(bytes.subrange(6, 8)) as u16,
    }
}

/// The Data Stage data that `bytes` hold.
pub open spec fn data_stage_spec(bytes: Seq<u8>) -> DataStageTrbData {
    DataStageTrbData { data_pointer: trb_pointer(bytes), chain: bytes[12] & 0x10 != 0 }
}

fn parse_pointer(bytes: &RawTrbBuffer) -> (r: u64)
    ensures
        r == trb_pointer(bytes@),
{
    read_le(bytes.as_slice(), 0, 8)
}

fn parse_link(bytes: &RawTrbBuffer) -> (r: Result<LinkTrbData, TrbParseError>)
    ensures
        link_spec(bytes@) is Ok <==> r is Ok,
        r is Ok ==> r->Ok_0 == link_spec(bytes@)->Ok_0,
        r is Err ==> r->Err_0 == TrbParseError::RsvdZViolation,
{
    let ring_segment_pointer = parse_pointer(bytes);
    if ring_segment_pointer & 0xf != 0 {
        return Err(TrbParseError::RsvdZViolation);
    }
    Ok(LinkTrbData { ring_segment_pointer, toggle_cycle: bytes[12] & 0x2 != 0 })
}

fn parse_address_device(bytes: &RawTrbBuffer) -> (r: Result<AddressDeviceCommandTrbData, TrbParseError>)
    ensures
        address_device_spec(bytes@) is Ok <==> r is Ok,
        r is Ok ==> r->Ok_0 == address_device_spec(bytes@)->Ok_0,
        r is Err ==> r->Err_0 == TrbParseError::RsvdZViolation,
{
    let input_context_pointer = parse_pointer(bytes);
    if input_context_pointer & 0xf != 0 {
        return Err(TrbParseError::RsvdZViolation);
    }
    Ok(
        AddressDeviceCommandTrbData {
            input_context_pointer,
            block_set_address_request: bytes[13] & 0x2 != 0,
            slot_id: bytes[15],
        },
    )
}

fn parse_configure_endpoint(bytes: &RawTrbBuffer) -> (r: Result<ConfigureEndpointCommandTrbData, TrbParseError>)
    ensures
        configure_endpoint_spec(bytes@) is Ok <==> r is Ok,
        r is Ok ==> r->Ok_0 == configure_endpoint_spec(bytes@)->Ok_0,
        r is Err ==> r->Err_0 == TrbParseError::RsvdZViolation,
{
    let input_context_pointer = parse_pointer(bytes);
    if input_context_pointer & 0xf != 0 {
        return Err(TrbParseError::RsvdZViolation);
    }
    Ok(
        ConfigureEndpointCommandTrbData {
            input_context_pointer,
            deconfigure: bytes[13] & 0x2 != 0,
            slot_id: bytes[15],
        },
    )
}

fn parse_normal(bytes: &RawTrbBuffer) -> (r: NormalTrbData)
    ensures
        r == normal_spec(bytes@),
{
    let length = read_le(bytes.as_slice(), 8, 4);
    proof {
        crate::bytes::lemma_le_value_bound(bytes@.subrange(8, 12));
        crate::bytes::lemma_pow256_8();
    }
    NormalTrbData {
        data_pointer: parse_pointer(bytes),
        transfer_length: (length as u32) & 0x1_ffff,
        interrupt_on_completion: bytes[12] & 0x20 != 0,
    }
}

fn parse_setup_stage(bytes: &RawTrbBuffer) -> (r: SetupStageTrbData)
    ensures
        r == setup_stage_spec(bytes@),
{
    let value = read_le(bytes.as_slice(), 2, 2);
    let index = read_le(bytes.as_slice(), 4, 2);
    let length = read_le(bytes.as_slice(), 6, 2);
    SetupStageTrbData {
        request_type: bytes[0],
        request: bytes[1],
        value: value as u16,
        index: index as u16,
        length: length as u16,
    }
}

fn parse_data_stage(bytes: &RawTrbBuffer) -> (r: DataStageTrbData)
    ensures
        r == data_stage_spec(bytes@),
{
    DataStageTrbData { data_pointer: parse_pointer(bytes), chain: bytes[12] & 0x10 != 0 }
}

/// A command TRB and the guest address it was read from.
#[derive(Debug, Clone, PartialEq, Eq)]
pub struct CommandTrb {
    pub address: u64,
    pub variant: CommandTrbVariant,
}

/// The decoded commands of the command ring.
#[derive(Debug, Clone, PartialEq, Eq)]
pub enum CommandTrbVariant {
    EnableSlot,
    DisableSlot(DisableSlotCommandTrbData),
    AddressDevice(AddressDeviceCommandTrbData),
    ConfigureEndpoint(ConfigureEndpointCommandTrbData),
    EvaluateContext,
    ResetEndpoint,
    StopEndpoint(StopEndpointCommandTrbData),
    SetTrDequeuePointer,
    ResetDevice(ResetDeviceCommandTrbData),
    ForceHeader,
    NoOp,
    Link(LinkTrbData),
    Unrecognized(RawTrbBuffer, TrbParseError),
}

/// Whether `t` is one of the optional commands that are refused: Force
/// Event, Negotiate Bandwidth, Set Latency Tolerance Value and Get Port
/// Bandwidth.
pub open spec fn is_refused_optional_command(t: u8) -> bool {
    TRB_FORCE_EVENT_COMMAND <= t <= TRB_GET_PORT_BANDWIDTH_COMMAND
}

/// The command that a TRB of type `t` decodes to, where the type alone
/// decides it.
pub open spec fn simple_command(t: u8) -> Option<CommandTrbVariant> {
    if t == TRB_ENABLE_SLOT_COMMAND {
        Some(CommandTrbVariant::EnableSlot)
    } else if t == TRB_EVALUATE_CONTEXT_COMMAND {
        Some(CommandTrbVariant::EvaluateContext)
    } else if t == TRB_RESET_ENDPOINT_COMMAND {
        Some(CommandTrbVariant::ResetEndpoint)
    } else if t == TRB_SET_TR_DEQUEUE_POINTER_COMMAND {
        Some(CommandTrbVariant::SetTrDequeuePointer)
    } else if t == TRB_FORCE_HEADER_COMMAND {
        Some(CommandTrbVariant::ForceHeader)
    } else if t == TRB_NO_OP_COMMAND {
        Some(CommandTrbVariant::NoOp)
    } else {
        None
    }
}

/// What decoding `bytes` as a command gives.
pub open spec fn command_spec(bytes: Seq<u8>, r: CommandTrbVariant) -> bool {
    let t = trb_type(bytes);
    if t == TRB_LINK {
        match link_spec(bytes) {
            Ok(l) => r == CommandTrbVariant::Link(l),
            Err(_) => r matches CommandTrbVariant::Unrecognized(b, TrbParseError::RsvdZViolation) && b@ == bytes,
        }
    } else if t == TRB_ADDRESS_DEVICE_COMMAND {
        match address_device_spec(bytes) {
            Ok(a) => r == CommandTrbVariant::AddressDevice(a),
            Err(_) => r matches CommandTrbVariant::Unrecognized(b, TrbParseError::RsvdZViolation) && b@ == bytes,
        }
    } else if t == TRB_CONFIGURE_ENDPOINT_COMMAND {
        match configure_endpoint_spec(bytes) {
            Ok(a) => r == CommandTrbVariant::ConfigureEndpoint(a),
            Err(_) => r matches CommandTrbVariant::Unrecognized(b, TrbParseError::RsvdZViolation) && b@ == bytes,
        }
    } else if t == TRB_STOP_ENDPOINT_COMMAND {
        r == CommandTrbVariant::StopEndpoint(stop_endpoint_spec(bytes))
    } else if t == TRB_DISABLE_SLOT_COMMAND {
        r == CommandTrbVariant::DisableSlot(DisableSlotCommandTrbData { slot_id: bytes[15] })
    } else if t == TRB_RESET_DEVICE_COMMAND {
        r == CommandTrbVariant::ResetDevice(ResetDeviceCommandTrbData { slot_id: bytes[15] })
    } else if simple_command(t) is Some {
        r == simple_command(t)->Some_0
    } else if is_refused_optional_command(t) {
        r matches CommandTrbVariant::Unrecognized(b, TrbParseError::UnsupportedOptionalCommand(u, _)) && b@ == bytes && u == t
    } else {
        r matches CommandTrbVariant::Unrecognized(b, TrbParseError::UnknownTrbType(u)) && b@ == bytes && u == t
    }
}

impl CommandTrbVariant {
    /// Decode a TRB read from the command ring.
    pub fn parse(bytes: RawTrbBuffer) -> (r: CommandTrbVariant)
        ensures
            command_spec(bytes@, r),
    {
        let trb_type = bytes[13] >> 2;
        if trb_type == TRB_LINK {
            match parse_link(&bytes) {
                Ok(l) => CommandTrbVariant::Link(l),
                Err(e) => CommandTrbVariant::Unrecognized(bytes, e),
            }
        } else if trb_type == TRB_ADDRESS_DEVICE_COMMAND {
            match parse_address_device(&bytes) {
                Ok(a) => CommandTrbVariant::AddressDevice(a),
                Err(e) => CommandTrbVariant::Unrecognized(bytes, e),
            }
        } else if trb_type == TRB_ENABLE_SLOT_COMMAND {
            CommandTrbVariant::EnableSlot
        } else if trb_type == TRB_DISABLE_SLOT_COMMAND {
            CommandTrbVariant::DisableSlot(DisableSlotCommandTrbData { slot_id: bytes[15] })
        } else if trb_type == TRB_CONFIGURE_ENDPOINT_COMMAND {
            match parse_configure_endpoint(&bytes) {
                Ok(a) => CommandTrbVariant::ConfigureEndpoint(a),
                Err(e) => CommandTrbVariant::Unrecognized(bytes, e),
            }
        } else if trb_type == TRB_EVALUATE_CONTEXT_COMMAND {
            CommandTrbVariant::EvaluateContext
        } else if trb_type == TRB_RESET_ENDPOINT_COMMAND {
            CommandTrbVariant::ResetEndpoint
        } else if trb_type == TRB_STOP_ENDPOINT_COMMAND {
            CommandTrbVariant::StopEndpoint(StopEndpointCommandTrbData { endpoint_id: bytes[14] & 0x1f, slot_id: bytes[15] })
        } else if trb_type == TRB_SET_TR_DEQUEUE_POINTER_COMMAND {
            CommandTrbVariant::SetTrDequeuePointer
        } else if trb_type == TRB_RESET_DEVICE_COMMAND {
            CommandTrbVariant::ResetDevice(ResetDeviceCommandTrbData { slot_id: bytes[15] })
        } else if trb_type == TRB_FORCE_HEADER_COMMAND {
            CommandTrbVariant::ForceHeader
        } else if trb_type == TRB_NO_OP_COMMAND {
            CommandTrbVariant::NoOp
        } else if trb_type == TRB_FORCE_EVENT_COMMAND {
            CommandTrbVariant::Unrecognized(bytes, TrbParseError::UnsupportedOptionalCommand(trb_type, "Force Event Command".to_owned()))
        } else if trb_type == TRB_NEGOTIATE_BANDWIDTH_COMMAND {
            CommandTrbVariant::Unrecognized(bytes, TrbParseError::UnsupportedOptionalCommand(trb_type, "Negotiate Bandwidth Command".to_owned()))
        } else if trb_type == TRB_SET_LATENCY_TOLERANCE_VALUE_COMMAND {
            CommandTrbVariant::Unrecognized(bytes, TrbParseError::UnsupportedOptionalCommand(trb_type, "Set Latency Tolerance Value Command".to_owned()))
        } else if trb_type == TRB_GET_PORT_BANDWIDTH_COMMAND {
            CommandTrbVariant::Unrecognized(bytes, TrbParseError::UnsupportedOptionalCommand(trb_type, "Get Port Bandwidth Command".to_owned()))
        } else {
            CommandTrbVariant::Unrecognized(bytes, TrbParseError::UnknownTrbType(trb_type))
        }
    }
}

/// A transfer TRB and the guest address it was read from.
#[derive(Debug, Clone, PartialEq, Eq)]
pub struct TransferTrb {
    pub address: u64,
    pub variant: TransferTrbVariant,
}

/// The decoded TRBs of a transfer ring.
#[derive(Debug, Clone, PartialEq, Eq)]
pub enum TransferTrbVariant {
    Normal(NormalTrbData),
    SetupStage(SetupStageTrbData),
    DataStage(DataStageTrbData),
    StatusStage,
    Isoch,
    Link(LinkTrbData),
    EventData,
    NoOp,
    Unrecognized(RawTrbBuffer, TrbParseError),
}

/// What decoding `bytes` as a transfer TRB gives.
pub open spec fn transfer_spec(bytes: Seq<u8>, r: TransferTrbVariant) -> bool {
    let t = trb_type(bytes);
    if t == TRB_NORMAL {
        r == TransferTrbVariant::Normal(normal_spec(bytes))
    } else if t == TRB_SETUP_STAGE {
        r == TransferTrbVariant::SetupStage(setup_stage_spec(bytes))
    } else if t == TRB_DATA_STAGE {
        r == TransferTrbVariant::DataStage(data_stage_spec(bytes))
    } else if t == TRB_STATUS_STAGE {
        r == TransferTrbVariant::StatusStage
    } else if t == TRB_ISOCH {
        r == TransferTrbVariant::Isoch
    } else if t == TRB_LINK {
        match link_spec(bytes) {
            Ok(l) => r == TransferTrbVariant::Link(l),
            Err(_) => r matches TransferTrbVariant::Unrecognized(b, TrbParseError::RsvdZViolation) && b@ == bytes,
        }
    } else if t == TRB_EVENT_DATA {
        r == TransferTrbVariant::EventData
    } else if t == TRB_NO_OP {
        r == TransferTrbVariant::NoOp
    } else {
        r matches TransferTrbVariant::Unrecognized(b, TrbParseError::UnknownTrbType(u)) && b@ == bytes && u == t
    }
}

impl TransferTrbVariant {
    /// Decode a TRB read from a transfer ring.
    pub fn parse(bytes: RawTrbBuffer) -> (r: TransferTrbVariant)
        ensures
            transfer_spec(bytes@, r),
    {
        let trb_type = bytes[13] >> 2;
        if trb_type == TRB_NORMAL {
            TransferTrbVariant::Normal(parse_normal(&bytes))
        } else if trb_type == TRB_SETUP_STAGE {
            TransferTrbVariant::SetupStage(parse_setup_stage(&bytes))
        } else if trb_type == TRB_DATA_STAGE {
            TransferTrbVariant::DataStage(parse_data_stage(&bytes))
        } else if trb_type == TRB_STATUS_STAGE {
            TransferTrbVariant::StatusStage
        } else if trb_type == TRB_ISOCH {
            TransferTrbVariant::Isoch
        } else if trb_type == TRB_LINK {
            match parse_link(&bytes) {
                Ok(l) => TransferTrbVariant::Link(l),
                Err(e) => TransferTrbVariant::Unrecognized(bytes, e),
            }
        } else if trb_type == TRB_EVENT_DATA {
            TransferTrbVariant::EventData
        } else if trb_type == TRB_NO_OP {
            TransferTrbVariant::NoOp
        } else {
            TransferTrbVariant::Unrecognized(bytes, TrbParseError::UnknownTrbType(trb_type))
        }
    }
}

} // verus!
