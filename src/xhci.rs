//! The XHCI controller: its register file, run/stop, the command state
//! machine and the doorbells. Work that needs the attached USB devices is
//! handed back to the caller as actions.

use vstd::prelude::*;

use crate::bus::{Request, RequestSize};
use crate::config_space::{ConfigSpace, ConfigSpaceBuilder};
use crate::constants::{
    CLASS_SERIAL, DEVICE_REDHAT_XHCI, ENDPOINT_STATE_STOPPED, PROGIF_USB_XHCI, SUBCLASS_SERIAL_USB,
    VENDOR_REDHAT,
};
use crate::device_slots::{added_endpoints, addressed_contexts, configured_memory, read_u64, ContextError, DeviceSlotManager, EndpointContext};
use crate::memory::{read_bytes, read_value, write_bytes, BusDevice};
use crate::bytes::le_bytes;
use crate::portsc::PortscRegister;
use crate::realdevice::{speed_value, EndpointType, Speed};
use crate::rings::{CommandRing, EventRing, EventRingError, EventRingView, RequestParseError, TransferRing};
use crate::trb::{CommandTrb, CommandTrbVariant, CompletionCode, EventTrb};
use crate::usbrequest::UsbRequest;

verus! {

/// Offset of the operational registers in BAR 0.
pub const OP_BASE: u64 = 0x40;
/// Offset of the runtime registers in BAR 0.
pub const RUN_BASE: u64 = 0x3000;
/// Offset of the doorbell array in BAR 0.
pub const DOORBELL_CONTROLLER: u64 = 0x2000;
/// The number of USB 3 ports.
pub const NUM_USB3_PORTS: u64 = 1;
/// The number of USB 2 ports.
pub const NUM_USB2_PORTS: u64 = 1;
/// The number of root hub ports.
pub const MAX_PORTS: u64 = 2;
/// The number of interrupters.
pub const MAX_INTRS: u64 = 1;
/// The number of device slots.
pub const MAX_SLOTS: u64 = 8;
/// The distance between the register sets of two ports.
pub const PORT_STRIDE: u64 = 0x10;

pub const CAPLENGTH: u64 = 0x0;
pub const HCIVERSION: u64 = 0x2;
pub const HCSPARAMS1: u64 = 0x4;
pub const HCSPARAMS2: u64 = 0x8;
pub const HCSPARAMS3: u64 = 0xc;
pub const HCCPARAMS1: u64 = 0x10;
pub const DBOFF: u64 = 0x14;
pub const RTSOFF: u64 = 0x18;
pub const HCCPARAMS2: u64 = 0x1c;
pub const SUPPORTED_PROTOCOLS: u64 = 0x20;
pub const SUPPORTED_PROTOCOLS_CONFIG: u64 = 0x28;
pub const SUPPORTED_PROTOCOLS_USB2: u64 = 0x30;
pub const SUPPORTED_PROTOCOLS_USB2_CONFIG: u64 = 0x38;
pub const USBCMD: u64 = 0x40;
pub const USBSTS: u64 = 0x44;
pub const PAGESIZE: u64 = 0x48;
pub const DNCTL: u64 = 0x54;
pub const CRCR: u64 = 0x58;
pub const CRCR_HI: u64 = 0x5c;
pub const DCBAAP: u64 = 0x70;
pub const DCBAAP_HI: u64 = 0x74;
pub const CONFIG: u64 = 0x78;
pub const PORTSC_USB3: u64 = 0x440;
pub const PORTSC_USB2: u64 = 0x450;
pub const IMAN: u64 = 0x3020;
pub const IMOD: u64 = 0x3024;
pub const ERSTSZ: u64 = 0x3028;
pub const ERSTBA: u64 = 0x3030;
pub const ERSTBA_HI: u64 = 0x3034;
pub const ERDP: u64 = 0x3038;
pub const ERDP_HI: u64 = 0x303c;
/// One past the last slot doorbell.
pub const DOORBELL_DEVICE_END: u64 = 0x2024;

/// The interface version reported in HCIVERSION.
pub const HCIVERSION_VALUE: u64 = 0x100;
/// HCSPARAMS1: ports, interrupters and slots.
pub const HCSPARAMS1_VALUE: u64 = 0x0200_0108;
/// HCCPARAMS1: the extended capabilities start at `SUPPORTED_PROTOCOLS`.
pub const HCCPARAMS1_VALUE: u64 = 0x8_0000;
/// Supported Protocol capability for USB 3.2, followed by the USB 2 one.
pub const USB3_CAP_INFO: u64 = 0x0320_0402;
/// The USB 3 ports: starting at port 1, one port.
pub const USB3_CAP_CONFIG: u64 = 0x101;
/// Supported Protocol capability for USB 2.0, the last one.
pub const USB2_CAP_INFO: u64 = 0x0200_0002;
/// The USB 2 ports: starting at port 2, one port.
pub const USB2_CAP_CONFIG: u64 = 0x102;
/// The value interrupt moderation starts with.
pub const IMOD_DEFAULT: u64 = 4000;

/// USBSTS: host controller halted.
pub const USBSTS_HCH: u64 = 0x1;
/// USBSTS: event interrupt.
pub const USBSTS_EINT: u64 = 0x8;
/// USBSTS: port change detected.
pub const USBSTS_PCD: u64 = 0x10;

/// PORTSC: current connect status.
pub const PORTSC_CCS: u64 = 0x1;
/// PORTSC: port enabled.
pub const PORTSC_PED: u64 = 0x2;
/// PORTSC: port power.
pub const PORTSC_PP: u64 = 0x200;
/// PORTSC: connect status change.
pub const PORTSC_CSC: u64 = 0x2_0000;
/// PORTSC: port enabled change.
pub const PORTSC_PEC: u64 = 0x4_0000;
/// PORTSC: port reset change.
pub const PORTSC_PRC: u64 = 0x20_0000;

/// The most commands one ring of the controller doorbell processes; more
/// are left for the next call.
pub const COMMAND_BATCH: u64 = 256;

/// Work the caller has to do after a register access.
#[derive(Debug, Clone, PartialEq, Eq)]
pub enum Action {
    /// Raise the interrupt of interrupter 0.
    Interrupt,
    /// Perform `request` on the device in slot `slot_id`, then report it
    /// with `complete_control_transfer`.
    ControlTransfer { slot_id: u8, request: UsbRequest },
    /// Start serving endpoint `endpoint_id` of the device in slot `slot_id`.
    EnableEndpoint { slot_id: u8, endpoint_id: u8, endpoint_type: EndpointType, transfer_ring: TransferRing },
    /// Wake the worker of endpoint `endpoint_id` of slot `slot_id`.
    Transfer { slot_id: u8, endpoint_id: u8 },
    /// An event could not be placed on the event ring and was dropped.
    EventLost(EventRingError),
    /// The command ring may hold more commands: ring the controller
    /// doorbell again.
    CommandsPending,
}

/// A guest access the controller cannot serve: the driver is misbehaving.
#[derive(Debug, Clone, PartialEq, Eq)]
pub enum ControllerError {
    /// An access to another region than BAR 0.
    UnexpectedRegion(u32),
    /// DNCTL written with another value than 2.
    DebugNotificationsUnsupported(u64),
    /// A high address half written with a non-zero value.
    AddressAbove4G(u64),
    /// CONFIG written with another slot count than the one reported.
    SlotCountMismatch(u64),
    /// ERSTSZ written with zero.
    EmptySegmentTable,
    /// ERSTBA written before ERSTSZ, or not 64-byte aligned.
    SegmentTableMisconfigured(u64),
    /// An access to an offset that holds no register.
    UnknownRegister(u64),
    /// A command or doorbell named a slot that is not in use.
    UnassignedSlot(u8),
    /// A slot has no attached device.
    NoDevice(u8),
    /// A slot doorbell written with an invalid endpoint.
    InvalidDoorbell(u32),
    /// The control doorbell rang without a request on the ring.
    NoControlRequest(u8),
    /// The control request on the ring is malformed.
    Request(RequestParseError),
    /// The contexts a command names are unusable.
    Context(ContextError),
    /// A command the controller does not implement.
    UnsupportedCommand(CommandTrb),
    /// An endpoint type the controller does not serve.
    UnsupportedEndpointType(u8),
}

/// The state of the controller that the driver sees through registers.
pub struct XhciView {
    pub running: bool,
    pub command_ring: CommandRing,
    pub event_ring: EventRingView,
    pub dcbaap: u64,
    pub interrupt_management: u64,
    pub interrupt_moderation_interval: u64,
    pub portsc_usb3: Seq<u64>,
    pub portsc_usb2: Seq<u64>,
    pub devices: Seq<Option<Speed>>,
    pub slots_used: Seq<u64>,
}

/// The emulated XHCI controller.
#[derive(Debug)]
pub struct XhciController {
    device_slots: Vec<Option<Speed>>,
    config_space: ConfigSpace,
    running: bool,
    command_ring: CommandRing,
    event_ring: EventRing,
    device_slot_manager: DeviceSlotManager,
    interrupt_management: u64,
    interrupt_moderation_interval: u64,
    portsc_usb3: Vec<PortscRegister>,
    portsc_usb2: Vec<PortscRegister>,
}

/// The index of the port whose register at `register_offset` of its set is
/// at `addr`, among `port_count` ports starting at `base_addr`.
pub open spec fn port_index_spec(addr: u64, base_addr: u64, port_count: u64, register_offset: u64) -> Option<nat> {
    if base_addr <= addr < base_addr + port_count * PORT_STRIDE && (addr - base_addr) % (PORT_STRIDE as int) == register_offset {
        Some(((addr - base_addr) / (PORT_STRIDE as int)) as nat)
    } else {
        None
    }
}

fn get_port_index_from_addr(addr: u64, base_addr: u64, port_count: u64, register_offset: u64) -> (r: Option<usize>)
    requires
        base_addr + port_count * PORT_STRIDE <= u64::MAX,
        port_count <= 16,
    ensures
        r matches Some(i) ==> port_index_spec(addr, base_addr, port_count, register_offset) == Some(i as nat),
        r is None ==> port_index_spec(addr, base_addr, port_count, register_offset) is None,
{
    if addr >= base_addr && addr < base_addr + port_count * PORT_STRIDE {
        if (addr - base_addr) % PORT_STRIDE == register_offset {
            Some(((addr - base_addr) / PORT_STRIDE) as usize)
        } else {
            None
        }
    } else {
        None
    }
}

/// What placing `ev` on an event ring in state `ring` with memory `m` does
/// to the actions `acts0`, the memory and the ring: on success the event is
/// written at the enqueue pointer with the producer cycle state and the
/// interrupt is raised; an event that does not fit is reported lost.
pub open spec fn post_effect(
    ring: EventRingView,
    m: Seq<u8>,
    ev: EventTrb,
    acts0: Seq<Action>,
    acts1: Seq<Action>,
    m1: Seq<u8>,
    ring1: EventRingView,
) -> bool {
    if ring.erst_size == 0 || ring.trb_count == 0 {
        acts1 == acts0.push(Action::EventLost(EventRingError::NotConfigured)) && m1 == m && ring1 == ring
    } else if crate::rings::ring_full(ring, m) {
        acts1 == acts0.push(Action::EventLost(EventRingError::Full)) && m1 == m && ring1 == ring
    } else {
        &&& acts1 == acts0.push(Action::Interrupt)
        &&& m1 == crate::memory::write_bytes(m, ring.enqueue_pointer as int, crate::trb::event_bytes(ev, ring.cycle_state))
        &&& ring1 == crate::rings::advanced(ring, m1)
    }
}

/// Enable Slot took the lowest free slot id and reports it with Success,
/// or reports NoSlotsAvailableError with slot id 0 when all are in use.
pub open spec fn enable_slot_spec(v: XhciView, v1: XhciView, code: CompletionCode, slot_id: u8) -> bool {
    &&& v1 == (XhciView { slots_used: v1.slots_used, ..v })
    &&& code == CompletionCode::Success ==> {
        &&& 1 <= slot_id <= MAX_SLOTS
        &&& !v.slots_used.contains(slot_id as u64)
        &&& forall|j: u64| 1 <= j < slot_id ==> v.slots_used.contains(j)
        &&& v1.slots_used == v.slots_used.push(slot_id as u64)
    }
    &&& code != CompletionCode::Success ==> {
        &&& code == CompletionCode::NoSlotsAvailableError && slot_id == 0
        &&& v1.slots_used == v.slots_used
        &&& forall|j: u64| 1 <= j <= MAX_SLOTS ==> v.slots_used.contains(j)
    }
}

/// What ringing the doorbell of slot `slot_id` with `value` gives, from
/// state `v` and memory `m`: the result and the memory after it.
pub open spec fn device_doorbell_spec(v: XhciView, m: Seq<u8>, slot_id: u8, value: u32, r: Result<Vec<Action>, ControllerError>, mf: Seq<u8>) -> bool {
    if value == 0 || value > 31 {
        r == Err::<Vec<Action>, ControllerError>(ControllerError::InvalidDoorbell(value)) && mf == m
    } else if value >= 2 {
        &&& mf == m
        &&& device_attached(v, slot_id) ==> r is Ok && r->Ok_0@ == seq![Action::Transfer { slot_id, endpoint_id: value as u8 }]
        &&& !device_attached(v, slot_id) ==> r == Err::<Vec<Action>, ControllerError>(ControllerError::NoDevice(slot_id))
    } else if !v.slots_used.contains(slot_id as u64) {
        r == Err::<Vec<Action>, ControllerError>(ControllerError::UnassignedSlot(slot_id)) && mf == m
    } else {
        exists|ro: Option<Result<UsbRequest, RequestParseError>>|
            #[trigger] crate::rings::request_step(m, device_context_of(v, m, slot_id).wrapping_add(32), ro, mf) && match ro {
                None => r == Err::<Vec<Action>, ControllerError>(ControllerError::NoControlRequest(slot_id)),
                Some(Err(e)) => r == Err::<Vec<Action>, ControllerError>(ControllerError::Request(e)),
                Some(Ok(req)) => if device_attached(v, slot_id) {
                    r is Ok && r->Ok_0@ == seq![Action::ControlTransfer { slot_id, request: req }]
                } else {
                    r == Err::<Vec<Action>, ControllerError>(ControllerError::NoDevice(slot_id))
                },
            }
    }
}

/// A device is attached at slot `slot_id`.
pub open spec fn device_attached(v: XhciView, slot_id: u8) -> bool {
    1 <= slot_id <= MAX_SLOTS && v.devices[slot_id - 1] is Some
}

/// Device index `i` is the first one with no device.
pub open spec fn first_free_device(devs: Seq<Option<Speed>>, i: int) -> bool {
    0 <= i < devs.len() && devs[i] is None && forall|j: int| 0 <= j < i ==> devs[j] is Some
}

/// Port `p` is the first one without a connected device.
pub open spec fn first_free_port(ports: Seq<u64>, p: int) -> bool {
    0 <= p < ports.len() && ports[p] & PORTSC_CCS == 0 && forall|j: int| 0 <= j < p ==> ports[j] & PORTSC_CCS != 0
}

/// A device of speed `s` can be attached: a device index is free, and a
/// port of its USB generation.
pub open spec fn can_attach_spec(v: XhciView, s: Speed) -> bool {
    &&& exists|i: int| 0 <= i < v.devices.len() && #[trigger] v.devices[i] is None
    &&& speed_value(s) <= 3 ==> exists|p: int| 0 <= p < v.portsc_usb2.len() && #[trigger] v.portsc_usb2[p] & PORTSC_CCS == 0
    &&& speed_value(s) > 3 ==> exists|p: int| 0 <= p < v.portsc_usb3.len() && #[trigger] v.portsc_usb3[p] & PORTSC_CCS == 0
}

/// The PORTSC value of a port with a device of speed `s` attached.
pub open spec fn attached_portsc(s: Speed) -> u64 {
    PORTSC_CCS | PORTSC_PED | PORTSC_PP | PORTSC_CSC | PORTSC_PEC | PORTSC_PRC | ((speed_value(s) as u64) << 10)
}

/// None of the actions asks to ring the controller doorbell again.
pub open spec fn no_pending(a: Seq<Action>) -> bool {
    forall|k: int| 0 <= k < a.len() ==> a[k] != Action::CommandsPending
}

/// The completion event of the command at `address`.
pub open spec fn completion_event(address: u64, code: CompletionCode, slot_id: u8) -> EventTrb {
    EventTrb::CommandCompletion(
        crate::trb::CommandCompletionEventTrbData {
            command_trb_pointer: address,
            command_completion_parameter: 0,
            completion_code: code,
            slot_id,
        },
    )
}

/// The device context of slot `slot`, read from the device context base
/// address array.
pub open spec fn device_context_of(v: XhciView, m: Seq<u8>, slot: u8) -> u64 {
    read_u64(m, v.dcbaap.wrapping_add(((slot as u64) * 8) as u64))
}

/// The controller posted `ev` from state `v` and memory `m` and changed
/// nothing else.
pub open spec fn posted(v: XhciView, m: Seq<u8>, a0: Seq<Action>, ev: EventTrb, v1: XhciView, m1: Seq<u8>, a1: Seq<Action>) -> bool {
    v1 == (XhciView { event_ring: v1.event_ring, ..v }) && post_effect(v.event_ring, m, ev, a0, a1, m1, v1.event_ring)
}

/// A command was refused with `e`, changing nothing.
pub open spec fn refused(v: XhciView, m: Seq<u8>, a0: Seq<Action>, r: Result<(), ControllerError>, e: ControllerError, v1: XhciView, m1: Seq<u8>, a1: Seq<Action>) -> bool {
    r == Err::<(), ControllerError>(e) && v1 == v && m1 == m && a1 == a0
}

/// The endpoint id of the first endpoint whose type the controller does not
/// serve.
pub open spec fn first_unsupported(eps: Seq<(u8, Option<EndpointType>)>) -> Option<u8>
    decreases eps.len(),
{
    if eps.len() == 0 {
        None
    } else if eps[0].1 is None {
        Some(eps[0].0)
    } else {
        first_unsupported(eps.drop_first())
    }
}

proof fn lemma_first_unsupported_step(eps: Seq<(u8, Option<EndpointType>)>, k: int)
    requires
        0 <= k < eps.len(),
    ensures
        first_unsupported(eps.subrange(k, eps.len() as int)) == if eps[k].1 is None {
            Some(eps[k].0)
        } else {
            first_unsupported(eps.subrange(k + 1, eps.len() as int))
        },
{
    assert(eps.subrange(k, eps.len() as int).drop_first() =~= eps.subrange(k + 1, eps.len() as int));
}

/// The actions that start serving the endpoints `eps` of slot `slot`,
/// whose device context is at `ctx`.
pub open spec fn enable_actions(slot: u8, ctx: u64, eps: Seq<(u8, Option<EndpointType>)>) -> Seq<Action> {
    Seq::new(eps.len(), |k: int| Action::EnableEndpoint {
        slot_id: slot,
        endpoint_id: eps[k].0,
        endpoint_type: eps[k].1->Some_0,
        transfer_ring: TransferRing { endpoint_context: EndpointContext { address: ctx.wrapping_add(((eps[k].0 as u64) * 32) as u64) } },
    })
}

/// What carrying out command `cmd` in state `v` with memory `m` and actions
/// `a0` gives: the result, the new state, memory and actions.
pub open spec fn command_effect(
    v: XhciView,
    m: Seq<u8>,
    cmd: CommandTrb,
    a0: Seq<Action>,
    r: Result<(), ControllerError>,
    v1: XhciView,
    m1: Seq<u8>,
    a1: Seq<Action>,
) -> bool {
    let addr = cmd.address;
    match cmd.variant {
        CommandTrbVariant::EnableSlot => r is Ok && exists|code: CompletionCode, slot: u8, vs: XhciView|
            #[trigger] enable_slot_spec(v, vs, code, slot) && posted(vs, m, a0, completion_event(addr, code, slot), v1, m1, a1),
        CommandTrbVariant::DisableSlot(d) => r is Ok && posted(v, m, a0, completion_event(addr, CompletionCode::Success, d.slot_id), v1, m1, a1),
        CommandTrbVariant::NoOp => r is Ok && posted(v, m, a0, completion_event(addr, CompletionCode::Success, 0), v1, m1, a1),
        CommandTrbVariant::ResetDevice(d) => r is Ok && posted(v, m, a0, completion_event(addr, CompletionCode::Success, d.slot_id), v1, m1, a1),
        CommandTrbVariant::AddressDevice(d) => {
            let flags = read_u64(m, d.input_context_pointer);
            let ctx = device_context_of(v, m, d.slot_id);
            if !v.slots_used.contains(d.slot_id as u64) {
                refused(v, m, a0, r, ControllerError::UnassignedSlot(d.slot_id), v1, m1, a1)
            } else if flags != 0x3_0000_0000 {
                refused(v, m, a0, r, ControllerError::Context(ContextError::UnexpectedInputFlags(flags)), v1, m1, a1)
            } else {
                r is Ok && posted(v, write_bytes(m, ctx as int, addressed_contexts(read_bytes(m, d.input_context_pointer as int, 96))),
                    a0, completion_event(addr, CompletionCode::Success, d.slot_id), v1, m1, a1)
            }
        },
        CommandTrbVariant::StopEndpoint(d) => {
            let ctx = device_context_of(v, m, d.slot_id);
            if !v.slots_used.contains(d.slot_id as u64) {
                refused(v, m, a0, r, ControllerError::UnassignedSlot(d.slot_id), v1, m1, a1)
            } else {
                r is Ok && posted(v, write_bytes(m, ctx.wrapping_add(((d.endpoint_id as u64) * 32) as u64) as int,
                    le_bytes(ENDPOINT_STATE_STOPPED as nat, 1)), a0, completion_event(addr, CompletionCode::Success, d.slot_id), v1, m1, a1)
            }
        },
        CommandTrbVariant::ConfigureEndpoint(d) => {
            let ctx = device_context_of(v, m, d.slot_id);
            let add_flags = read_value(m, d.input_context_pointer.wrapping_add(4) as int, 4) as u64;
            let eps = added_endpoints(add_flags, read_bytes(m, d.input_context_pointer.wrapping_add(32) as int, 1024), 32);
            let mc = configured_memory(m, ctx, d.input_context_pointer);
            if d.deconfigure {
                refused(v, m, a0, r, ControllerError::UnsupportedCommand(cmd), v1, m1, a1)
            } else if !v.slots_used.contains(d.slot_id as u64) {
                refused(v, m, a0, r, ControllerError::UnassignedSlot(d.slot_id), v1, m1, a1)
            } else if !(1 <= d.slot_id <= MAX_SLOTS && v.devices[d.slot_id - 1] is Some) {
                refused(v, m, a0, r, ControllerError::NoDevice(d.slot_id), v1, m1, a1)
            } else if add_flags & 1 != 1 {
                refused(v, m, a0, r, ControllerError::Context(ContextError::MissingSlotContextFlag), v1, m1, a1)
            } else {
                match first_unsupported(eps) {
                    Some(e) => r == Err::<(), ControllerError>(ControllerError::UnsupportedEndpointType(e)) && v1 == v && m1 == mc && a1 == a0,
                    None => r is Ok && posted(v, mc, a0 + enable_actions(d.slot_id, ctx, eps),
                        completion_event(addr, CompletionCode::Success, d.slot_id), v1, m1, a1),
                }
            }
        },
        _ => refused(v, m, a0, r, ControllerError::UnsupportedCommand(cmd), v1, m1, a1),
    }
}

/// Taking `cmd` off the command ring and carrying it out successfully.
pub open spec fn command_round(v: XhciView, m: Seq<u8>, a: Seq<Action>, cmd: CommandTrb, v1: XhciView, m1: Seq<u8>, a1: Seq<Action>) -> bool {
    let vc = XhciView { command_ring: v1.command_ring, ..v };
    &&& crate::rings::command_step(m, v.command_ring.dequeue_pointer, v.command_ring.cycle_state, Some(cmd),
        v1.command_ring.dequeue_pointer, v1.command_ring.cycle_state)
    &&& v1.command_ring.running == v.command_ring.running
    &&& command_effect(vc, m, cmd, a, Ok(()), v1, m1, a1)
}

/// `tr` lists the states (view, memory, actions) the doorbell went
/// through, starting from `v` and `m`, each step carrying out the next of
/// the commands `cmds`.
pub open spec fn doorbell_trace(v: XhciView, m: Seq<u8>, tr: Seq<(XhciView, Seq<u8>, Seq<Action>)>, cmds: Seq<CommandTrb>) -> bool {
    &&& tr.len() == cmds.len() + 1
    &&& cmds.len() <= COMMAND_BATCH
    &&& tr[0] == (v, m, Seq::<Action>::empty())
    &&& forall|i: int| 0 <= i < cmds.len() ==> #[trigger] command_round(tr[i].0, tr[i].1, tr[i].2, cmds[i], tr[i + 1].0, tr[i + 1].1, tr[i + 1].2)
}

/// How the doorbell ended after the state `s` and `n` commands: the batch
/// was used up, the ring held no further command, or the next command
/// failed with the error it gives.
pub open spec fn doorbell_end(s: (XhciView, Seq<u8>, Seq<Action>), n: nat, r: Result<Vec<Action>, ControllerError>, vf: XhciView, mf: Seq<u8>) -> bool {
    if n == COMMAND_BATCH {
        r is Ok && r->Ok_0@ == s.2.push(Action::CommandsPending) && vf == s.0 && mf == s.1
    } else {
        &&& vf.command_ring.running == s.0.command_ring.running
        &&& exists|o: Option<CommandTrb>| #[trigger] crate::rings::command_step(s.1, s.0.command_ring.dequeue_pointer, s.0.command_ring.cycle_state, o,
            vf.command_ring.dequeue_pointer, vf.command_ring.cycle_state) && match o {
            None => r is Ok && r->Ok_0@ == s.2 && vf == (XhciView { command_ring: vf.command_ring, ..s.0 }) && mf == s.1,
            Some(cmd) => match r {
                Err(e) => exists|v1: XhciView, a1: Seq<Action>| #[trigger] command_effect(XhciView { command_ring: vf.command_ring, ..s.0 }, s.1, cmd, s.2,
                    Err::<(), ControllerError>(e), v1, mf, a1),
                Ok(_) => false,
            },
        }
    }
}

/// USBSTS: halted while not running; event interrupt and port change are
/// always reported.
pub open spec fn status_spec(running: bool) -> u64 {
    (if running { 0u64 } else { USBSTS_HCH }) | USBSTS_EINT | USBSTS_PCD
}

/// The value the driver reads from the BAR 0 register at `addr`, or `None`
/// where no register is.
pub open spec fn read_spec(v: XhciView, addr: u64) -> Option<u64> {
    if addr == CAPLENGTH {
        Some(OP_BASE)
    } else if addr == HCIVERSION {
        Some(HCIVERSION_VALUE)
    } else if addr == HCSPARAMS1 {
        Some(HCSPARAMS1_VALUE)
    } else if addr == HCSPARAMS2 || addr == HCSPARAMS3 || addr == HCCPARAMS2 {
        Some(0)
    } else if addr == HCCPARAMS1 {
        Some(HCCPARAMS1_VALUE)
    } else if addr == DBOFF {
        Some(DOORBELL_CONTROLLER)
    } else if addr == RTSOFF {
        Some(RUN_BASE)
    } else if addr == SUPPORTED_PROTOCOLS {
        Some(USB3_CAP_INFO)
    } else if addr == SUPPORTED_PROTOCOLS_CONFIG {
        Some(USB3_CAP_CONFIG)
    } else if addr == SUPPORTED_PROTOCOLS_USB2 {
        Some(USB2_CAP_INFO)
    } else if addr == SUPPORTED_PROTOCOLS_USB2_CONFIG {
        Some(USB2_CAP_CONFIG)
    } else if addr == USBCMD {
        Some(0)
    } else if addr == USBSTS {
        Some(status_spec(v.running))
    } else if addr == DNCTL {
        Some(2)
    } else if addr == CRCR {
        Some(if v.command_ring.running { crate::constants::CRCR_CRR } else { 0 })
    } else if addr == CRCR_HI || addr == DCBAAP_HI || addr == ERSTBA_HI || addr == ERDP_HI {
        Some(0)
    } else if addr == DCBAAP {
        Some(v.dcbaap)
    } else if addr == PAGESIZE {
        Some(1)
    } else if addr == CONFIG {
        Some(MAX_SLOTS)
    } else if addr == IMAN {
        Some(v.interrupt_management)
    } else if addr == IMOD {
        Some(v.interrupt_moderation_interval)
    } else if addr == ERSTSZ {
        Some(v.event_ring.erst_size as u64)
    } else if addr == ERSTBA {
        Some(v.event_ring.base_address)
    } else if addr == ERDP {
        Some(v.event_ring.dequeue_pointer)
    } else if DOORBELL_CONTROLLER <= addr < DOORBELL_DEVICE_END {
        Some(0)
    } else if port_index_spec(addr, PORTSC_USB3, NUM_USB3_PORTS, 0) is Some {
        Some(v.portsc_usb3[port_index_spec(addr, PORTSC_USB3, NUM_USB3_PORTS, 0)->Some_0 as int])
    } else if port_index_spec(addr, PORTSC_USB3, NUM_USB3_PORTS, 8) is Some {
        Some(0)
    } else if port_index_spec(addr, PORTSC_USB2, NUM_USB2_PORTS, 0) is Some {
        Some(v.portsc_usb2[port_index_spec(addr, PORTSC_USB2, NUM_USB2_PORTS, 0)->Some_0 as int])
    } else if port_index_spec(addr, PORTSC_USB2, NUM_USB2_PORTS, 8) is Some {
        Some(0)
    } else {
        None
    }
}

impl XhciController {
    pub closed spec fn view(&self) -> XhciView {
        XhciView {
            running: self.running,
            command_ring: self.command_ring,
            event_ring: self.event_ring@,
            dcbaap: self.device_slot_manager.dcbaap_spec(),
            interrupt_management: self.interrupt_management,
            interrupt_moderation_interval: self.interrupt_moderation_interval,
            portsc_usb3: Seq::new(self.portsc_usb3@.len(), |i: int| self.portsc_usb3@[i].value()),
            portsc_usb2: Seq::new(self.portsc_usb2@.len(), |i: int| self.portsc_usb2@[i].value()),
            devices: self.device_slots@,
            slots_used: self.device_slot_manager.used(),
        }
    }

    pub closed spec fn wf(&self) -> bool {
        &&& self.device_slots@.len() == MAX_SLOTS
        &&& self.portsc_usb3@.len() == NUM_USB3_PORTS
        &&& self.portsc_usb2@.len() == NUM_USB2_PORTS
        &&& self.event_ring.wf()
        &&& self.config_space.wf()
        &&& self.device_slot_manager.slots() == MAX_SLOTS
        &&& self.command_ring.dequeue_pointer & 0xf == 0
        &&& forall|i: int| 0 <= i < self.portsc_usb3@.len() ==> (#[trigger] self.portsc_usb3@[i]).rw1c_mask() == crate::portsc::PORTSC_RW1C_BITS
        &&& forall|i: int| 0 <= i < self.portsc_usb2@.len() ==> (#[trigger] self.portsc_usb2@[i]).rw1c_mask() == crate::portsc::PORTSC_RW1C_BITS
    }

    /// A halted controller with no devices, its PCI function announcing the
    /// MMIO BAR 0, the MSI-X BAR 3 and an MSI-X capability.
    pub fn new() -> (r: XhciController)
        ensures
            r.wf(),
            !r.view().running,
            r.view().command_ring == CommandRing::new_spec(),
            r.view().devices == Seq::new(MAX_SLOTS as nat, |i: int| None::<Speed>),
            r.view().portsc_usb3 == seq![PORTSC_PP],
            r.view().portsc_usb2 == seq![PORTSC_PP],
            r.view().interrupt_moderation_interval == IMOD_DEFAULT,
            r.view().interrupt_management == 0,
            r.view().dcbaap == 0,
            r.view().slots_used == Seq::<u64>::empty(),
            r.view().event_ring == (EventRingView {
                base_address: 0,
                dequeue_pointer: 0,
                enqueue_pointer: 0,
                trb_count: 0,
                erst_count: 0,
                cycle_state: false,
                erst_size: 0,
            }),
    {
        assert(0x4000u32 & (0x4000u32 - 1) as u32 == 0) by (bit_vector);
        assert(0x2000u32 & (0x2000u32 - 1) as u32 == 0) by (bit_vector);
        assert(0u32 & 0x3 == 0) by (bit_vector);
        assert(0x1000u32 & 0x3 == 0) by (bit_vector);
        let config_space = ConfigSpaceBuilder::new(VENDOR_REDHAT, DEVICE_REDHAT_XHCI)
            .class(CLASS_SERIAL, SUBCLASS_SERIAL_USB, PROGIF_USB_XHCI)
            .mem32_nonprefetchable_bar(0, 0x4000)
            .mem32_nonprefetchable_bar(3, 0x2000)
            .msix_capability(MAX_INTRS as u16, 3, 0, 3, 0x1000)
            .config_space();
        let mut portsc_usb3: Vec<PortscRegister> = Vec::new();
        portsc_usb3.push(PortscRegister::new(PORTSC_PP));
        let mut portsc_usb2: Vec<PortscRegister> = Vec::new();
        portsc_usb2.push(PortscRegister::new(PORTSC_PP));
        let r = XhciController {
            device_slots: vec![None; MAX_SLOTS as usize],
            config_space,
            running: false,
            command_ring: CommandRing::new(),
            event_ring: EventRing::new(),
            device_slot_manager: DeviceSlotManager::new(MAX_SLOTS),
            interrupt_management: 0,
            interrupt_moderation_interval: IMOD_DEFAULT,
            portsc_usb3,
            portsc_usb2,
        };
        assert(r.view().devices =~= Seq::new(MAX_SLOTS as nat, |i: int| None::<Speed>));
        assert(r.view().portsc_usb3 =~= seq![PORTSC_PP]);
        assert(r.view().portsc_usb2 =~= seq![PORTSC_PP]);
        assert(0u64 & 0xf == 0) by (bit_vector);
        r
    }

    /// Whether a device of speed `speed` can be attached: a device index and
    /// a port of its USB generation are free.
    pub fn can_attach(&self, speed: Speed) -> (r: bool)
        requires
            self.wf(),
        ensures
            r == can_attach_spec(self.view(), speed),
    {
        let v = Ghost(self.view());
        match self.first_free_device_index() {
            None => {
                assert(!(exists|i: int| 0 <= i < v@.devices.len() && #[trigger] v@.devices[i] is None));
                return false;
            },
            Some(i) => {
                assert(v@.devices[i as int] is None);
            },
        }
        let ports = if speed.is_usb2_speed() { &self.portsc_usb2 } else { &self.portsc_usb3 };
        let ghost pv = if speed_value(speed) <= 3 { v@.portsc_usb2 } else { v@.portsc_usb3 };
        match Self::find_available_port_in_array(ports) {
            Some(p) => {
                assert(pv[p as int] & PORTSC_CCS == 0);
                true
            },
            None => {
                assert(!(exists|p: int| 0 <= p < pv.len() && #[trigger] pv[p] & PORTSC_CCS == 0));
                false
            },
        }
    }

    /// Attach a device of speed `speed` at the first free device index and
    /// the first free port of its USB generation (USB 2 for low, full and
    /// high speed): the port shows it connected, enabled and powered, with
    /// all change bits set. Returns the device index.
    pub fn set_device(&mut self, speed: Speed) -> (r: usize)
        requires
            old(self).wf(),
            can_attach_spec(old(self).view(), speed),
        ensures
            final(self).wf(),
            first_free_device(old(self).view().devices, r as int),
            speed_value(speed) <= 3 ==> exists|p: int| #[trigger] first_free_port(old(self).view().portsc_usb2, p)
                && final(self).view() == (XhciView {
                    devices: old(self).view().devices.update(r as int, Some(speed)),
                    portsc_usb2: old(self).view().portsc_usb2.update(p, attached_portsc(speed)),
                    ..old(self).view()
                }),
            speed_value(speed) > 3 ==> exists|p: int| #[trigger] first_free_port(old(self).view().portsc_usb3, p)
                && final(self).view() == (XhciView {
                    devices: old(self).view().devices.update(r as int, Some(speed)),
                    portsc_usb3: old(self).view().portsc_usb3.update(p, attached_portsc(speed)),
                    ..old(self).view()
                }),
    {
        let slot_index = match self.first_free_device_index() {
            Some(i) => i,
            None => 0,
        };
        let portsc = PortscRegister::new(
            PORTSC_CCS | PORTSC_PED | PORTSC_PP | PORTSC_CSC | PORTSC_PEC | PORTSC_PRC | ((speed.value() as u64) << 10),
        );
        if speed.is_usb2_speed() {
            let port = match Self::find_available_port_in_array(&self.portsc_usb2) {
                Some(p) => p,
                None => 0,
            };
            self.portsc_usb2.set(port, portsc);
            self.device_slots.set(slot_index, Some(speed));
            assert(first_free_port(old(self).view().portsc_usb2, port as int));
            assert(self.view().devices =~= old(self).view().devices.update(slot_index as int, Some(speed)));
            assert(self.view().portsc_usb2 =~= old(self).view().portsc_usb2.update(port as int, attached_portsc(speed)));
            assert(self.view().portsc_usb3 =~= old(self).view().portsc_usb3);
            assert(self.view() == (XhciView {
                devices: old(self).view().devices.update(slot_index as int, Some(speed)),
                portsc_usb2: old(self).view().portsc_usb2.update(port as int, attached_portsc(speed)),
                ..old(self).view()
            }));
        } else {
            let port = match Self::find_available_port_in_array(&self.portsc_usb3) {
                Some(p) => p,
                None => 0,
            };
            self.portsc_usb3.set(port, portsc);
            self.device_slots.set(slot_index, Some(speed));
            assert(first_free_port(old(self).view().portsc_usb3, port as int));
            assert(self.view().devices =~= old(self).view().devices.update(slot_index as int, Some(speed)));
            assert(self.view().portsc_usb3 =~= old(self).view().portsc_usb3.update(port as int, attached_portsc(speed)));
            assert(self.view().portsc_usb2 =~= old(self).view().portsc_usb2);
            assert(self.view() == (XhciView {
                devices: old(self).view().devices.update(slot_index as int, Some(speed)),
                portsc_usb3: old(self).view().portsc_usb3.update(port as int, attached_portsc(speed)),
                ..old(self).view()
            }));
        }
        slot_index
    }

    /// The first device index with no device attached.
    fn first_free_device_index(&self) -> (r: Option<usize>)
        ensures
            r matches Some(i) ==> first_free_device(self.device_slots@, i as int),
            r is None ==> forall|j: int| 0 <= j < self.device_slots@.len() ==> self.device_slots@[j] is Some,
    {
        let mut i: usize = 0;
        while i < self.device_slots.len()
            invariant
                i <= self.device_slots@.len(),
                forall|j: int| 0 <= j < i ==> self.device_slots@[j] is Some,
            decreases self.device_slots@.len() - i,
        {
            if self.device_slots[i].is_none() {
                return Some(i);
            }
            i = i + 1;
        }
        None
    }

    /// The first port without a connected device.
    fn find_available_port_in_array(ports: &Vec<PortscRegister>) -> (r: Option<usize>)
        ensures
            r matches Some(i) ==> i < ports@.len() && ports@[i as int].value() & PORTSC_CCS == 0
                && forall|j: int| 0 <= j < i ==> ports@[j].value() & PORTSC_CCS != 0,
            r is None ==> forall|j: int| 0 <= j < ports@.len() ==> ports@[j].value() & PORTSC_CCS != 0,
    {
        let mut i: usize = 0;
        while i < ports.len()
            invariant
                i <= ports@.len(),
                forall|j: int| 0 <= j < i ==> ports@[j].value() & PORTSC_CCS != 0,
            decreases ports@.len() - i,
        {
            if ports[i].read() & PORTSC_CCS == 0 {
                return Some(i);
            }
            i = i + 1;
        }
        None
    }

    /// USBSTS as the driver reads it.
    pub fn status(&self) -> (r: u64)
        ensures
            r == status_spec(self.view().running),
    {
        (if self.running { 0u64 } else { USBSTS_HCH }) | USBSTS_EINT | USBSTS_PCD
    }

    /// CONFIG as the driver reads it: the number of enabled slots.
    pub fn config(&self) -> (r: u64)
        requires
            self.wf(),
        ensures
            r == MAX_SLOTS,
    {
        self.device_slot_manager.num_slots()
    }

    /// CONFIG was written: the driver must enable all reported slots.
    pub fn enable_slots(&self, count: u64)
        requires
            count == MAX_SLOTS,
    {
    }

    /// DCBAAP was written.
    pub fn configure_device_contexts(&mut self, device_context_base_array_ptr: u64)
        requires
            old(self).wf(),
        ensures
            final(self).wf(),
            final(self).view() == (XhciView { dcbaap: device_context_base_array_ptr, ..old(self).view() }),
    {
        self.device_slot_manager.set_dcbaap(device_context_base_array_ptr);
    }

    /// Place an event on the event ring; an event that does not fit is
    /// reported as lost, else the interrupt is raised.
    fn post_event<M: BusDevice>(&mut self, mem: &mut M, trb: &EventTrb, actions: &mut Vec<Action>)
        requires
            old(self).wf(),
        ensures
            final(self).wf(),
            final(self).view() == (XhciView { event_ring: final(self).view().event_ring, ..old(self).view() }),
            post_effect(
                old(self).view().event_ring,
                old(mem).memory(),
                *trb,
                old(actions)@,
                final(actions)@,
                final(mem).memory(),
                final(self).view().event_ring,
            ),
    {
        match self.event_ring.enqueue(mem, trb) {
            Ok(()) => actions.push(Action::Interrupt),
            Err(e) => actions.push(Action::EventLost(e)),
        }
    }

    /// Enable Slot: reserve the lowest free slot.
    fn handle_enable_slot(&mut self) -> (r: (CompletionCode, u8))
        requires
            old(self).wf(),
        ensures
            final(self).wf(),
            enable_slot_spec(old(self).view(), final(self).view(), r.0, r.1),
    {
        match self.device_slot_manager.reserve_slot() {
            Some(slot_id) => (CompletionCode::Success, slot_id as u8),
            None => (CompletionCode::NoSlotsAvailableError, 0),
        }
    }

    /// The device index of slot `slot_id`, if a device is attached there.
    fn device_index(&self, slot_id: u8) -> (r: Result<usize, ControllerError>)
        requires
            self.wf(),
        ensures
            r matches Ok(i) ==> i < MAX_SLOTS && i + 1 == slot_id && self.view().devices[i as int] is Some,
            r is Err ==> r == Err::<usize, ControllerError>(ControllerError::NoDevice(slot_id)),
            r is Ok <==> (1 <= slot_id <= MAX_SLOTS && self.view().devices[slot_id - 1] is Some),
    {
        if slot_id == 0 || slot_id as u64 > MAX_SLOTS {
            return Err(ControllerError::NoDevice(slot_id));
        }
        let index = slot_id as usize - 1;
        if self.device_slots[index].is_none() {
            return Err(ControllerError::NoDevice(slot_id));
        }
        Ok(index)
    }

    /// Configure Endpoint for a slot in use with an attached device and an
    /// input context adding the slot context: configure the contexts, then
    /// hand out one action per added endpoint to start serving it.
    fn handle_configure_endpoint<M: BusDevice>(
        &mut self,
        mem: &mut M,
        data: crate::trb::ConfigureEndpointCommandTrbData,
        actions: &mut Vec<Action>,
    ) -> (r: Result<(), ControllerError>)
        requires
            old(self).wf(),
            old(self).view().slots_used.contains(data.slot_id as u64),
            (read_value(old(mem).memory(), data.input_context_pointer.wrapping_add(4) as int, 4) as u64) & 1 == 1,
        ensures
            final(self).wf(),
            final(self).view() == old(self).view(),
            ({
                let ctx = device_context_of(old(self).view(), old(mem).memory(), data.slot_id);
                let eps = added_endpoints(
                    read_value(old(mem).memory(), data.input_context_pointer.wrapping_add(4) as int, 4) as u64,
                    read_bytes(old(mem).memory(), data.input_context_pointer.wrapping_add(32) as int, 1024),
                    32,
                );
                &&& final(mem).memory() == configured_memory(old(mem).memory(), ctx, data.input_context_pointer)
                &&& first_unsupported(eps) is Some ==> r == Err::<(), ControllerError>(ControllerError::UnsupportedEndpointType(first_unsupported(eps)->Some_0))
                    && final(actions)@ == old(actions)@
                &&& first_unsupported(eps) is None ==> r is Ok && final(actions)@ == old(actions)@ + enable_actions(data.slot_id, ctx, eps)
            }),
    {
        let device_context = self.device_slot_manager.get_device_context(mem, data.slot_id);
        let enabled = device_context.configure_endpoints(mem, data.input_context_pointer);
        let ghost eps = enabled@;
        let ghost mc = mem.memory();
        assert(device_context.address == device_context_of(old(self).view(), old(mem).memory(), data.slot_id));
        assert(mc == configured_memory(old(mem).memory(), device_context.address, data.input_context_pointer));
        assert(eps == added_endpoints(
            read_value(old(mem).memory(), data.input_context_pointer.wrapping_add(4) as int, 4) as u64,
            read_bytes(old(mem).memory(), data.input_context_pointer.wrapping_add(32) as int, 1024),
            32,
        ));
        assert(eps.subrange(0, eps.len() as int) =~= eps);
        let mut k: usize = 0;
        while k < enabled.len()
            invariant
                self.wf(),
                self.view() == old(self).view(),
                mem.memory() == mc,
                device_context.address == device_context_of(old(self).view(), old(mem).memory(), data.slot_id),
                mc == configured_memory(old(mem).memory(), device_context.address, data.input_context_pointer),
                eps == added_endpoints(
                    read_value(old(mem).memory(), data.input_context_pointer.wrapping_add(4) as int, 4) as u64,
                    read_bytes(old(mem).memory(), data.input_context_pointer.wrapping_add(32) as int, 1024),
                    32,
                ),
                actions@ == old(actions)@,
                k <= enabled@.len(),
                eps == enabled@,
                forall|j: int| 0 <= j < k ==> (#[trigger] eps[j]).1 is Some,
                first_unsupported(eps) == first_unsupported(eps.subrange(k as int, eps.len() as int)),
            decreases enabled@.len() - k,
        {
            proof {
                lemma_first_unsupported_step(eps, k as int);
            }
            if enabled[k].1.is_none() {
                assert(first_unsupported(eps) == Some(eps[k as int].0));
                return Err(ControllerError::UnsupportedEndpointType(enabled[k].0));
            }
            k = k + 1;
        }
        proof {
            assert(eps.subrange(k as int, eps.len() as int) =~= Seq::<(u8, Option<EndpointType>)>::empty());
        }
        let ghost a0 = actions@;
        let mut k: usize = 0;
        while k < enabled.len()
            invariant
                self.wf(),
                self.view() == old(self).view(),
                mem.memory() == mc,
                device_context.address == device_context_of(old(self).view(), old(mem).memory(), data.slot_id),
                mc == configured_memory(old(mem).memory(), device_context.address, data.input_context_pointer),
                eps == added_endpoints(
                    read_value(old(mem).memory(), data.input_context_pointer.wrapping_add(4) as int, 4) as u64,
                    read_bytes(old(mem).memory(), data.input_context_pointer.wrapping_add(32) as int, 1024),
                    32,
                ),
                k <= enabled@.len(),
                eps == enabled@,
                forall|j: int| 0 <= j < eps.len() ==> (#[trigger] eps[j]).1 is Some,
                actions@ == a0 + enable_actions(data.slot_id, device_context.address, eps.subrange(0, k as int)),
            decreases enabled@.len() - k,
        {
            let (endpoint_id, endpoint_type) = enabled[k];
            let endpoint_type = match endpoint_type {
                Some(t) => t,
                None => EndpointType::Control,
            };
            let transfer_ring = TransferRing::new(EndpointContext::new(device_context.address.wrapping_add(endpoint_id as u64 * 32)));
            actions.push(Action::EnableEndpoint { slot_id: data.slot_id, endpoint_id, endpoint_type, transfer_ring });
            k = k + 1;
            proof {
                assert(enable_actions(data.slot_id, device_context.address, eps.subrange(0, k as int))
                    =~= enable_actions(data.slot_id, device_context.address, eps.subrange(0, k - 1)).push(Action::EnableEndpoint {
                        slot_id: data.slot_id, endpoint_id, endpoint_type, transfer_ring }));
                assert(actions@ =~= a0 + enable_actions(data.slot_id, device_context.address, eps.subrange(0, k as int)));
            }
        }
        proof {
            assert(eps.subrange(0, eps.len() as int) =~= eps);
        }
        Ok(())
    }

    /// Carry out one command and post its completion event.
    fn handle_command<M: BusDevice>(&mut self, mem: &mut M, cmd: CommandTrb, actions: &mut Vec<Action>) -> (r: Result<(), ControllerError>)
        requires
            old(self).wf(),
            cmd.address & 0xf == 0,
        ensures
            final(self).wf(),
            command_effect(old(self).view(), old(mem).memory(), cmd, old(actions)@, r, final(self).view(), final(mem).memory(), final(actions)@),
    {
        let address = cmd.address;
        assert(0u32 & 0xff00_0000 == 0) by (bit_vector);
        let (code, slot_id): (CompletionCode, u8) = match cmd.variant {
            CommandTrbVariant::EnableSlot => {
                let ghost v0 = self.view();
                let (code, slot_id) = self.handle_enable_slot();
                let ghost vs = self.view();
                let event = EventTrb::new_command_completion_event_trb(address, 0, code, slot_id);
                self.post_event(mem, &event, actions);
                assert(enable_slot_spec(v0, vs, code, slot_id));
                assert(posted(vs, old(mem).memory(), old(actions)@, completion_event(address, code, slot_id), self.view(), mem.memory(), actions@));
                return Ok(());
            },
            CommandTrbVariant::DisableSlot(data) => (CompletionCode::Success, data.slot_id),
            CommandTrbVariant::AddressDevice(data) => {
                if !self.device_slot_manager.is_used(data.slot_id as u64) {
                    return Err(ControllerError::UnassignedSlot(data.slot_id));
                }
                let flags = mem.read(Request::new(data.input_context_pointer, RequestSize::Size8));
                if flags != 0x3_0000_0000 {
                    return Err(ControllerError::Context(ContextError::UnexpectedInputFlags(flags)));
                }
                let device_context = self.device_slot_manager.get_device_context(mem, data.slot_id);
                device_context.initialize(mem, data.input_context_pointer);
                (CompletionCode::Success, data.slot_id)
            },
            CommandTrbVariant::ConfigureEndpoint(data) => {
                if data.deconfigure {
                    return Err(ControllerError::UnsupportedCommand(cmd));
                }
                if !self.device_slot_manager.is_used(data.slot_id as u64) {
                    return Err(ControllerError::UnassignedSlot(data.slot_id));
                }
                match self.device_index(data.slot_id) {
                    Ok(_) => {},
                    Err(e) => return Err(e),
                }
                let add_flags = mem.read(Request::new(data.input_context_pointer.wrapping_add(4), RequestSize::Size4));
                if add_flags & 1 != 1 {
                    return Err(ControllerError::Context(ContextError::MissingSlotContextFlag));
                }
                self.handle_configure_endpoint(mem, data, actions)?;
                (CompletionCode::Success, data.slot_id)
            },
            CommandTrbVariant::StopEndpoint(data) => {
                if !self.device_slot_manager.is_used(data.slot_id as u64) {
                    return Err(ControllerError::UnassignedSlot(data.slot_id));
                }
                let device_context = self.device_slot_manager.get_device_context(mem, data.slot_id);
                device_context.set_endpoint_state(mem, data.endpoint_id, ENDPOINT_STATE_STOPPED);
                (CompletionCode::Success, data.slot_id)
            },
            CommandTrbVariant::ResetDevice(data) => (CompletionCode::Success, data.slot_id),
            CommandTrbVariant::NoOp => (CompletionCode::Success, 0),
            _ => return Err(ControllerError::UnsupportedCommand(cmd)),
        };
        let event = EventTrb::new_command_completion_event_trb(address, 0, code, slot_id);
        self.post_event(mem, &event, actions);
        Ok(())
    }

    /// The controller doorbell: carry out the commands on the command ring
    /// in order, up to `COMMAND_BATCH` of them, and stop at the first one
    /// that cannot be carried out.
    pub fn doorbell_controller<M: BusDevice>(&mut self, mem: &mut M) -> (r: Result<Vec<Action>, ControllerError>)
        requires
            old(self).wf(),
        ensures
            final(self).wf(),
            exists|tr: Seq<(XhciView, Seq<u8>, Seq<Action>)>, cmds: Seq<CommandTrb>| #[trigger] doorbell_trace(
                old(self).view(),
                old(mem).memory(),
                tr,
                cmds,
            ) && doorbell_end(tr.last(), cmds.len(), r, final(self).view(), final(mem).memory()),
    {
        let mut actions: Vec<Action> = Vec::new();
        let ghost mut tr: Seq<(XhciView, Seq<u8>, Seq<Action>)> = seq![(self.view(), mem.memory(), Seq::<Action>::empty())];
        let ghost mut cmds: Seq<CommandTrb> = Seq::empty();
        let mut n: u64 = 0;
        while n < COMMAND_BATCH
            invariant
                self.wf(),
                n == cmds.len(),
                doorbell_trace(old(self).view(), old(mem).memory(), tr, cmds),
                tr.last() == (self.view(), mem.memory(), actions@),
            decreases COMMAND_BATCH - n,
        {
            let ghost s = tr.last();
            let next = self.command_ring.next_command_trb(mem);
            let cmd = match next {
                Some(c) => c,
                None => {
                    assert(crate::rings::command_step(s.1, s.0.command_ring.dequeue_pointer, s.0.command_ring.cycle_state, next,
                        self.view().command_ring.dequeue_pointer, self.view().command_ring.cycle_state));
                    assert(self.view() == (XhciView { command_ring: self.view().command_ring, ..s.0 }));
                    assert(doorbell_end(tr.last(), cmds.len(), Ok::<Vec<Action>, ControllerError>(actions), self.view(), mem.memory()));
                    return Ok(actions);
                },
            };
            let ghost vc = self.view();
            assert(vc == (XhciView { command_ring: vc.command_ring, ..s.0 }));
            assert(crate::rings::command_step(s.1, s.0.command_ring.dequeue_pointer, s.0.command_ring.cycle_state, next,
                vc.command_ring.dequeue_pointer, vc.command_ring.cycle_state));
            let res = self.handle_command(mem, cmd, &mut actions);
            match res {
                Ok(()) => {},
                Err(e) => {
                    assert(command_effect(vc, s.1, cmd, s.2, Err::<(), ControllerError>(e), self.view(), mem.memory(), actions@));
                    assert(self.view().command_ring == vc.command_ring);
                    assert(self.view().command_ring.running == s.0.command_ring.running);
                    assert(cmds.len() < COMMAND_BATCH);
                    assert(crate::rings::command_step(s.1, s.0.command_ring.dequeue_pointer, s.0.command_ring.cycle_state, Some(cmd),
                        self.view().command_ring.dequeue_pointer, self.view().command_ring.cycle_state));
                    assert(command_effect(XhciView { command_ring: self.view().command_ring, ..s.0 }, s.1, cmd, s.2,
                        Err::<(), ControllerError>(e), self.view(), mem.memory(), actions@));
                    assert(doorbell_end(tr.last(), cmds.len(), Err::<Vec<Action>, ControllerError>(e), self.view(), mem.memory()));
                    return Err(e);
                },
            }
            proof {
                let old_tr = tr;
                let old_cmds = cmds;
                assert(command_round(s.0, s.1, s.2, cmd, self.view(), mem.memory(), actions@));
                tr = tr.push((self.view(), mem.memory(), actions@));
                cmds = cmds.push(cmd);
                assert forall|i: int| 0 <= i < cmds.len() implies #[trigger] command_round(tr[i].0, tr[i].1, tr[i].2, cmds[i], tr[i + 1].0, tr[i + 1].1, tr[i + 1].2) by {
                    if i < old_cmds.len() {
                        assert(tr[i] == old_tr[i] && tr[i + 1] == old_tr[i + 1] && cmds[i] == old_cmds[i]);
                    }
                }
            }
            n = n + 1;
        }
        let ghost a_before = actions@;
        actions.push(Action::CommandsPending);
        assert(doorbell_end(tr.last(), cmds.len(), Ok::<Vec<Action>, ControllerError>(actions), self.view(), mem.memory()));
        Ok(actions)
    }

    /// A slot doorbell: endpoint 1 takes the next control request off the
    /// control transfer ring and hands it out for the attached device; the
    /// other endpoints wake their worker.
    pub fn doorbell_device<M: BusDevice>(&mut self, mem: &mut M, slot_id: u8, value: u32) -> (r: Result<Vec<Action>, ControllerError>)
        requires
            old(self).wf(),
        ensures
            final(self).wf(),
            final(self).view() == old(self).view(),
            device_doorbell_spec(old(self).view(), old(mem).memory(), slot_id, value, r, final(mem).memory()),
    {
        if value == 0 || value > 31 {
            return Err(ControllerError::InvalidDoorbell(value));
        }
        if value == 1 {
            if !self.device_slot_manager.is_used(slot_id as u64) {
                return Err(ControllerError::UnassignedSlot(slot_id));
            }
            let device_context = self.device_slot_manager.get_device_context(mem, slot_id);
            let transfer_ring = device_context.get_control_transfer_ring();
            let ro = transfer_ring.next_request(mem);
            assert(crate::rings::request_step(old(mem).memory(), device_context_of(old(self).view(), old(mem).memory(), slot_id).wrapping_add(32), ro, mem.memory()));
            let request = match ro {
                None => return Err(ControllerError::NoControlRequest(slot_id)),
                Some(Err(e)) => return Err(ControllerError::Request(e)),
                Some(Ok(req)) => req,
            };
            match self.device_index(slot_id) {
                Ok(_) => {},
                Err(e) => return Err(e),
            }
            let mut actions: Vec<Action> = Vec::new();
            actions.push(Action::ControlTransfer { slot_id, request });
            return Ok(actions);
        }
        match self.device_index(slot_id) {
            Ok(_) => {},
            Err(e) => return Err(e),
        }
        let mut actions: Vec<Action> = Vec::new();
        actions.push(Action::Transfer { slot_id, endpoint_id: value as u8 });
        Ok(actions)
    }

    /// The device in slot `slot_id` carried out `request`: post a successful
    /// transfer event for it on endpoint 1 and raise the interrupt.
    pub fn complete_control_transfer<M: BusDevice>(&mut self, mem: &mut M, slot_id: u8, request: &UsbRequest) -> (r: Vec<Action>)
        requires
            old(self).wf(),
        ensures
            final(self).wf(),
            final(self).view() == (XhciView { event_ring: final(self).view().event_ring, ..old(self).view() }),
            post_effect(
                old(self).view().event_ring,
                old(mem).memory(),
                EventTrb::Transfer(crate::trb::TransferEventTrbData {
                    trb_pointer: request.address,
                    trb_transfer_length: 0,
                    completion_code: CompletionCode::Success,
                    event_data: false,
                    endpoint_id: 1,
                    slot_id,
                }),
                Seq::<Action>::empty(),
                r@,
                final(mem).memory(),
                final(self).view().event_ring,
            ),
    {
        let event = EventTrb::new_transfer_event_trb(request.address, 0, CompletionCode::Success, false, 1, slot_id);
        let mut actions: Vec<Action> = Vec::new();
        self.post_event(mem, &event, &mut actions);
        actions
    }

    /// A write to the PCI configuration space.
    pub fn write_cfg(&mut self, req: Request, value: u64)
        requires
            old(self).wf(),
            req.end() <= 256,
        ensures
            final(self).wf(),
            final(self).view() == old(self).view(),
    {
        self.config_space.write(req, value);
    }

    /// A read of the PCI configuration space.
    pub fn read_cfg(&self, req: Request) -> (r: u64)
        requires
            self.wf(),
            req.end() <= 256,
        ensures
            r == self.config_space_spec().read_spec_value(req),
    {
        self.config_space.read(req)
    }

    /// The PCI configuration space.
    pub closed spec fn config_space_spec(&self) -> ConfigSpace {
        self.config_space
    }

    /// The BAR with number `bar_no`.
    pub fn bar(&self, bar_no: u8) -> (r: Option<crate::config_space::BarInfo>)
        requires
            self.wf(),
        ensures
            r == (if bar_no < 6 { self.config_space_spec().bars_spec()[bar_no as int] } else { None }),
    {
        self.config_space.bar(bar_no)
    }

    /// A driver read of BAR 0.
    pub fn read_io(&self, region: u32, req: Request) -> (r: Result<u64, ControllerError>)
        requires
            self.wf(),
        ensures
            region != 0 ==> r == Err::<u64, ControllerError>(ControllerError::UnexpectedRegion(region)),
            region == 0 ==> r == match read_spec(self.view(), req.addr) {
                Some(v) => Ok::<u64, ControllerError>(v),
                None => Err(ControllerError::UnknownRegister(req.addr)),
            },
    {
        if region != 0 {
            return Err(ControllerError::UnexpectedRegion(region));
        }
        let addr = req.addr;
        let v: u64 = if addr == CAPLENGTH {
            OP_BASE
        } else if addr == HCIVERSION {
            HCIVERSION_VALUE
        } else if addr == HCSPARAMS1 {
            HCSPARAMS1_VALUE
        } else if addr == HCSPARAMS2 || addr == HCSPARAMS3 || addr == HCCPARAMS2 {
            0
        } else if addr == HCCPARAMS1 {
            HCCPARAMS1_VALUE
        } else if addr == DBOFF {
            DOORBELL_CONTROLLER
        } else if addr == RTSOFF {
            RUN_BASE
        } else if addr == SUPPORTED_PROTOCOLS {
            USB3_CAP_INFO
        } else if addr == SUPPORTED_PROTOCOLS_CONFIG {
            USB3_CAP_CONFIG
        } else if addr == SUPPORTED_PROTOCOLS_USB2 {
            USB2_CAP_INFO
        } else if addr == SUPPORTED_PROTOCOLS_USB2_CONFIG {
            USB2_CAP_CONFIG
        } else if addr == USBCMD {
            0
        } else if addr == USBSTS {
            self.status()
        } else if addr == DNCTL {
            2
        } else if addr == CRCR {
            self.command_ring.status()
        } else if addr == CRCR_HI || addr == DCBAAP_HI || addr == ERSTBA_HI || addr == ERDP_HI {
            0
        } else if addr == DCBAAP {
            self.device_slot_manager.get_dcbaap()
        } else if addr == PAGESIZE {
            1
        } else if addr == CONFIG {
            self.config()
        } else if addr == IMAN {
            self.interrupt_management
        } else if addr == IMOD {
            self.interrupt_moderation_interval
        } else if addr == ERSTSZ {
            self.event_ring.read_erst_size()
        } else if addr == ERSTBA {
            self.event_ring.read_base_address()
        } else if addr == ERDP {
            self.event_ring.read_dequeue_pointer()
        } else if DOORBELL_CONTROLLER <= addr && addr < DOORBELL_DEVICE_END {
            0
        } else if let Some(i) = get_port_index_from_addr(addr, PORTSC_USB3, NUM_USB3_PORTS, 0) {
            self.portsc_usb3[i].read()
        } else if get_port_index_from_addr(addr, PORTSC_USB3, NUM_USB3_PORTS, 8).is_some() {
            0
        } else if let Some(i) = get_port_index_from_addr(addr, PORTSC_USB2, NUM_USB2_PORTS, 0) {
            self.portsc_usb2[i].read()
        } else if get_port_index_from_addr(addr, PORTSC_USB2, NUM_USB2_PORTS, 8).is_some() {
            0
        } else {
            return Err(ControllerError::UnknownRegister(addr));
        };
        Ok(v)
    }

    /// A driver write to BAR 0.
    pub fn write_io<M: BusDevice>(&mut self, mem: &mut M, region: u32, req: Request, value: u64) -> (r: Result<Vec<Action>, ControllerError>)
        requires
            old(self).wf(),
        ensures
            final(self).wf(),
            region != 0 ==> r == Err::<Vec<Action>, ControllerError>(ControllerError::UnexpectedRegion(region)),
            region == 0 && req.addr == CRCR ==> (r is Ok && r->Ok_0@.len() == 0)
                && final(self).view() == (XhciView { command_ring: final(self).view().command_ring, ..old(self).view() })
                && (!old(self).view().command_ring.running ==> final(self).view().command_ring == (CommandRing {
                    running: false,
                    dequeue_pointer: value & crate::constants::CRCR_DEQUEUE_POINTER_MASK,
                    cycle_state: value & crate::constants::CRCR_RCS != 0,
                })),
            region == 0 && req.addr == DCBAAP ==> (r is Ok && r->Ok_0@.len() == 0)
                && final(self).view() == (XhciView { dcbaap: value, ..old(self).view() }),
            region == 0 && (req.addr == CRCR_HI || req.addr == DCBAAP_HI || req.addr == ERSTBA_HI || req.addr == ERDP_HI) ==> (
                r is Err <==> value != 0),
            region == 0 && req.addr == DNCTL ==> (r is Err <==> value != 2),
            region == 0 && req.addr == CONFIG ==> (r is Err <==> value != MAX_SLOTS),
            region == 0 && req.addr == IMAN ==> r is Ok && final(self).view() == (XhciView { interrupt_management: value, ..old(self).view() }),
            region == 0 && req.addr == IMOD ==> r is Ok && final(self).view() == (XhciView { interrupt_moderation_interval: value, ..old(self).view() }),
            region == 0 && req.addr == ERDP ==> r is Ok && final(self).view() == (XhciView {
                event_ring: EventRingView { dequeue_pointer: value, ..old(self).view().event_ring },
                ..old(self).view()
            }),
            region == 0 && req.addr == USBCMD ==> r is Ok && final(self).view().running == (value & 1 == 1)
                && final(self).view().command_ring == old(self).view().command_ring
                && ((value & 1 == 1 && !old(self).view().running) ==> post_effect(
                    old(self).view().event_ring,
                    old(mem).memory(),
                    EventTrb::PortStatusChange(crate::trb::PortStatusChangeEventTrbData { port_id: 0 }),
                    Seq::<Action>::empty(),
                    r->Ok_0@,
                    final(mem).memory(),
                    final(self).view().event_ring,
                ))
                && (!(value & 1 == 1 && !old(self).view().running) ==> r->Ok_0@ == Seq::<Action>::empty()
                    && final(mem).memory() == old(mem).memory() && final(self).view().event_ring == old(self).view().event_ring),
            region == 0 && req.addr == ERSTBA && r is Ok ==> final(self).view().event_ring == (EventRingView {
                base_address: value,
                enqueue_pointer: crate::rings::erst_entry(old(mem).memory(), value, 0).0,
                trb_count: crate::rings::erst_entry(old(mem).memory(), value, 0).1,
                cycle_state: true,
                ..old(self).view().event_ring
            }),
            region == 0 && DOORBELL_CONTROLLER < req.addr < DOORBELL_DEVICE_END ==> final(self).view() == old(self).view()
                && device_doorbell_spec(old(self).view(), old(mem).memory(), ((req.addr - DOORBELL_CONTROLLER) / 4) as u8,
                    (value & 0xFFFF_FFFF) as u32, r, final(mem).memory()),
            region == 0 && req.addr == DOORBELL_CONTROLLER ==> exists|tr: Seq<(XhciView, Seq<u8>, Seq<Action>)>, cmds: Seq<CommandTrb>|
                #[trigger] doorbell_trace(old(self).view(), old(mem).memory(), tr, cmds)
                && doorbell_end(tr.last(), cmds.len(), r, final(self).view(), final(mem).memory()),
            region == 0 && req.addr == ERSTSZ ==> ((r is Err <==> value & 0xFFFF == 0)
                && (r is Ok ==> final(self).view().event_ring.erst_size == value & 0xFFFF)),
            region == 0 && req.addr == ERSTBA ==> (r is Err <==> (value & 0x3f != 0 || old(self).view().event_ring.erst_size == 0)),
            region == 0 && req.addr == PORTSC_USB3 ==> r is Ok && final(self).view() == (XhciView {
                portsc_usb3: old(self).view().portsc_usb3.update(0, old(self).view().portsc_usb3[0] & !(value & crate::portsc::PORTSC_RW1C_BITS)),
                ..old(self).view()
            }),
            region == 0 && req.addr == PORTSC_USB2 ==> r is Ok && final(self).view() == (XhciView {
                portsc_usb2: old(self).view().portsc_usb2.update(0, old(self).view().portsc_usb2[0] & !(value & crate::portsc::PORTSC_RW1C_BITS)),
                ..old(self).view()
            }),
    {
        if region != 0 {
            return Err(ControllerError::UnexpectedRegion(region));
        }
        let addr = req.addr;
        let mut actions: Vec<Action> = Vec::new();
        if addr == USBCMD {
            actions = self.run(mem, value);
        } else if addr == DNCTL {
            if value != 2 {
                return Err(ControllerError::DebugNotificationsUnsupported(value));
            }
        } else if addr == CRCR {
            self.command_ring.control(value);
        } else if addr == CRCR_HI || addr == DCBAAP_HI || addr == ERSTBA_HI || addr == ERDP_HI {
            if value != 0 {
                return Err(ControllerError::AddressAbove4G(value));
            }
        } else if addr == DCBAAP {
            self.configure_device_contexts(value);
        } else if addr == CONFIG {
            if value != MAX_SLOTS {
                return Err(ControllerError::SlotCountMismatch(value));
            }
            self.enable_slots(value);
        } else if addr == USBSTS {
        } else if addr == IMAN {
            self.interrupt_management = value;
        } else if addr == IMOD {
            self.interrupt_moderation_interval = value;
        } else if addr == ERSTSZ {
            assert(value & 0xFFFF <= 0xFFFF) by (bit_vector);
            let size = (value & 0xFFFF) as u32;
            if size == 0 {
                return Err(ControllerError::EmptySegmentTable);
            }
            self.event_ring.set_erst_size(size);
        } else if addr == ERSTBA {
            if value & 0x3f != 0 || self.event_ring.read_erst_size() == 0 {
                return Err(ControllerError::SegmentTableMisconfigured(value));
            }
            self.event_ring.configure(mem, value);
        } else if addr == ERDP {
            self.event_ring.update_dequeue_pointer(value);
        } else if addr == DOORBELL_CONTROLLER {
            return self.doorbell_controller(mem);
        } else if DOORBELL_CONTROLLER < addr && addr < DOORBELL_DEVICE_END {
            let slot_id = ((addr - DOORBELL_CONTROLLER) / 4) as u8;
            assert(value & 0xFFFF_FFFF <= 0xFFFF_FFFF) by (bit_vector);
            return self.doorbell_device(mem, slot_id, (value & 0xFFFF_FFFF) as u32);
        } else if let Some(i) = get_port_index_from_addr(addr, PORTSC_USB3, NUM_USB3_PORTS, 0) {
            let mut port = self.portsc_usb3[i];
            port.write(value);
            self.portsc_usb3.set(i, port);
            assert(self.view().portsc_usb3 =~= old(self).view().portsc_usb3.update(i as int, old(self).view().portsc_usb3[i as int] & !(value & crate::portsc::PORTSC_RW1C_BITS)));
            assert(self.view() =~= (XhciView { portsc_usb3: self.view().portsc_usb3, ..old(self).view() }));
        } else if let Some(i) = get_port_index_from_addr(addr, PORTSC_USB2, NUM_USB2_PORTS, 0) {
            let mut port = self.portsc_usb2[i];
            port.write(value);
            self.portsc_usb2.set(i, port);
            assert(self.view().portsc_usb2 =~= old(self).view().portsc_usb2.update(i as int, old(self).view().portsc_usb2[i as int] & !(value & crate::portsc::PORTSC_RW1C_BITS)));
            assert(self.view() =~= (XhciView { portsc_usb2: self.view().portsc_usb2, ..old(self).view() }));
        } else {
            return Err(ControllerError::UnknownRegister(addr));
        }
        Ok(actions)
    }

    /// USBCMD was written: bit 0 runs or stops the controller. Starting it
    /// posts a port status change event for port 0 and raises the interrupt.
    pub fn run<M: BusDevice>(&mut self, mem: &mut M, usbcmd: u64) -> (r: Vec<Action>)
        requires
            old(self).wf(),
        ensures
            final(self).wf(),
            final(self).view().running == (usbcmd & 1 == 1),
            final(self).view().command_ring == old(self).view().command_ring,
            !(usbcmd & 1 == 1 && !old(self).view().running) ==> r@ == Seq::<Action>::empty()
                && final(mem).memory() == old(mem).memory()
                && final(self).view().event_ring == old(self).view().event_ring,
            (usbcmd & 1 == 1 && !old(self).view().running) ==> post_effect(
                old(self).view().event_ring,
                old(mem).memory(),
                EventTrb::PortStatusChange(crate::trb::PortStatusChangeEventTrbData { port_id: 0 }),
                Seq::<Action>::empty(),
                r@,
                final(mem).memory(),
                final(self).view().event_ring,
            ),
    {
        let was_running = self.running;
        self.running = usbcmd & 0x1 == 0x1;
        let mut actions: Vec<Action> = Vec::new();
        if self.running && !was_running {
            let trb = EventTrb::new_port_status_change_event_trb(0);
            self.post_event(mem, &trb, &mut actions);
        }
        actions
    }
}

} // verus!
