//! Register offsets and values fixed by the PCI and XHCI specifications.

use vstd::prelude::*;

verus! {

/// The size of a PCI type-0 configuration space.
pub const CONFIG_SPACE_SIZE: usize = 256;

/// The number of base address registers of a type-0 header.
pub const MAX_BARS: usize = 6;

/// The bits of a capability pointer that hold the offset.
pub const CAPABILITIES_POINTER_MASK: u8 = 0xfc;

pub const OFFSET_VENDOR: usize = 0x0;
pub const OFFSET_DEVICE: usize = 0x2;
pub const OFFSET_COMMAND: usize = 0x4;
pub const OFFSET_STATUS: usize = 0x6;
pub const OFFSET_REVISION: usize = 0x8;
pub const OFFSET_PROG_IF: usize = 0x9;
pub const OFFSET_SUBCLASS: usize = 0xA;
pub const OFFSET_CLASS: usize = 0xB;
pub const OFFSET_CACHE_LINE_SIZE: usize = 0xC;
pub const OFFSET_LATENCY_TIMER: usize = 0xD;
pub const OFFSET_HEADER_TYPE: usize = 0xE;
pub const OFFSET_BIST: usize = 0xF;
pub const OFFSET_BAR_0: usize = 0x10;
pub const OFFSET_BAR_1: usize = 0x14;
pub const OFFSET_SUBSYSTEM_VENDOR_ID: usize = 0x2C;
pub const OFFSET_SUBSYSTEM_ID: usize = 0x2E;
pub const OFFSET_ROM_BAR: usize = 0x30;
pub const OFFSET_CAPABILITIES_POINTER: usize = 0x34;
pub const OFFSET_IRQ_LINE: usize = 0x3C;
pub const OFFSET_IRQ_PIN: usize = 0x3D;
pub const OFFSET_MIN_GNT: usize = 0x3E;
pub const OFFSET_MAX_LAT: usize = 0x3F;

pub const VENDOR_REDHAT: u16 = 0x1b36;
pub const DEVICE_REDHAT_XHCI: u16 = 0x000d;
pub const CLASS_SERIAL: u8 = 0xc;
pub const SUBCLASS_SERIAL_USB: u8 = 0x03;
pub const PROGIF_USB_XHCI: u8 = 0x30;

/// The writable bits of the command register.
pub const COMMAND_WRITABLE_BITS: u16 = 0x077F;

/// The status bit that announces a capability list.
pub const STATUS_CAPABILITIES: u16 = 0x10;

pub const HEADER_TYPE_00: u8 = 0;
pub const HEADER_TYPE_MULTIFUNCTION: u8 = 0x80;

pub const CAPABILITY_ID_MSI_X: u8 = 0x11;

/// The largest number of MSI-X vectors a function can have.
pub const MSIX_MAX_VECTORS: u16 = 0x800;

/// The writable bits of the MSI-X message control register: enable and
/// function mask.
pub const MSIX_CONTROL_WRITABLE_BITS: u16 = 0xC000;

pub const TRB_NORMAL: u8 = 1;
pub const TRB_SETUP_STAGE: u8 = 2;
pub const TRB_DATA_STAGE: u8 = 3;
pub const TRB_STATUS_STAGE: u8 = 4;
pub const TRB_ISOCH: u8 = 5;
pub const TRB_LINK: u8 = 6;
pub const TRB_EVENT_DATA: u8 = 7;
pub const TRB_NO_OP: u8 = 8;
pub const TRB_ENABLE_SLOT_COMMAND: u8 = 9;
pub const TRB_DISABLE_SLOT_COMMAND: u8 = 10;
pub const TRB_ADDRESS_DEVICE_COMMAND: u8 = 11;
pub const TRB_CONFIGURE_ENDPOINT_COMMAND: u8 = 12;
pub const TRB_EVALUATE_CONTEXT_COMMAND: u8 = 13;
pub const TRB_RESET_ENDPOINT_COMMAND: u8 = 14;
pub const TRB_STOP_ENDPOINT_COMMAND: u8 = 15;
pub const TRB_SET_TR_DEQUEUE_POINTER_COMMAND: u8 = 16;
pub const TRB_RESET_DEVICE_COMMAND: u8 = 17;
pub const TRB_FORCE_EVENT_COMMAND: u8 = 18;
pub const TRB_NEGOTIATE_BANDWIDTH_COMMAND: u8 = 19;
pub const TRB_SET_LATENCY_TOLERANCE_VALUE_COMMAND: u8 = 20;
pub const TRB_GET_PORT_BANDWIDTH_COMMAND: u8 = 21;
pub const TRB_FORCE_HEADER_COMMAND: u8 = 22;
pub const TRB_NO_OP_COMMAND: u8 = 23;
pub const TRB_TRANSFER_EVENT: u8 = 32;
pub const TRB_COMMAND_COMPLETION_EVENT: u8 = 33;
pub const TRB_PORT_STATUS_CHANGE_EVENT: u8 = 34;

/// The bits of a command ring control write that hold the dequeue pointer.
pub const CRCR_DEQUEUE_POINTER_MASK: u64 = 0xFFFF_FFFF_FFFF_FFC0;
/// The ring cycle state bit of the command ring control register.
pub const CRCR_RCS: u64 = 0x1;

/// The command ring running bit as read back from CRCR.
pub const CRCR_CRR: u64 = 0x8;

/// Slot state: addressed.
pub const SLOT_STATE_ADDRESSED: u8 = 2;
/// Slot state: configured.
pub const SLOT_STATE_CONFIGURED: u8 = 3;

/// Endpoint state: disabled.
pub const ENDPOINT_STATE_DISABLED: u8 = 0;
/// Endpoint state: running.
pub const ENDPOINT_STATE_RUNNING: u8 = 1;
/// Endpoint state: halted.
pub const ENDPOINT_STATE_HALTED: u8 = 2;
/// Endpoint state: stopped.
pub const ENDPOINT_STATE_STOPPED: u8 = 3;

/// The size of a TRB in bytes.
pub const TRB_SIZE: u64 = 16;

} // verus!
