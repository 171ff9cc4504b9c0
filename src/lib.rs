//! Emulation of a PCI XHCI USB host controller: register windows, the
//! PCI configuration space, MSI-X, TRB encoding and the XHCI rings.

pub mod bus;
pub mod bytes;
pub mod register_set;
pub mod constants;
pub mod msi;
pub mod portsc;
pub mod msix_table;
pub mod config_space;
pub mod trb;
pub mod memory;
pub mod usbrequest;
pub mod device_slots;
pub mod rings;
pub mod realdevice;
pub mod xhci;
pub mod interval;
pub mod interrupt_line;
pub mod msi_receiver;
pub mod usb_pcap;
pub mod worker;
