use usbvfiod::bus::{Request, RequestSize};
use usbvfiod::memory::{BusDevice, GuestRam};
use usbvfiod::realdevice::{in_buffer_size, in_bytes_to_copy, EndpointType, Speed};
use usbvfiod::xhci::{
    Action, ControllerError, XhciController, CONFIG, CRCR, DOORBELL_CONTROLLER, ERDP, ERSTBA,
    ERSTSZ, HCIVERSION, HCSPARAMS1, PORTSC_USB2, PORTSC_USB3, USBCMD, USBSTS,
};

fn w(ctrl: &mut XhciController, ram: &mut GuestRam, addr: u64, value: u64) -> Vec<Action> {
    ctrl.write_io(ram, 0, Request::new(addr, RequestSize::Size4), value)
        .unwrap()
}

fn r(ctrl: &XhciController, addr: u64) -> u64 {
    ctrl.read_io(0, Request::new(addr, RequestSize::Size4)).unwrap()
}

/// Guest memory with a one-segment event ring at 0x1000 (16 TRBs) whose
/// segment table is at 0x0, and the controller pointed at it.
fn setup() -> (XhciController, GuestRam) {
    let mut ram = GuestRam::new(0x10000);
    ram.write_bulk(0, &0x1000u64.to_le_bytes());
    ram.write_bulk(8, &16u32.to_le_bytes());
    let mut ctrl = XhciController::new();
    w(&mut ctrl, &mut ram, ERSTSZ, 1);
    w(&mut ctrl, &mut ram, ERSTBA, 0);
    w(&mut ctrl, &mut ram, ERDP, 0x1000);
    (ctrl, ram)
}

#[test]
fn capability_registers_report_constants() {
    let (ctrl, _ram) = setup();
    assert_eq!(r(&ctrl, HCIVERSION), 0x100);
    assert_eq!(r(&ctrl, HCSPARAMS1) & 0xff, 8);
    assert_eq!(r(&ctrl, CONFIG), 8);
    assert_eq!(ctrl.read_io(1, Request::new(0, RequestSize::Size4)), Err(ControllerError::UnexpectedRegion(1)));
    assert_eq!(ctrl.read_io(0, Request::new(0x3ff0, RequestSize::Size4)), Err(ControllerError::UnknownRegister(0x3ff0)));
}

#[test]
fn enable_slot_flow() {
    let (mut ctrl, mut ram) = setup();
    w(&mut ctrl, &mut ram, CONFIG, 8);
    // An Enable Slot command with cycle bit 1 at 0x2000.
    ram.write_bulk(0x2000, &[0, 0, 0, 0, 0, 0, 0, 0, 0, 0, 0, 0, 0x01, 9 << 2, 0, 0]);
    w(&mut ctrl, &mut ram, CRCR, 0x2000 | 1);

    let actions = w(&mut ctrl, &mut ram, DOORBELL_CONTROLLER, 0);
    assert_eq!(actions, vec![Action::Interrupt]);

    let event = ram.read_bulk(0x1000, 16);
    assert_eq!(&event[0..8], &0x2000u64.to_le_bytes());
    assert_eq!(event[11], 1, "completion code Success");
    assert_eq!(event[12] & 1, 1, "cycle bit");
    assert_eq!(event[13] >> 2, 33, "command completion event");
    assert_eq!(event[15], 1, "slot id");
}

#[test]
fn port_status_change_on_run() {
    let (mut ctrl, mut ram) = setup();
    assert_eq!(r(&ctrl, USBSTS) & 1, 1);
    let actions = w(&mut ctrl, &mut ram, USBCMD, 1);
    assert_eq!(actions, vec![Action::Interrupt]);
    let event = ram.read_bulk(0x1000, 16);
    assert_eq!(event[13] >> 2, 34);
    assert_eq!(event[3], 0);
    assert_eq!(event[12] & 1, 1);
    assert_eq!(r(&ctrl, USBSTS) & 1, 0);
    // Writing run again does not post another event.
    assert_eq!(w(&mut ctrl, &mut ram, USBCMD, 1), vec![]);
}

#[test]
fn attached_devices_show_up_on_their_ports() {
    let (mut ctrl, _ram) = setup();
    assert!(ctrl.can_attach(Speed::High));
    assert_eq!(ctrl.set_device(Speed::High), 0);
    assert_eq!(r(&ctrl, PORTSC_USB2) & 0x3, 0x3);
    assert_eq!((r(&ctrl, PORTSC_USB2) >> 10) & 0xf, 3);
    assert_eq!(ctrl.set_device(Speed::Super), 1);
    assert_eq!((r(&ctrl, PORTSC_USB3) >> 10) & 0xf, 4);
    // Both ports are taken now.
    assert!(!ctrl.can_attach(Speed::Super));
    assert!(!ctrl.can_attach(Speed::Low));
    assert!(Speed::Full.is_usb2_speed());
    assert!(!Speed::SuperPlus.is_usb2_speed());
}

#[test]
fn register_writes_are_checked() {
    let (mut ctrl, mut ram) = setup();
    assert_eq!(
        ctrl.write_io(&mut ram, 0, Request::new(CONFIG, RequestSize::Size4), 3),
        Err(ControllerError::SlotCountMismatch(3))
    );
    assert_eq!(
        ctrl.write_io(&mut ram, 0, Request::new(ERSTBA, RequestSize::Size4), 0x21),
        Err(ControllerError::SegmentTableMisconfigured(0x21))
    );
    assert_eq!(
        ctrl.write_io(&mut ram, 0, Request::new(DOORBELL_CONTROLLER + 4, RequestSize::Size4), 0),
        Err(ControllerError::InvalidDoorbell(0))
    );
    assert_eq!(
        ctrl.write_io(&mut ram, 0, Request::new(DOORBELL_CONTROLLER + 4, RequestSize::Size4), 2),
        Err(ControllerError::NoDevice(1))
    );
}

#[test]
fn in_transfer_sizes() {
    assert_eq!(in_buffer_size(0, 512), 512);
    assert_eq!(in_buffer_size(1, 512), 512);
    assert_eq!(in_buffer_size(513, 512), 1024);
    assert_eq!(in_bytes_to_copy(100, 18), 18);
    assert_eq!(in_bytes_to_copy(8, 18), 8);
    assert_eq!(EndpointType::from_context_field(6), Some(EndpointType::BulkIn));
    assert_eq!(EndpointType::from_context_field(1), None);
}

#[test]
fn address_device_flow() {
    let (mut ctrl, mut ram) = setup();
    w(&mut ctrl, &mut ram, CONFIG, 8);
    // DCBAA at 0x3000; device context of slot 1 at 0x5000.
    w(&mut ctrl, &mut ram, usbvfiod::xhci::DCBAAP, 0x3000);
    ram.write_bulk(0x3000 + 8, &0x5000u64.to_le_bytes());
    // Input context at 0x4000: A0|A1, then slot and EP0 contexts.
    ram.write_bulk(0x4000, &0x3_0000_0000u64.to_le_bytes());
    let payload: Vec<u8> = (0..64).map(|i| i as u8 + 0x10).collect();
    ram.write_bulk(0x4000 + 32, &payload);
    // Enable Slot, then Address Device {ptr 0x4000, slot 1}.
    ram.write_bulk(0x2000, &[0, 0, 0, 0, 0, 0, 0, 0, 0, 0, 0, 0, 0x01, 9 << 2, 0, 0]);
    let mut addr_dev = [0u8; 16];
    addr_dev[0..8].copy_from_slice(&0x4000u64.to_le_bytes());
    addr_dev[12] = 1;
    addr_dev[13] = 11 << 2;
    addr_dev[15] = 1;
    ram.write_bulk(0x2010, &addr_dev);
    w(&mut ctrl, &mut ram, CRCR, 0x2000 | 1);

    let actions = w(&mut ctrl, &mut ram, DOORBELL_CONTROLLER, 0);
    assert_eq!(actions, vec![Action::Interrupt, Action::Interrupt]);

    let ctx = ram.read_bulk(0x5000, 64);
    assert_eq!(ctx[0], 0x10);
    assert_eq!(ctx[15] >> 3, 2, "slot state Addressed");
    assert_eq!(ctx[32], 1, "EP0 Running");
    assert_eq!(ctx[33], payload[33]);

    let event = ram.read_bulk(0x1010, 16);
    assert_eq!(&event[0..8], &0x2010u64.to_le_bytes());
    assert_eq!(event[11], 1);
    assert_eq!(event[15], 1);
}

#[test]
fn no_slots_left_is_reported() {
    let (mut ctrl, mut ram) = setup();
    // Nine Enable Slot commands for eight slots.
    for i in 0..9u64 {
        ram.write_bulk(0x2000 + 16 * i, &[0, 0, 0, 0, 0, 0, 0, 0, 0, 0, 0, 0, 0x01, 9 << 2, 0, 0]);
    }
    w(&mut ctrl, &mut ram, CRCR, 0x2000 | 1);
    w(&mut ctrl, &mut ram, DOORBELL_CONTROLLER, 0);
    let last = ram.read_bulk(0x1000 + 16 * 8, 16);
    assert_eq!(last[11], 9, "NoSlotsAvailableError");
    assert_eq!(last[15], 0);
    let eighth = ram.read_bulk(0x1000 + 16 * 7, 16);
    assert_eq!(eighth[15], 8);
}

#[test]
fn extended_capabilities_are_found_through_hccparams1() {
    let (ctrl, _ram) = setup();
    let xecp = (r(&ctrl, usbvfiod::xhci::HCCPARAMS1) >> 16) * 4;
    assert_eq!(xecp, 0x20);
    let cap = r(&ctrl, xecp);
    assert_eq!(cap & 0xff, 2, "supported protocol capability");
    assert_eq!(cap >> 24, 3, "USB 3");
    let next = xecp + ((cap >> 8) & 0xff) * 4;
    assert_eq!(r(&ctrl, next) >> 24, 2, "USB 2");
}
