use usbvfiod::bus::{Request, RequestSize};
use usbvfiod::device_slots::{DeviceContext, DeviceSlotManager, EndpointContext};
use usbvfiod::memory::{BusDevice, GuestRam};
use usbvfiod::rings::{CommandRing, EventRing, EventRingError, RequestParseError, TransferRing};
use usbvfiod::trb::{CommandTrb, CommandTrbVariant, CompletionCode, EventTrb, TransferTrbVariant};
use usbvfiod::usbrequest::UsbRequest;
use usbvfiod::realdevice::EndpointType;

const TRB_SIZE: usize = 16;

fn erste() -> [u8; 48] {
    [
        0x30, 0x00, 0x00, 0x00, 0x00, 0x00, 0x00, 0x00, 0x03, 0x00, 0x00, 0x00, 0x00, 0x00, 0x00,
        0x00, 0x60, 0x00, 0x00, 0x00, 0x00, 0x00, 0x00, 0x00, 0x01, 0x00, 0x00, 0x00, 0x00, 0x00,
        0x00, 0x00, 0x70, 0x00, 0x00, 0x00, 0x00, 0x00, 0x00, 0x00, 0x02, 0x00, 0x00, 0x00, 0x00,
        0x00, 0x00, 0x00,
    ]
}

fn init_ram_and_ring() -> (GuestRam, EventRing) {
    let mut ram = GuestRam::new(0x90);
    ram.write_bulk(0x0, &erste());
    let mut ring = EventRing::new();
    ring.set_erst_size(3);
    ring.configure(&ram, 0x0);
    let dp = ram.read(Request::new(ring.read_base_address(), RequestSize::Size8));
    ring.update_dequeue_pointer(dp);
    (ram, ring)
}

fn dummy_trb() -> EventTrb {
    EventTrb::new_transfer_event_trb(0, 0, CompletionCode::Success, false, 1, 1)
}

fn assert_trb_written(ram: &GuestRam, addr: u64, cycle_state: bool) {
    let buf = ram.read_bulk(addr, 16);
    let cycle_bit = buf[12] & 0x1 != 0;
    assert_eq!(cycle_bit, cycle_state, "TRB not written at address {:#x}", addr);
}

#[test]
fn event_ring_start_empty_enqueue_fill_then_wraparound_after_dequeue_pointer_move() {
    let (mut ram, mut ring) = init_ram_and_ring();

    ring.enqueue(&mut ram, &dummy_trb()).unwrap();
    ring.enqueue(&mut ram, &dummy_trb()).unwrap();
    ring.enqueue(&mut ram, &dummy_trb()).unwrap();

    assert_trb_written(&ram, 0x30, true);
    assert_trb_written(&ram, 0x30 + 16, true);
    assert_trb_written(&ram, 0x30 + 32, true);

    ring.update_dequeue_pointer(0x30 + 32);
    ring.enqueue(&mut ram, &dummy_trb()).unwrap();
    assert_trb_written(&ram, 0x60, true);

    ring.update_dequeue_pointer(0x60);
    ring.enqueue(&mut ram, &dummy_trb()).unwrap();
    assert_trb_written(&ram, 0x70, true);

    ring.enqueue(&mut ram, &dummy_trb()).unwrap();
    assert_trb_written(&ram, 0x70 + 16, true);

    ring.enqueue(&mut ram, &dummy_trb()).unwrap();
    assert_trb_written(&ram, 0x30, false);
}

#[test]
fn event_ring_reports_full_on_wraparound_mid_segment() {
    let (mut ram, mut ring) = init_ram_and_ring();

    ring.enqueue(&mut ram, &dummy_trb()).unwrap();
    ring.enqueue(&mut ram, &dummy_trb()).unwrap();
    ring.enqueue(&mut ram, &dummy_trb()).unwrap();
    ring.update_dequeue_pointer(0x30 + 16);
    ring.enqueue(&mut ram, &dummy_trb()).unwrap();
    ring.enqueue(&mut ram, &dummy_trb()).unwrap();
    ring.enqueue(&mut ram, &dummy_trb()).unwrap();

    // The slot after the wraparound is the dequeue pointer's.
    assert_eq!(ring.enqueue(&mut ram, &dummy_trb()), Err(EventRingError::Full));
    assert_eq!(ring.enqueue_pointer(), 0x30);
}

#[test]
fn event_ring_multiple_wraparound() {
    let (mut ram, mut ring) = init_ram_and_ring();

    ring.enqueue(&mut ram, &dummy_trb()).unwrap();
    ring.enqueue(&mut ram, &dummy_trb()).unwrap();
    ring.enqueue(&mut ram, &dummy_trb()).unwrap();
    ring.enqueue(&mut ram, &dummy_trb()).unwrap();
    ring.enqueue(&mut ram, &dummy_trb()).unwrap();
    ring.update_dequeue_pointer(0x30 + 16);
    ring.enqueue(&mut ram, &dummy_trb()).unwrap();

    assert_trb_written(&ram, 0x80, true);

    ring.update_dequeue_pointer(0x30 + 16 * 5);
    ring.enqueue(&mut ram, &dummy_trb()).unwrap();
    ring.enqueue(&mut ram, &dummy_trb()).unwrap();
    ring.enqueue(&mut ram, &dummy_trb()).unwrap();
    ring.enqueue(&mut ram, &dummy_trb()).unwrap();
    ring.update_dequeue_pointer(0x30 + 32);

    ring.enqueue(&mut ram, &dummy_trb()).unwrap();
    assert_trb_written(&ram, 0x70, false);
    ring.enqueue(&mut ram, &dummy_trb()).unwrap();
    assert_trb_written(&ram, 0x80, false);

    ring.enqueue(&mut ram, &dummy_trb()).unwrap();
    assert_trb_written(&ram, 0x30, true);
}

#[test]
fn event_ring_dynamic_grow_from_1_to_3() {
    let mut ram = GuestRam::new(0x90);
    ram.write_bulk(0x0, &erste());
    let mut ring = EventRing::new();
    ring.set_erst_size(1);
    ring.configure(&ram, 0x0);
    let dp = ram.read(Request::new(ring.read_base_address(), RequestSize::Size8));
    ring.update_dequeue_pointer(dp);

    ring.enqueue(&mut ram, &dummy_trb()).unwrap();
    ring.enqueue(&mut ram, &dummy_trb()).unwrap();

    ring.update_dequeue_pointer(0x30 + 16);
    ring.set_erst_size(3);

    ring.enqueue(&mut ram, &dummy_trb()).unwrap();
    assert_trb_written(&ram, 0x30 + 32, true);

    ring.enqueue(&mut ram, &dummy_trb()).unwrap();
    assert_trb_written(&ram, 0x60, true);

    ring.enqueue(&mut ram, &dummy_trb()).unwrap();
    ring.enqueue(&mut ram, &dummy_trb()).unwrap();
    assert_trb_written(&ram, 0x70, true);
    assert_trb_written(&ram, 0x70 + 16, true);

    ring.update_dequeue_pointer(0x30 + 32);
    ring.enqueue(&mut ram, &dummy_trb()).unwrap();
    assert_trb_written(&ram, 0x30, false);
}

#[test]
fn event_ring_dynamic_shrink_to_1() {
    let (mut ram, mut ring) = init_ram_and_ring();

    ring.enqueue(&mut ram, &dummy_trb()).unwrap();
    ring.enqueue(&mut ram, &dummy_trb()).unwrap();

    ring.update_dequeue_pointer(0x30 + 16);
    ring.set_erst_size(1);

    ring.enqueue(&mut ram, &dummy_trb()).unwrap();
    assert_trb_written(&ram, 0x50, true);

    ring.update_dequeue_pointer(0x30 + 32);
    ring.enqueue(&mut ram, &dummy_trb()).unwrap();
    assert_trb_written(&ram, 0x30, false);
}

#[test]
fn event_ring_dynamic_overwrite() {
    let (mut ram, mut ring) = init_ram_and_ring();

    ring.enqueue(&mut ram, &dummy_trb()).unwrap();
    ring.enqueue(&mut ram, &dummy_trb()).unwrap();

    let erste_new = [
        0x30, 0x00, 0x00, 0x00, 0x00, 0x00, 0x00, 0x00, 0x03, 0x00, 0x00, 0x00, 0x00, 0x00, 0x00,
        0x00, 0x60, 0x00, 0x00, 0x00, 0x00, 0x00, 0x00, 0x00, 0x02, 0x00, 0x00, 0x00, 0x00, 0x00,
        0x00, 0x00,
    ];
    ram.write_bulk(0x0, &erste_new);
    ring.set_erst_size(2);

    ring.enqueue(&mut ram, &dummy_trb()).unwrap();
    ring.update_dequeue_pointer(0x30 + 32);

    ring.enqueue(&mut ram, &dummy_trb()).unwrap();
    ring.enqueue(&mut ram, &dummy_trb()).unwrap();
    assert_trb_written(&ram, 0x60 + 16, true);

    ring.enqueue(&mut ram, &dummy_trb()).unwrap();
    assert_trb_written(&ram, 0x30, false);
}

#[test]
fn event_ring_not_configured_writes_nothing() {
    let mut ram = GuestRam::new(0x40);
    let mut ring = EventRing::new();
    assert_eq!(ring.enqueue(&mut ram, &dummy_trb()), Err(EventRingError::NotConfigured));
    assert_eq!(ram.read_bulk(0, 16), vec![0u8; 16]);
}

#[test]
fn event_ring_multi_segment_wrap_scenario() {
    let (mut ram, mut ring) = init_ram_and_ring();
    // Keep the dequeue pointer out of the way.
    ring.update_dequeue_pointer(0x1000);
    for _ in 0..6 {
        ring.enqueue(&mut ram, &dummy_trb()).unwrap();
    }
    assert_eq!(ring.enqueue_pointer(), 0x30);
    assert!(!ring.cycle_state());
    ring.enqueue(&mut ram, &dummy_trb()).unwrap();
    assert_trb_written(&ram, 0x30, false);
}

#[test]
fn command_ring_single_segment_traversal() {
    let noop_command = [
        0x0, 0x0, 0x0, 0x0, 0x0, 0x0, 0x0, 0x0, 0x0, 0x0, 0x0, 0x0, 0x0, 0x5c, 0x0, 0x0,
    ];
    let link = [
        0x0, 0x0, 0x0, 0x0, 0x0, 0x0, 0x0, 0x0, 0x0, 0x0, 0x0, 0x0, 0x2, 0x18, 0x0, 0x0,
    ];

    let mut ram = GuestRam::new(16 * 4);
    let mut command_ring = CommandRing::new();
    command_ring.control(0x1);

    let trb = command_ring.next_command_trb(&ram);
    assert!(trb.is_none(), "expected no command, got {:?}", trb);

    ram.write_bulk(0, &noop_command);
    ram.write_bulk(12, &[0x1]);

    let expected = Some(CommandTrb { address: 0, variant: CommandTrbVariant::NoOp });
    assert_eq!(command_ring.next_command_trb(&ram), expected);

    let trb = command_ring.next_command_trb(&ram);
    assert!(trb.is_none(), "expected no command, got {:?}", trb);

    ram.write_bulk(16, &noop_command);
    ram.write_bulk(16 + 12, &[0x1]);
    ram.write_bulk(32, &noop_command);
    ram.write_bulk(32 + 12, &[0x1]);

    let expected = Some(CommandTrb { address: 16, variant: CommandTrbVariant::NoOp });
    assert_eq!(command_ring.next_command_trb(&ram), expected);

    let expected = Some(CommandTrb { address: 32, variant: CommandTrbVariant::NoOp });
    assert_eq!(command_ring.next_command_trb(&ram), expected);

    let trb = command_ring.next_command_trb(&ram);
    assert!(trb.is_none(), "expected no command, got {:?}", trb);

    ram.write_bulk(48, &link);
    ram.write_bulk(48 + 12, &[0x1 | link[12]]);

    let trb = command_ring.next_command_trb(&ram);
    assert!(trb.is_none(), "expected no command, got {:?}", trb);

    ram.write_bulk(12, &[0x0]);

    let expected = Some(CommandTrb { address: 0, variant: CommandTrbVariant::NoOp });
    assert_eq!(command_ring.next_command_trb(&ram), expected);
}

#[test]
fn command_ring_control_sets_cycle_state() {
    let mut ring = CommandRing::new();
    ring.control(0x1234_5681);
    assert_eq!(ring.dequeue_pointer, 0x1234_5680);
    assert!(ring.cycle_state);
    ring.control(0x1234_5680);
    assert!(!ring.cycle_state);
    assert_eq!(ring.status(), 0);
}

#[test]
fn command_ring_link_chase_toggles_cycle() {
    // Link at 0x00 to 0x40 with toggle; NoOp at 0x40 with cycle 0.
    let mut ram = GuestRam::new(0x80);
    ram.write_bulk(0, &[0x40, 0, 0, 0, 0, 0, 0, 0, 0, 0, 0, 0, 0x3, 0x18, 0, 0]);
    ram.write_bulk(0x40, &[0, 0, 0, 0, 0, 0, 0, 0, 0, 0, 0, 0, 0x0, 0x5c, 0, 0]);
    let mut ring = CommandRing::new();
    ring.control(0x1);
    let expected = Some(CommandTrb { address: 0x40, variant: CommandTrbVariant::NoOp });
    assert_eq!(ring.next_command_trb(&ram), expected);
    assert_eq!(ring.dequeue_pointer, 0x50);
    assert!(!ring.cycle_state);
}

#[test]
fn transfer_ring_retrieve_control_requests() {
    let setup = [
        0x11, 0x22, 0x44, 0x33, 0x66, 0x55, 0x88, 0x77, 0x00, 0x00, 0x00, 0x00, 0x00, 0x08, 0x00,
        0x00,
    ];
    let data = [
        0x88, 0x77, 0x66, 0x55, 0x44, 0x33, 0x22, 0x11, 0x00, 0x00, 0x00, 0x00, 0x00, 0x0c, 0x00,
        0x00,
    ];
    let status = [
        0x0, 0x0, 0x0, 0x0, 0x0, 0x0, 0x0, 0x0, 0x0, 0x0, 0x0, 0x0, 0x0, 0x10, 0x0, 0x0,
    ];
    let link = [
        0x0, 0x0, 0x0, 0x0, 0x0, 0x0, 0x0, 0x0, 0x0, 0x0, 0x0, 0x0, 0x2, 0x18, 0x0, 0x0,
    ];

    let mut ram = GuestRam::new(TRB_SIZE * 5 + 32);
    let offset_ep_context = TRB_SIZE as u64 * 5;
    ram.write_bulk(offset_ep_context + 8, &[0x1]);
    let ep = EndpointContext::new(offset_ep_context);
    let transfer_ring = TransferRing::new(ep);

    let request = transfer_ring.next_request(&mut ram);
    assert!(request.is_none(), "expected no request, got {:?}", request);

    ram.write_bulk(0, &setup);
    ram.write_bulk(12, &[0x1]);
    ram.write_bulk(TRB_SIZE as u64, &data);
    ram.write_bulk(TRB_SIZE as u64 + 12, &[0x1]);
    ram.write_bulk(TRB_SIZE as u64 * 2, &status);
    ram.write_bulk(TRB_SIZE as u64 * 2 + 12, &[0x1]);

    let expected = Some(Ok(UsbRequest {
        address: TRB_SIZE as u64 * 2,
        request_type: 0x11,
        request: 0x22,
        value: 0x3344,
        index: 0x5566,
        length: 0x7788,
        data: Some(0x1122334455667788),
    }));
    assert_eq!(transfer_ring.next_request(&mut ram), expected);

    let request = transfer_ring.next_request(&mut ram);
    assert!(request.is_none(), "expected no request, got {:?}", request);

    ram.write_bulk(TRB_SIZE as u64 * 3, &setup);
    ram.write_bulk(TRB_SIZE as u64 * 3 + 12, &[0x1]);
    ram.write_bulk(TRB_SIZE as u64 * 4, &link);
    ram.write_bulk(TRB_SIZE as u64 * 4 + 12, &[0x1]);
    ram.write_bulk(TRB_SIZE as u64 * 4 + 12, &[0x1 | link[12]]);
    ram.write_bulk(0, &status);
    ram.write_bulk(0, &[0x0]);

    let expected = Some(Ok(UsbRequest {
        address: 0,
        request_type: 0x11,
        request: 0x22,
        value: 0x3344,
        index: 0x5566,
        length: 0x7788,
        data: None,
    }));
    assert_eq!(transfer_ring.next_request(&mut ram), expected);

    let request = transfer_ring.next_request(&mut ram);
    assert!(request.is_none(), "expected no request, got {:?}", request);
}

#[test]
fn control_transfer_assembly_scenario() {
    // Setup (GET_DESCRIPTOR device, 18 bytes) at A, Data at A+16, Status at A+32.
    let a: u64 = 0x100;
    let mut ram = GuestRam::new(0x400);
    let ctx: u64 = 0x300;
    ram.write_bulk(ctx + 8, &(a | 1).to_le_bytes());
    ram.write_bulk(a, &[0x80, 0x06, 0x00, 0x01, 0x00, 0x00, 18, 0, 0, 0, 0, 0, 0x01, 0x08, 0, 0]);
    ram.write_bulk(a + 16, &[0x00, 0x20, 0, 0, 0, 0, 0, 0, 0, 0, 0, 0, 0x01, 0x0c, 0, 0]);
    ram.write_bulk(a + 32, &[0, 0, 0, 0, 0, 0, 0, 0, 0, 0, 0, 0, 0x01, 0x10, 0, 0]);
    let ring = TransferRing::new(EndpointContext::new(ctx));
    let expected = Some(Ok(UsbRequest {
        address: a + 32,
        request_type: 0x80,
        request: 0x06,
        value: 0x0100,
        index: 0,
        length: 18,
        data: Some(0x2000),
    }));
    assert_eq!(ring.next_request(&mut ram), expected);
    assert_eq!(EndpointContext::new(ctx).get_dequeue_pointer_and_cycle_state(&ram), (a + 48, true));
}

#[test]
fn transfer_ring_rejects_request_without_setup_stage() {
    let mut ram = GuestRam::new(0x100);
    ram.write_bulk(0x80 + 8, &[0x1]);
    ram.write_bulk(0, &[0, 0, 0, 0, 0, 0, 0, 0, 0, 0, 0, 0, 0x01, 0x10, 0, 0]);
    let ring = TransferRing::new(EndpointContext::new(0x80));
    assert_eq!(
        ring.next_request(&mut ram),
        Some(Err(RequestParseError::UnexpectedTrbType(vec![2], TransferTrbVariant::StatusStage)))
    );
    // A setup stage with nothing after it.
    ram.write_bulk(16, &[0x80, 0x06, 0, 1, 0, 0, 18, 0, 0, 0, 0, 0, 0x01, 0x08, 0, 0]);
    assert_eq!(ring.next_request(&mut ram), Some(Err(RequestParseError::MissingTrb)));
}

#[test]
fn device_slot_reservation() {
    let mut device_slot_manager = DeviceSlotManager::new(1);

    assert_eq!(device_slot_manager.reserve_slot(), Some(1));

    assert_eq!(device_slot_manager.reserve_slot(), None);
}

#[test]
fn device_slots_are_handed_out_lowest_first_and_resolved_through_dcbaa() {
    let mut slots = DeviceSlotManager::new(8);
    assert_eq!(slots.reserve_slot(), Some(1));
    assert_eq!(slots.reserve_slot(), Some(2));
    slots.set_dcbaap(0x1000);
    assert_eq!(slots.get_dcbaap(), 0x1000);
    let mut ram = GuestRam::new(0x2000);
    ram.write_bulk(0x1000 + 8, &0x1800u64.to_le_bytes());
    let mem = ram;
    assert_eq!(slots.get_device_context(&mem, 1), DeviceContext::new(0x1800));
    assert!(slots.is_used(2));
    assert!(!slots.is_used(3));
}

#[test]
fn address_device_scenario() {
    let mut ram = GuestRam::new(0x50000);
    let input: u64 = 0x40000;
    let device_context: u64 = 0x10000;
    ram.write_bulk(input, &0x3_0000_0000u64.to_le_bytes());
    let mut payload = vec![0u8; 64];
    for (i, b) in payload.iter_mut().enumerate() {
        *b = i as u8 + 1;
    }
    ram.write_bulk(input + 32, &payload);
    let ctx = DeviceContext::new(device_context);
    ctx.initialize(&mut ram, input);
    let out = ram.read_bulk(device_context, 64);
    assert_eq!(out[15] >> 3, 2);
    assert_eq!(out[32], 1);
    assert_eq!(out[0], 1);
    assert_eq!(out[33], 34);

}

#[test]
fn configure_endpoints_reports_types() {
    let mut ram = GuestRam::new(0x4000);
    let input: u64 = 0x1000;
    let ctx_addr: u64 = 0x2000;
    // Drop EP index 4, add slot (A0), EP index 2 (bulk out), EP index 3 (bulk in).
    ram.write_bulk(input, &(1u32 << 4).to_le_bytes());
    ram.write_bulk(input + 4, &0b1101u32.to_le_bytes());
    ram.write_bulk(input + 32 + 2 * 32 + 4, &[2 << 3]);
    ram.write_bulk(input + 32 + 3 * 32 + 4, &[6 << 3]);
    ram.write_bulk(ctx_addr + 4 * 32, &[1]);
    let ctx = DeviceContext::new(ctx_addr);
    let eps = ctx.configure_endpoints(&mut ram, input);
    assert_eq!(eps, vec![(2, Some(EndpointType::BulkOut)), (3, Some(EndpointType::BulkIn))]);
    assert_eq!(ram.read_bulk(ctx_addr + 4 * 32, 1), vec![0]);
    assert_eq!(ram.read_bulk(ctx_addr + 2 * 32, 1), vec![1]);
    assert_eq!(ram.read_bulk(ctx_addr + 15, 1)[0] >> 3, 3);
    let ring = ctx.get_transfer_ring(&mut ram, 3);
    assert_eq!(ring.endpoint_context.address, ctx_addr + 3 * 32);
}
