use usbvfiod::bus::{Request, RequestSize};
use usbvfiod::device_slots::EndpointContext;
use usbvfiod::interrupt_line::{DummyInterruptLine, InterruptLine};
use usbvfiod::memory::{access_rights, AccessRights, BusDevice, GuestRam};
use usbvfiod::realdevice::{extract_recipient_and_type, ControlType, Recipient};
use usbvfiod::msi::MsiMessage;
use usbvfiod::msi_receiver::{DummyMsiReceiver, MsiReceiver};
use usbvfiod::rings::{EventRing, TransferRing};
use usbvfiod::usb_pcap::{
    build_setup_bytes, control_completion_header, control_submission_header, global_header,
    record_bytes, Timestamp, UsbDirection, UsbEventType, UsbTransferType,
};
use usbvfiod::usbrequest::UsbRequest;
use usbvfiod::worker::{control_out_data, endpoint_route, finish_control_in, Completion, EndpointWorker, WorkerError};

fn normal_trb(data_ptr: u64, len: u32, ioc: bool, cycle: bool) -> [u8; 16] {
    let mut t = [0u8; 16];
    t[0..8].copy_from_slice(&data_ptr.to_le_bytes());
    t[8..12].copy_from_slice(&len.to_le_bytes());
    t[12] = (if ioc { 0x20 } else { 0 }) | u8::from(cycle);
    t[13] = 1 << 2;
    t
}

#[test]
fn worker_moves_in_data_and_reports_completion() {
    let mut ram = GuestRam::new(0x4000);
    // Event ring: one segment of 4 TRBs at 0x1000, table at 0.
    ram.write_bulk(0, &0x1000u64.to_le_bytes());
    ram.write_bulk(8, &4u32.to_le_bytes());
    let mut events = EventRing::new();
    events.set_erst_size(1);
    events.configure(&ram, 0);
    events.update_dequeue_pointer(0x1000);

    // Endpoint context at 0x3000, transfer ring at 0x2000.
    ram.write_bulk(0x3000 + 8, &(0x2000u64 | 1).to_le_bytes());
    ram.write_bulk(0x2000, &normal_trb(0x2800, 4, true, true));
    let worker = EndpointWorker::new(1, 3, TransferRing::new(EndpointContext::new(0x3000)));

    let work = worker.next_work(&mut ram).unwrap().unwrap();
    assert_eq!(work.address, 0x2000);
    assert_eq!(work.data.transfer_length, 4);
    assert_eq!(worker.in_buffer_size(&work, 64), 64);

    // The device sent more than asked for: only four bytes arrive.
    worker.finish_in(&mut ram, &work, &[1, 2, 3, 4, 5, 6]);
    assert_eq!(ram.read_bulk(0x2800, 6), vec![1, 2, 3, 4, 0, 0]);

    assert_eq!(worker.complete(&mut ram, &mut events, &work), Completion::Posted);
    let ev = ram.read_bulk(0x1000, 16);
    assert_eq!(&ev[0..8], &0x2000u64.to_le_bytes());
    assert_eq!(ev[11], 1);
    assert_eq!(ev[13] >> 2, 32);
    assert_eq!(ev[14], 3);
    assert_eq!(ev[15], 1);

    // Nothing more on the ring.
    assert_eq!(worker.next_work(&mut ram), Ok(None));
}

#[test]
fn worker_out_data_and_silent_completion() {
    let mut ram = GuestRam::new(0x4000);
    ram.write_bulk(0x3000 + 8, &(0x2000u64 | 1).to_le_bytes());
    ram.write_bulk(0x2000, &normal_trb(0x2800, 3, false, true));
    ram.write_bulk(0x2800, &[9, 8, 7, 6]);
    let worker = EndpointWorker::new(2, 4, TransferRing::new(EndpointContext::new(0x3000)));
    let work = worker.next_work(&mut ram).unwrap().unwrap();
    assert_eq!(worker.out_data(&ram, &work), vec![9, 8, 7]);
    let mut events = EventRing::new();
    assert_eq!(worker.complete(&mut ram, &mut events, &work), Completion::Silent);

    // A status stage on a bulk ring is an error.
    ram.write_bulk(0x2010, &[0, 0, 0, 0, 0, 0, 0, 0, 0, 0, 0, 0, 1, 4 << 2, 0, 0]);
    assert!(matches!(worker.next_work(&mut ram), Err(WorkerError::UnexpectedTrb(_))));
}

#[test]
fn pcap_global_header_layout() {
    let h = global_header();
    assert_eq!(h.len(), 24);
    assert_eq!(&h[0..4], &0xa1b2c3d4u32.to_le_bytes());
    assert_eq!(&h[4..8], &[2, 0, 4, 0]);
    assert_eq!(&h[16..20], &65535u32.to_le_bytes());
    assert_eq!(&h[20..24], &189u32.to_le_bytes());
}

#[test]
fn pcap_control_records() {
    let req = UsbRequest {
        address: 0x1234,
        request_type: 0x80,
        request: 6,
        value: 0x0100,
        index: 0,
        length: 18,
        data: Some(0x2000),
    };
    assert_eq!(build_setup_bytes(&req), [0x80, 6, 0x00, 0x01, 0, 0, 18, 0]);
    let sub = control_submission_header(1, 1, &req, UsbDirection::DeviceToHost, 0);
    let t = Timestamp { seconds: 7, microseconds: 9 };
    let bytes = sub.header_bytes(t);
    assert_eq!(bytes.len(), 48);
    assert_eq!(&bytes[0..8], &0x1234u64.to_le_bytes());
    assert_eq!(bytes[8], b'S');
    assert_eq!(bytes[9], 2);
    assert_eq!(bytes[10], 0x80);
    assert_eq!(bytes[11], 1);
    assert_eq!(bytes[14], 1);
    assert_eq!(bytes[15], 0);
    assert_eq!(&bytes[16..24], &7u64.to_le_bytes());
    assert_eq!(&bytes[32..36], &18u32.to_le_bytes());
    assert_eq!(&bytes[40..48], &[0x80, 6, 0x00, 0x01, 0, 0, 18, 0]);

    let done = control_completion_header(0x1234, 1, 1, UsbDirection::DeviceToHost, -2, 18, 2);
    let rec = record_bytes(t, &done, &[0xaa, 0xbb]);
    assert_eq!(rec.len(), 16 + 48 + 2);
    assert_eq!(&rec[8..12], &50u32.to_le_bytes());
    assert_eq!(rec[16 + 8], b'C');
    assert_eq!(rec[16 + 15], 1);
    assert_eq!(&rec[16 + 28..16 + 32], &(-2i32).to_le_bytes());
    assert_eq!(&rec[64..66], &[0xaa, 0xbb]);

    assert_eq!(UsbEventType::Completion.code(), b'C');
    assert_eq!(UsbTransferType::Interrupt.code(), 1);
    assert_eq!(UsbDirection::HostToDevice.endpoint_address(0x81), 0x01);
}

#[test]
fn dummy_receivers_accept_everything() {
    DummyInterruptLine::default().interrupt();
    DummyMsiReceiver::new().send_msi(MsiMessage::new(0xfee0_0000, 0x41));
    let ram = GuestRam::from_bytes(&[1, 2, 3]);
    assert_eq!(ram.size(), 3);
    assert_eq!(ram.read(Request::new(1, RequestSize::Size2)), 0x0302);
    assert_eq!(ram.read(Request::new(2, RequestSize::Size2)), 0xFF03);
}

#[test]
fn request_type_splits_into_recipient_and_type() {
    assert_eq!(extract_recipient_and_type(0x80), Some((Recipient::Device, ControlType::Standard)));
    assert_eq!(extract_recipient_and_type(0x21), Some((Recipient::Interface, ControlType::Class)));
    assert_eq!(extract_recipient_and_type(0x42), Some((Recipient::Endpoint, ControlType::Vendor)));
    assert_eq!(extract_recipient_and_type(0x03), None);
    assert_eq!(extract_recipient_and_type(0x60), None);
}

#[test]
fn dma_flags_give_access_rights() {
    assert_eq!(access_rights(1), Some(AccessRights::ReadOnly));
    assert_eq!(access_rights(3), Some(AccessRights::ReadWrite));
    assert_eq!(access_rights(2), None);
    assert_eq!(access_rights(0x101), Some(AccessRights::ReadOnly));
}

#[test]
fn control_data_moves_through_the_request_buffer() {
    let mut ram = GuestRam::new(0x100);
    ram.write_bulk(0x40, &[1, 2, 3, 4]);
    let mut req = UsbRequest { address: 0, request_type: 0, request: 9, value: 0, index: 0, length: 3, data: Some(0x40) };
    assert_eq!(control_out_data(&ram, &req), vec![1, 2, 3]);
    req.data = Some(0x80);
    finish_control_in(&mut ram, &req, &[7, 8, 9, 10]);
    assert_eq!(ram.read_bulk(0x80, 4), vec![7, 8, 9, 0]);
    req.data = None;
    assert_eq!(control_out_data(&ram, &req), Vec::<u8>::new());
    assert_eq!(endpoint_route(4), (2, true, 2));
    assert_eq!(endpoint_route(3), (1, false, 0x81));
}
