use core::ops::Range;

use usbvfiod::bus::{AddBusDeviceError, Bus, DefaultDevice, Request, RequestSize};
use usbvfiod::interval::Interval;
use usbvfiod::memory::{compare_exchange_request, BusDevice, GuestRam};

type Ivl = Range<u64>;

#[test]
fn default_device_responds_with_pci_semantics() {
    let def = DefaultDevice::new("test");

    assert_eq!(def.read(Request::new(0, RequestSize::Size1)), 0xFF);
    assert_eq!(def.read(Request::new(0, RequestSize::Size2)), 0xFFFF);
    assert_eq!(def.read(Request::new(0, RequestSize::Size4)), 0xFFFF_FFFF);
    assert_eq!(
        def.read(Request::new(0, RequestSize::Size8)),
        0xFFFF_FFFF_FFFF_FFFF
    );
}

#[test]
fn unmatched_requests_are_handled_by_default() {
    let bus: Bus<GuestRam> = Bus::new("<unnamed>", u64::MAX);

    assert_eq!(bus.read(Request::new(17, RequestSize::Size1)), 0xFF);
}

/// A device that returns a constant value for all read requests
/// and expects all writes to have that value as well.
#[derive(Debug, Clone, Copy, PartialEq, Eq)]
struct ConstDevice {
    value: u64,
    size: u64,
}

impl BusDevice for ConstDevice {
    fn size(&self) -> u64 {
        self.size
    }

    fn read(&self, _: Request) -> u64 {
        self.value
    }

    fn write(&mut self, _: Request, value: u64) {
        assert_eq!(value, self.value)
    }

    fn read_bulk(&self, _offset: u64, len: usize) -> Vec<u8> {
        vec![self.value as u8; len]
    }

    fn write_bulk(&mut self, _offset: u64, _data: &[u8]) {}
}

#[test]
fn bus_multiplexes_to_correct_device() {
    let mut bus: Bus<ConstDevice, ConstDevice> = Bus::new_with_default(
        "test",
        ConstDevice {
            value: 3,
            size: u64::MAX,
        },
    );

    bus.add(10, ConstDevice { value: 1, size: 10 }).unwrap();
    bus.add(20, ConstDevice { value: 2, size: 10 }).unwrap();

    assert_eq!(bus.read(Request::new(15, RequestSize::Size1)), 1);
    assert_eq!(bus.read(Request::new(25, RequestSize::Size1)), 2);

    // Split requests are handled with error semantics.
    assert_eq!(bus.read(Request::new(19, RequestSize::Size2)), 0xFFFF);
    assert_eq!(bus.read(Request::new(29, RequestSize::Size2)), 0xFFFF);

    // Unmatched requests are forwarded.
    assert_eq!(bus.read(Request::new(5, RequestSize::Size1)), 3);
    assert_eq!(bus.read(Request::new(35, RequestSize::Size1)), 3);
}

#[test]
fn unmatched_bulk_writes_reach_the_default_device() {
    let mut bus: Bus<GuestRam, GuestRam> = Bus::new_with_default("test", GuestRam::new(16));
    bus.add(4, GuestRam::new(4)).unwrap();
    bus.write_bulk(2, &[1, 2, 3, 4, 5, 6, 7, 8]);
    assert_eq!(bus.read_bulk(0, 12), vec![0, 0, 1, 2, 3, 4, 5, 6, 7, 8, 0, 0]);
    bus.write(Request::new(12, RequestSize::Size2), 0x0a09);
    assert_eq!(bus.read(Request::new(12, RequestSize::Size2)), 0x0a09);
    assert_eq!(bus.size(), 16);
}

#[test]
fn bulk_reads_are_like_multiple_byte_reads() {
    let mut bus: Bus<GuestRam> = Bus::new("<unnamed>", u64::MAX);
    bus.add(10, GuestRam::from_bytes(&[1; 10])).unwrap();
    bus.add(20, GuestRam::from_bytes(&[2; 10])).unwrap();

    let data = bus.read_bulk(19, 2);

    assert_eq!(
        data,
        vec![
            bus.read(Request::new(19, RequestSize::Size1)) as u8,
            bus.read(Request::new(20, RequestSize::Size1)) as u8
        ]
    );
}

#[test]
fn bulk_reads_are_bulk_reads_on_devices() {
    let mut bus: Bus<GuestRam> = Bus::new("<unnamed>", u64::MAX);
    bus.add(3, GuestRam::from_bytes(&[3, 4, 5])).unwrap();
    bus.add(7, GuestRam::from_bytes(&[7, 8])).unwrap();

    assert_eq!(bus.read_bulk(4, 2), vec![4, 5]);
    assert_eq!(bus.read_bulk(2, 8), vec![0xff, 3, 4, 5, 0xff, 7, 8, 0xff]);
    assert_eq!(bus.read_bulk(1234, 2), vec![0xff, 0xff]);
}

#[test]
fn bulk_writes_are_bulk_writes_on_devices() {
    let mut bus: Bus<GuestRam> = Bus::new("<unnamed>", u64::MAX);
    bus.add(3, GuestRam::from_bytes(&[3, 4, 5])).unwrap();
    bus.add(7, GuestRam::from_bytes(&[7, 8])).unwrap();

    bus.write_bulk(4, &[24, 25]);
    assert_eq!(bus.read_bulk(3, 3), vec![3, 24, 25]);
    assert_eq!(bus.read_bulk(7, 2), vec![7, 8]);

    bus.write_bulk(2, &[12, 13, 14, 15, 16, 17, 18, 19, 20]);
    assert_eq!(bus.read_bulk(3, 3), vec![13, 14, 15]);
    assert_eq!(bus.read_bulk(7, 2), vec![17, 18]);
}

#[test]
fn devices_receive_relative_addresses() {
    let mut bus: Bus<GuestRam> = Bus::new("<unnamed>", u64::MAX);
    let mut ram = GuestRam::new(10);
    ram.write_bulk(5, &[0x42]);
    bus.add(10, ram).unwrap();
    let req = Request::new(15, RequestSize::Size1);

    assert_eq!(bus.read(req), 0x42);
    bus.write(req, 0);
    assert_eq!(bus.read(req), 0);
}

#[test]
fn overlapping_devices_are_rejected() {
    let mut device_bus: Bus<GuestRam> = Bus::new("<unnamed>", u64::MAX);
    device_bus.add(10, GuestRam::new(10)).unwrap();

    assert_eq!(
        device_bus.add(12, GuestRam::new(2)),
        Err(AddBusDeviceError::OverlapsExistingDevice {
            existing_range: 10..20,
            added_range: 12..14,
        })
    );
}

#[test]
fn devices_cannot_be_attached_out_of_range() {
    let mut device_bus: Bus<GuestRam> = Bus::new("test", 32);

    assert_eq!(
        device_bus.add(30, GuestRam::new(10)),
        Err(AddBusDeviceError::DeviceOutOfRange {
            bus_size: 32,
            added_range: 30..40,
        })
    );
}

#[test]
#[allow(clippy::reversed_empty_ranges)]
fn devices_overflowing_the_u64_range_are_rejected() {
    let mut device_bus: Bus<GuestRam> = Bus::new("<unnamed>", u64::MAX);

    assert_eq!(
        device_bus.add(u64::MAX, GuestRam::new(10)),
        Err(AddBusDeviceError::DeviceOutOfRange {
            bus_size: u64::MAX,
            added_range: u64::MAX..9,
        })
    );
}

#[test]
fn compare_exchange_returns_ok_current_on_correct_value_and_updates() {
    let current: u64 = 0x0123_4567_89ab_cdef;
    let mut device = GuestRam::from_bytes(&current.to_le_bytes());
    let addr = 0;

    let new = current as u32 as u64;
    assert_eq!(
        compare_exchange_request(&mut device, Request { addr, size: RequestSize::Size8 }, current, new),
        Ok(current)
    );

    let current = new;
    let new = current as u16 as u64;
    assert_eq!(
        compare_exchange_request(&mut device, Request { addr, size: RequestSize::Size4 }, current, new),
        Ok(current)
    );

    assert_eq!(device.read(Request { addr, size: RequestSize::Size8 }), new);
}

#[test]
fn compare_exchange_returns_err_current_on_wrong_value_and_bails() {
    let current: u64 = 0x0123_4567_89ab_cdef;
    let mut device = GuestRam::from_bytes(&current.to_le_bytes());
    let addr = 0;

    assert_eq!(
        compare_exchange_request(&mut device, Request { addr, size: RequestSize::Size8 }, !current, 0),
        Err(current)
    );
    assert_eq!(
        compare_exchange_request(&mut device, Request { addr, size: RequestSize::Size4 }, !current, 0),
        Err(current as u32 as u64)
    );
    assert_eq!(device.read(Request { addr, size: RequestSize::Size8 }), current);
}

#[test]
fn interval_intersection() {
    let empty_ivl = Ivl::default();
    let first_ivl = Ivl { start: 10, end: 20 };
    let second_ivl = Ivl { start: 15, end: 25 };
    let unrelated_ivl = Ivl { start: 80, end: 100 };
    let covering_ivl = Ivl { start: 5, end: 70 };

    assert!(empty_ivl.is_empty());

    assert_eq!(first_ivl.intersection(&second_ivl), Range { start: 15, end: 20 });
    assert_eq!(first_ivl.intersection(&covering_ivl), first_ivl);
    assert!(first_ivl.intersection(&unrelated_ivl).is_empty());

    assert_eq!(first_ivl.intersection(&first_ivl), first_ivl);

    assert_eq!(covering_ivl.intersection(&first_ivl), first_ivl);
}

#[test]
fn interval_contains_interval() {
    let first_ivl = Ivl { start: 10, end: 20 };
    let second_ivl = Ivl { start: 15, end: 25 };
    let contained_ivl = Ivl { start: 11, end: 14 };

    assert!(!first_ivl.contains_interval(&second_ivl));
    assert!(first_ivl.contains_interval(&contained_ivl));
    assert!(!second_ivl.contains_interval(&contained_ivl));
    assert!(first_ivl.overlaps(&second_ivl));
    assert!(!first_ivl.overlaps(&Ivl { start: 20, end: 30 }));
}
