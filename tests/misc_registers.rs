use usbvfiod::bus::{Request, RequestSize, IllegalRequestSize, WrappingRequestError};
use usbvfiod::msi::MsiMessage;
use usbvfiod::msix_table::{MsixTable, CONTROL_MASKED, MSIX_CONTROL, MSIX_ENTRY_SIZE, MSIX_MESSAGE_ADDRESS, MSIX_MESSAGE_DATA};
use usbvfiod::portsc::PortscRegister;

type ExampleTable = MsixTable<{ 16 * MSIX_ENTRY_SIZE }>;

#[test]
fn vector_count_is_correctly_computed() {
    assert_eq!(ExampleTable::vector_count(), 16);
}

#[test]
fn all_vectors_are_masked_by_default() {
    let table = ExampleTable::new();

    assert!((0..ExampleTable::vector_count())
        .map(|v| u64::from(v) * (MSIX_ENTRY_SIZE as u64) + (MSIX_CONTROL as u64))
        .map(|offset| table.read(Request::new(offset, RequestSize::Size4)))
        .all(|control| control & u64::from(CONTROL_MASKED) != 0));

    assert_eq!(
        (0..ExampleTable::vector_count())
            .filter_map(|v| table.vector(v))
            .count(),
        0
    );
}

#[test]
fn configured_vectors_are_visible() {
    let example_address = 0xcafe_d00d_feed_face;
    let example_data: u16 = 0xbeef;

    let mut table = ExampleTable::new();
    let entry_1_offset: usize = MSIX_ENTRY_SIZE;

    table.write(
        Request::new((entry_1_offset + MSIX_MESSAGE_ADDRESS) as u64, RequestSize::Size8),
        example_address,
    );
    table.write(
        Request::new((entry_1_offset + MSIX_MESSAGE_DATA) as u64, RequestSize::Size4),
        example_data.into(),
    );

    assert_eq!(table.vector(1), None);

    table.write(
        Request::new((entry_1_offset + MSIX_CONTROL) as u64, RequestSize::Size4),
        0,
    );
    assert_eq!(
        table.vector(1),
        Some(MsiMessage {
            address: example_address,
            data: example_data,
        })
    );
}

#[test]
fn msix_data_keeps_low_sixteen_bits() {
    let mut table = ExampleTable::new();
    table.write(Request::new(MSIX_MESSAGE_DATA as u64, RequestSize::Size4), 0x1234_5678);
    table.write(Request::new(MSIX_CONTROL as u64, RequestSize::Size4), 0xFFFF_FFFE);
    assert_eq!(table.vector(0), Some(MsiMessage::new(0, 0x5678)));
    assert_eq!(table.vector(2), None);
}

#[test]
fn portsc_read_write() {
    let mut reg = PortscRegister::new(0x00260203);
    assert_eq!(reg.read(), 0x00260203);

    reg.write(0x0);
    assert_eq!(
        reg.read(),
        0x00260203,
        "writing 0 should affect neither the read-only nor the RW1C bits."
    );

    reg.write(0x00200000);
    assert_eq!(reg.read(), 0x00060203, "writing 1 to bit 21 should clear the bit.");

    reg.write(0x00040000);
    assert_eq!(reg.read(), 0x00020203, "writing 1 to bit 18 should clear the bit.");

    reg.write(0x00020000);
    assert_eq!(reg.read(), 0x00000203, "writing 1 to bit 17 should clear the bit.");
}

#[test]
fn invalid_sizes_are_not_converted_to_request_size() {
    for invalid_size in [0, 3, 7, 300, u64::MAX] {
        assert_eq!(
            RequestSize::try_from_u64(invalid_size),
            Err(IllegalRequestSize {})
        );
    }
    assert_eq!(RequestSize::try_from_u32(4), Ok(RequestSize::Size4));
    assert_eq!(RequestSize::try_from_usize(8), Ok(RequestSize::Size8));
}

#[test]
fn requests_convert_into_ranges() {
    let request = Request {
        addr: 0x17,
        size: RequestSize::Size2,
    };
    let request_range = request.try_into_range();

    assert_eq!(request_range, Ok(0x17..0x19));
}

#[test]
fn wrapping_requests_are_rejected() {
    let request = Request {
        addr: 0xffff_ffff_ffff_ffff,
        size: RequestSize::Size2,
    };

    assert_eq!(request.try_into_range(), Err(WrappingRequestError {}));
}

#[test]
fn request_byte_iterator_works() {
    let request = Request {
        addr: 0x100,
        size: RequestSize::Size2,
    };

    let split_request = request.iter_bytes();
    let addresses = split_request.iter().map(|r| r.addr).collect::<Vec<_>>();
    let sizes = split_request.iter().map(|r| r.size).collect::<Vec<_>>();

    assert_eq!(addresses, vec![0x100, 0x101]);
    assert!(sizes.iter().all(|&s| s == RequestSize::Size1));
}
