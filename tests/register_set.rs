use usbvfiod::bus::{Request, RequestSize};
use usbvfiod::bytes::read_le;
use usbvfiod::register_set::{RegisterSet, RegisterSetBuilder};

#[test]
fn fold_iter_le_works() {
    let no_bytes: Vec<u8> = vec![];
    assert_eq!(read_le(&no_bytes, 0, 0), 0);

    let some_bytes: Vec<u8> = vec![0x11, 0x22];
    assert_eq!(read_le(&some_bytes, 0, 2), 0x2211);

    let all_bytes: Vec<u8> = vec![0x11, 0x22, 0x33, 0x44, 0x55, 0x66, 0x77, 0x88];
    assert_eq!(read_le(&all_bytes, 0, 8), 0x8877_6655_4433_2211);
}

#[test]
fn unspecified_registers_are_ro_and_have_all_bits_set() {
    let mut region: RegisterSet<8> = RegisterSetBuilder::<8>::new().build();

    assert_eq!(region.read(Request::new(1, RequestSize::Size1)), 0xFF);
    assert_eq!(
        region.read(Request::new(0, RequestSize::Size8)),
        0xFFFF_FFFF_FFFF_FFFF
    );

    region.write(Request::new(0, RequestSize::Size2), 0);
    assert_eq!(region.read(Request::new(0, RequestSize::Size2)), 0xFFFF);
}

#[test]
fn byte_order_is_observed() {
    let region: RegisterSet<2> = RegisterSetBuilder::<2>::new()
        .u16_le_ro_at(0, 0xCAFE)
        .build();

    assert_eq!(region.read(Request::new(0, RequestSize::Size1)), 0xFE);
    assert_eq!(region.read(Request::new(1, RequestSize::Size1)), 0xCA);
}

#[test]
fn read_only_registers_are_not_writable() {
    let mut region: RegisterSet<2> = RegisterSetBuilder::<2>::new()
        .u16_le_ro_at(0, 0xCAFE)
        .build();

    assert_eq!(region.read(Request::new(0, RequestSize::Size2)), 0xCAFE);

    region.write(Request::new(0, RequestSize::Size2), 0);
    assert_eq!(region.read(Request::new(0, RequestSize::Size2)), 0xCAFE);
}

#[test]
fn writable_registers_are_writable() {
    let mut region: RegisterSet<2> = RegisterSetBuilder::<2>::new()
        .u16_le_rw_at(0, 0xCAFE)
        .build();

    assert_eq!(region.read(Request::new(0, RequestSize::Size2)), 0xCAFE);

    region.write(Request::new(0, RequestSize::Size2), 0xD00D);
    assert_eq!(region.read(Request::new(0, RequestSize::Size2)), 0xD00D);
}

#[test]
fn partially_writable_registers_observe_write_mask() {
    let mut region: RegisterSet<2> = RegisterSetBuilder::<2>::new()
        .u16_le_at(0, 0xCAFE, 0x0F0F)
        .build();

    assert_eq!(region.read(Request::new(0, RequestSize::Size2)), 0xCAFE);

    region.write(Request::new(0, RequestSize::Size2), 0x4433);
    assert_eq!(region.read(Request::new(0, RequestSize::Size2)), 0xC4F3);
}

#[test]
fn cross_register_accesses_are_handled() {
    let region: RegisterSet<8> = RegisterSetBuilder::<8>::new()
        .u16_le_ro_at(0, 0xCAFE)
        .u16_le_ro_at(2, 0xD00D)
        .u16_le_ro_at(4, 0x0BAD)
        .u16_le_ro_at(6, 0xF00D)
        .build();

    assert_eq!(
        region.read(Request::new(0, RequestSize::Size8)),
        0xF00D_0BAD_D00D_CAFE
    );
}

#[test]
fn can_place_register_set() {
    let part: RegisterSet<4> = RegisterSetBuilder::<4>::new()
        .u32_le_at(0, 0x12345678, 0xFFFF0000)
        .build();
    let mut whole: RegisterSet<16> = RegisterSetBuilder::<16>::new()
        .register_set_at(4, &part)
        .build();

    assert_eq!(whole.read(Request::new(4, RequestSize::Size4)), 0x12345678);

    whole.write(Request::new(4, RequestSize::Size4), 0xABCDEF12);
    assert_eq!(whole.read(Request::new(4, RequestSize::Size4)), 0xABCD5678);
}

#[test]
fn write_clear_bits_are_cleared() {
    let mut region: RegisterSet<32> = RegisterSetBuilder::<32>::new()
        .u8_w1c_at(1, 0xFF)
        .u16_le_w1c_at(4, 0xFFFF)
        .u32_le_w1c_at(8, 0xFFFF_FFFF)
        .u64_le_w1c_at(16, 0xFFFF_FFFF_FFFF_FFFF)
        .build();

    assert_eq!(region.read(Request::new(1, RequestSize::Size1)), 0xFF);
    region.write(Request::new(1, RequestSize::Size1), 0x10);
    assert_eq!(region.read(Request::new(1, RequestSize::Size1)), 0xEF);

    assert_eq!(region.read(Request::new(4, RequestSize::Size2)), 0xFFFF);
    region.write(Request::new(4, RequestSize::Size2), 0x1020);
    assert_eq!(region.read(Request::new(4, RequestSize::Size2)), 0xEFDF);

    assert_eq!(
        region.read(Request::new(8, RequestSize::Size4)),
        0xFFFF_FFFF
    );
    region.write(Request::new(8, RequestSize::Size4), 0x1020_3040);
    assert_eq!(
        region.read(Request::new(8, RequestSize::Size4)),
        0xEFDF_CFBF
    );

    assert_eq!(
        region.read(Request::new(16, RequestSize::Size8)),
        0xFFFF_FFFF_FFFF_FFFF
    );
    region.write(Request::new(16, RequestSize::Size8), 0x1020_3040_5060_7080);
    assert_eq!(
        region.read(Request::new(16, RequestSize::Size8)),
        0xEFDF_CFBF_AF9F_8F7F
    );
}

#[test]
fn write_clear_bits_are_copied() {
    let subregion: RegisterSet<4> = RegisterSetBuilder::<4>::new().u8_w1c_at(1, 0xFF).build();
    let mut region: RegisterSet<8> = RegisterSetBuilder::<8>::new()
        .register_set_at(4, &subregion)
        .build();

    assert_eq!(region.read(Request::new(5, RequestSize::Size1)), 0xFF);
    region.write(Request::new(5, RequestSize::Size1), 0x10);
    assert_eq!(region.read(Request::new(5, RequestSize::Size1)), 0xEF);
}

#[test]
fn write_direct_works() {
    let mut region: RegisterSet<1> = RegisterSetBuilder::<1>::new().u8_w1c_at(0, 0xFF).build();

    region.write(Request::new(0, RequestSize::Size1), 0xf0);
    assert_eq!(region.read(Request::new(0, RequestSize::Size1)), 0x0f);

    region.write_direct(Request::new(0, RequestSize::Size1), 0xf0);
    assert_eq!(region.read(Request::new(0, RequestSize::Size1)), 0xf0);
}

#[test]
fn rw_and_w1c_bits_in_one_byte_follow_their_own_rule() {
    // Low nibble writable, high nibble write-one-to-clear.
    let mut region: RegisterSet<1> = RegisterSetBuilder::<1>::new().u8_at(0, 0xF0, 0x0F).build();
    region.write(Request::new(0, RequestSize::Size1), 0x35);
    assert_eq!(region.read(Request::new(0, RequestSize::Size1)), 0xF5);
    assert_eq!(region.size(), 1);
}
