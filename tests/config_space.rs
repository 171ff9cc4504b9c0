use usbvfiod::bus::{Request, RequestSize};
use usbvfiod::config_space::{BarInfo, ConfigSpace, ConfigSpaceBuilder, RequestKind};
use usbvfiod::constants::{
    CAPABILITIES_POINTER_MASK, HEADER_TYPE_MULTIFUNCTION, OFFSET_BAR_1, OFFSET_CAPABILITIES_POINTER,
    OFFSET_CLASS, OFFSET_DEVICE, OFFSET_HEADER_TYPE, OFFSET_PROG_IF, OFFSET_REVISION, OFFSET_STATUS,
    OFFSET_SUBCLASS, OFFSET_SUBSYSTEM_ID, OFFSET_SUBSYSTEM_VENDOR_ID, OFFSET_VENDOR,
    STATUS_CAPABILITIES,
};
use usbvfiod::register_set::{RegisterSet, RegisterSetBuilder};

#[test]
fn device_vendor_id_are_set() {
    let example_vendor_id = 0xDEAD;
    let example_device_id = 0xBEEF;
    let cfg_space: ConfigSpace =
        ConfigSpaceBuilder::new(example_vendor_id, example_device_id).config_space();

    for (offset, value) in [
        (OFFSET_VENDOR, example_vendor_id),
        (OFFSET_DEVICE, example_device_id),
    ] {
        assert_eq!(
            cfg_space.read(Request::new(offset as u64, RequestSize::Size2)),
            u64::from(value)
        );
    }
}

#[test]
fn class_codes_are_set() {
    let example_class = 0xDE;
    let example_subclass = 0xAD;
    let example_prog_if = 0x11;
    let cfg_space: ConfigSpace = ConfigSpaceBuilder::new(0, 0)
        .class(example_class, example_subclass, example_prog_if)
        .config_space();

    for (offset, value) in [
        (OFFSET_CLASS, example_class),
        (OFFSET_SUBCLASS, example_subclass),
        (OFFSET_PROG_IF, example_prog_if),
    ] {
        assert_eq!(
            cfg_space.read(Request::new(offset as u64, RequestSize::Size1)),
            u64::from(value)
        );
    }
}

#[test]
fn subsystem_ids_are_set() {
    let example_subsystem_vendor = 0xDEAD;
    let example_subsystem = 0xBEEF;
    let cfg_space: ConfigSpace = ConfigSpaceBuilder::new(0, 0)
        .subsystem(example_subsystem_vendor, example_subsystem)
        .config_space();

    for (offset, value) in [
        (OFFSET_SUBSYSTEM_VENDOR_ID, example_subsystem_vendor),
        (OFFSET_SUBSYSTEM_ID, example_subsystem),
    ] {
        assert_eq!(
            cfg_space.read(Request::new(offset as u64, RequestSize::Size2)),
            u64::from(value)
        );
    }
}

#[test]
fn create_single_function_device_by_default() {
    let cfg_space: ConfigSpace = ConfigSpaceBuilder::new(0, 0).config_space();

    assert_eq!(
        cfg_space.read(Request::new(OFFSET_HEADER_TYPE as u64, RequestSize::Size1))
            & u64::from(HEADER_TYPE_MULTIFUNCTION),
        0
    )
}

#[test]
fn can_create_multifunction_device() {
    let cfg_space: ConfigSpace = ConfigSpaceBuilder::new(0, 0).multifunction().config_space();

    assert_eq!(
        cfg_space.read(Request::new(OFFSET_HEADER_TYPE as u64, RequestSize::Size1))
            & u64::from(HEADER_TYPE_MULTIFUNCTION),
        u64::from(HEADER_TYPE_MULTIFUNCTION)
    )
}

#[test]
fn can_add_custom_registers() {
    let example_offset = 0xC0;
    let example_value = 0xAA;
    let mut cfg_space: ConfigSpace = ConfigSpaceBuilder::new(0, 0)
        .custom_registers(|r| r.u8_rw_at(example_offset, example_value))
        .config_space();

    let req = Request::new(example_offset as u64, RequestSize::Size1);

    assert_eq!(cfg_space.read(req), u64::from(example_value));

    cfg_space.write(req, 0xBB);
    assert_eq!(cfg_space.read(req), 0xBB);
}

#[test]
fn revision_defaults_to_zero() {
    let cfg_space: ConfigSpace = ConfigSpaceBuilder::new(0, 0).config_space();

    assert_eq!(
        cfg_space.read(Request::new(OFFSET_REVISION as u64, RequestSize::Size1)),
        0
    )
}

#[test]
fn can_set_revision() {
    let example_revision = 0x12;
    let cfg_space: ConfigSpace = ConfigSpaceBuilder::new(0, 0)
        .revision(example_revision)
        .config_space();

    assert_eq!(
        cfg_space.read(Request::new(OFFSET_REVISION as u64, RequestSize::Size1)),
        u64::from(example_revision)
    )
}

#[test]
fn expose_no_capabilities_by_default() {
    let cfg_space: ConfigSpace = ConfigSpaceBuilder::new(0, 0).config_space();

    assert_eq!(
        cfg_space.read(Request::new(OFFSET_STATUS as u64, RequestSize::Size2))
            & u64::from(STATUS_CAPABILITIES),
        0
    );

    assert_eq!(
        cfg_space.read(Request::new(
            OFFSET_CAPABILITIES_POINTER as u64,
            RequestSize::Size1
        )),
        0
    );
}

#[test]
fn can_add_one_capability() {
    let example_id = 0x12;
    let example_capability: RegisterSet<2> = RegisterSetBuilder::<2>::new()
        .u16_le_ro_at(0, 0xAABB)
        .build();

    let cfg_space: ConfigSpace = ConfigSpaceBuilder::new(0, 0)
        .capability(example_id, &example_capability)
        .config_space();

    assert_eq!(
        cfg_space.read(Request::new(OFFSET_STATUS as u64, RequestSize::Size2))
            & u64::from(STATUS_CAPABILITIES),
        u64::from(STATUS_CAPABILITIES)
    );

    let cap_ptr = cfg_space.read(Request::new(
        OFFSET_CAPABILITIES_POINTER as u64,
        RequestSize::Size1,
    )) & u64::from(CAPABILITIES_POINTER_MASK);

    assert_eq!(
        cfg_space.read(Request::new(cap_ptr, RequestSize::Size1)),
        u64::from(example_id)
    );

    assert_eq!(
        cfg_space.read(Request::new(cap_ptr + 1, RequestSize::Size1)),
        0
    );

    assert_eq!(
        cfg_space.read(Request::new(cap_ptr + 2, RequestSize::Size2)),
        0xAABB
    );
}

#[test]
fn capabilities_are_correctly_chained() {
    let example_id_1 = 0x12;
    let example_capability_1: RegisterSet<4> = RegisterSetBuilder::<4>::new()
        .u32_le_ro_at(0, 0xAABBCCDD)
        .build();

    let example_id_2 = 0x23;
    let example_capability_2: RegisterSet<2> = RegisterSetBuilder::<2>::new()
        .u16_le_ro_at(0, 0x1122)
        .build();

    let cfg_space: ConfigSpace = ConfigSpaceBuilder::new(0, 0)
        .capability(example_id_1, &example_capability_1)
        .capability(example_id_2, &example_capability_2)
        .config_space();

    let cap_1_ptr = cfg_space.read(Request::new(
        OFFSET_CAPABILITIES_POINTER as u64,
        RequestSize::Size1,
    )) & u64::from(CAPABILITIES_POINTER_MASK);

    let cap_2_ptr = cfg_space.read(Request::new(cap_1_ptr + 1, RequestSize::Size1))
        & u64::from(CAPABILITIES_POINTER_MASK);

    assert_eq!(
        cfg_space.read(Request::new(cap_2_ptr, RequestSize::Size1)),
        u64::from(example_id_2)
    );

    assert_eq!(
        cfg_space.read(Request::new(cap_2_ptr + 1, RequestSize::Size1)),
        0
    );

    assert_eq!(
        cfg_space.read(Request::new(cap_2_ptr + 2, RequestSize::Size2)),
        0x1122
    );
}

#[test]
fn bars_sizing_works() {
    const BAR_SIZE: u32 = 0x1000;

    let mut cfg_space = ConfigSpaceBuilder::new(0, 0)
        .mem32_nonprefetchable_bar(1, BAR_SIZE)
        .config_space();

    cfg_space.write(
        Request::new(OFFSET_BAR_1 as u64, RequestSize::Size4),
        0xFFFF_FFFF,
    );
    let bar_val = cfg_space.read(Request::new(OFFSET_BAR_1 as u64, RequestSize::Size4));

    assert_eq!(bar_val, 0xFFFF_F000);
}

#[test]
fn can_create_msix_capability() {
    let cfg_space = ConfigSpaceBuilder::new(0, 0)
        .mem32_nonprefetchable_bar(1, 0x8000_0000)
        .mem32_nonprefetchable_bar(2, 0x8000_0000)
        .msix_capability(16, 1, 0x1234_5670, 2, 0x2345_6780)
        .config_space();

    let msix_ptr = cfg_space.read(Request::new(
        OFFSET_CAPABILITIES_POINTER as u64,
        RequestSize::Size1,
    )) & u64::from(CAPABILITIES_POINTER_MASK);

    assert_eq!(
        cfg_space.read(Request::new(msix_ptr, RequestSize::Size4)),
        0x0f0011
    );
    assert_eq!(
        cfg_space.read(Request::new(msix_ptr + 4, RequestSize::Size4)),
        0x1234_5671
    );
    assert_eq!(
        cfg_space.read(Request::new(msix_ptr + 8, RequestSize::Size4)),
        0x2345_6782
    );
}

#[test]
fn capability_iterator_works() {
    let no_cap_cfg_space = ConfigSpaceBuilder::new(0, 0).config_space();

    assert_eq!(no_cap_cfg_space.iter_capability_offsets().into_iter().next(), None);

    let example_id_1 = 0x23;
    let example_id_2 = 0x34;
    let empty_capability: RegisterSet<0> = RegisterSetBuilder::<0>::new().build();

    let cfg_space: ConfigSpace = ConfigSpaceBuilder::new(0, 0)
        .capability(example_id_1, &empty_capability)
        .capability(example_id_2, &empty_capability)
        .config_space();

    let offsets: Vec<u8> = cfg_space.iter_capability_offsets();

    assert_eq!(offsets.len(), 2);

    assert_eq!(
        cfg_space.read(Request::new(offsets[0].into(), RequestSize::Size1)),
        u64::from(example_id_1)
    );
    assert_eq!(
        cfg_space.read(Request::new(offsets[1].into(), RequestSize::Size1)),
        u64::from(example_id_2)
    );
}

#[test]
fn can_query_bars() {
    let cfg_space = ConfigSpaceBuilder::new(0, 0)
        .mem32_nonprefetchable_bar(0, 0x8000_0000)
        .config_space();

    assert_eq!(
        cfg_space.bar(0),
        Some(BarInfo {
            size: 0x8000_0000,
            kind: RequestKind::Memory
        })
    );
    assert_eq!(cfg_space.bar(1), None);
    assert_eq!(cfg_space.bar(9), None);
}
