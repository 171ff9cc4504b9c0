use usbvfiod::trb::{
    AddressDeviceCommandTrbData, CommandTrbVariant, CompletionCode, DataStageTrbData, EventTrb,
    LinkTrbData, SetupStageTrbData, TransferTrbVariant, TrbParseError, zeroed_trb_buffer,
};

#[test]
fn test_parse_enable_slot_command_trb() {
    let trb_bytes = [
        0x00, 0x00, 0x00, 0x00, 0x00, 0x00, 0x00, 0x00, 0x00, 0x00, 0x00, 0x00, 0x00, 0x24, 0x00,
        0x00,
    ];
    let expected = CommandTrbVariant::EnableSlot;
    assert_eq!(CommandTrbVariant::parse(trb_bytes), expected);
}

#[test]
fn test_parse_link_trb_as_command() {
    let trb_bytes = [
        0x80, 0x77, 0x66, 0x55, 0x44, 0x33, 0x22, 0x11, 0x00, 0x00, 0x00, 0x00, 0x02, 0x18, 0x00,
        0x00,
    ];
    let expected = CommandTrbVariant::Link(LinkTrbData {
        ring_segment_pointer: 0x1122334455667780,
        toggle_cycle: true,
    });
    assert_eq!(CommandTrbVariant::parse(trb_bytes), expected);
}

#[test]
fn test_parse_address_device_command_trb() {
    let trb_bytes = [
        0x80, 0x77, 0x66, 0x55, 0x44, 0x33, 0x22, 0x11, 0x00, 0x00, 0x00, 0x00, 0x02, 0x2e, 0x00,
        0x13,
    ];
    let expected = CommandTrbVariant::AddressDevice(AddressDeviceCommandTrbData {
        input_context_pointer: 0x1122334455667780,
        block_set_address_request: true,
        slot_id: 0x13,
    });
    assert_eq!(CommandTrbVariant::parse(trb_bytes), expected);
}

#[test]
fn test_command_completion_event_trb() {
    let trb = EventTrb::new_command_completion_event_trb(
        0x1122334455667780,
        0xaabbcc,
        CompletionCode::Success,
        2,
    );
    assert_eq!(
        [
            0x80, 0x77, 0x66, 0x55, 0x44, 0x33, 0x22, 0x11, 0xcc, 0xbb, 0xaa, 0x01, 0x01, 0x84,
            0x00, 0x02,
        ],
        trb.to_bytes(true),
    )
}

#[test]
fn test_port_status_change_event_trb() {
    let trb = EventTrb::new_port_status_change_event_trb(2);
    assert_eq!(
        [
            0x00, 0x00, 0x00, 0x02, 0x00, 0x00, 0x00, 0x00, 0x00, 0x00, 0x00, 0x01, 0x01, 0x88,
            0x00, 0x00,
        ],
        trb.to_bytes(true),
    )
}

#[test]
fn test_parse_link_trb_as_transfer() {
    let trb_bytes = [
        0x80, 0x77, 0x66, 0x55, 0x44, 0x33, 0x22, 0x11, 0x00, 0x00, 0x00, 0x00, 0x02, 0x18, 0x00,
        0x00,
    ];
    let expected = TransferTrbVariant::Link(LinkTrbData {
        ring_segment_pointer: 0x1122334455667780,
        toggle_cycle: true,
    });
    assert_eq!(TransferTrbVariant::parse(trb_bytes), expected);
}

#[test]
fn test_parse_setup_stage_trb() {
    let trb_bytes = [
        0x11, 0x22, 0x44, 0x33, 0x66, 0x55, 0x88, 0x77, 0x00, 0x00, 0x00, 0x00, 0x00, 0x08, 0x00,
        0x00,
    ];
    let expected = TransferTrbVariant::SetupStage(SetupStageTrbData {
        request_type: 0x11,
        request: 0x22,
        value: 0x3344,
        index: 0x5566,
        length: 0x7788,
    });
    assert_eq!(TransferTrbVariant::parse(trb_bytes), expected);
}

#[test]
fn test_parse_data_stage_trb() {
    let trb_bytes = [
        0x88, 0x77, 0x66, 0x55, 0x44, 0x33, 0x22, 0x11, 0x00, 0x00, 0x00, 0x00, 0x00, 0x0c, 0x00,
        0x00,
    ];
    let expected = TransferTrbVariant::DataStage(DataStageTrbData {
        data_pointer: 0x1122334455667788,
        chain: false,
    });
    assert_eq!(TransferTrbVariant::parse(trb_bytes), expected);
}

#[test]
fn transfer_event_trb_layout() {
    let trb = EventTrb::new_transfer_event_trb(0x1000, 0x123456, CompletionCode::ShortPacket, true, 3, 7);
    assert_eq!(
        [
            0x00, 0x10, 0x00, 0x00, 0x00, 0x00, 0x00, 0x00, 0x56, 0x34, 0x12, 0x0d, 0x04, 0x80,
            0x03, 0x07,
        ],
        trb.to_bytes(false),
    );
    let bytes = trb.to_bytes(true);
    assert_eq!(bytes[12] & 1, 1);
    assert_eq!(bytes[13] >> 2, 32);
}

#[test]
fn unknown_and_refused_commands_are_unrecognized() {
    let mut trb_bytes = zeroed_trb_buffer();
    trb_bytes[13] = 18 << 2;
    assert!(matches!(
        CommandTrbVariant::parse(trb_bytes),
        CommandTrbVariant::Unrecognized(_, TrbParseError::UnsupportedOptionalCommand(18, _))
    ));
    trb_bytes[13] = 40 << 2;
    assert_eq!(
        CommandTrbVariant::parse(trb_bytes),
        CommandTrbVariant::Unrecognized(trb_bytes, TrbParseError::UnknownTrbType(40))
    );
    trb_bytes[13] = 9 << 2;
    assert_eq!(
        TransferTrbVariant::parse(trb_bytes),
        TransferTrbVariant::Unrecognized(trb_bytes, TrbParseError::UnknownTrbType(9))
    );
}

#[test]
fn misaligned_link_pointer_is_a_rsvdz_violation() {
    let trb_bytes = [
        0x81, 0x77, 0x66, 0x55, 0x44, 0x33, 0x22, 0x11, 0x00, 0x00, 0x00, 0x00, 0x02, 0x18, 0x00,
        0x00,
    ];
    assert_eq!(
        CommandTrbVariant::parse(trb_bytes),
        CommandTrbVariant::Unrecognized(trb_bytes, TrbParseError::RsvdZViolation)
    );
}
