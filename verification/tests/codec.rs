use omni_can::classify;
use omni_can::decode_i16_be;
use omni_can::encode_mode6_set_param;
use omni_can::encode_set_driver_mode;
use omni_can::generate_reboot_command;
use omni_can::Classification;
use omni_can::EncodingError;

#[test]
fn mode6_round_trip_motor_two() {
    let frame = encode_mode6_set_param(2, -500).unwrap();
    // Identifier bytes: class, type, instance, function.
    assert_eq!(frame.id >> 24, 0x05);
    assert_eq!((frame.id >> 16) & 0xFF, 0x05);
    assert_eq!((frame.id >> 8) & 0xFF, 2);
    assert_eq!(frame.id & 0xFF, 0x06);
    assert_eq!(frame.id, 0x0505_0206);
    // Payload bytes 2-3 decode, big endian and signed, back to the rate.
    assert_eq!(decode_i16_be(frame.data[2], frame.data[3]), -500);
    // Bytes 0-1 carry the fixed parameter 4000, big endian.
    assert_eq!(frame.data[0], 0x0F);
    assert_eq!(frame.data[1], 0xA0);
    // Everything past the rate is filler.
    assert_eq!(&frame.data[4..], &[0x55, 0x55, 0x55, 0x55]);
}

#[test]
fn mode6_round_trip_more_rates() {
    for rate in [0i16, 1, -1, 4000, -4000, i16::MAX, i16::MIN] {
        let frame = encode_mode6_set_param(1, rate).unwrap();
        assert_eq!(decode_i16_be(frame.data[2], frame.data[3]), rate);
    }
}

#[test]
fn reboot_command_layout() {
    let frame = generate_reboot_command(1).unwrap();
    assert_eq!(frame.id, 0x0505_0100);
    assert_eq!(frame.data, [0x55u8; 8]);
}

#[test]
fn driver_mode_command_layout() {
    let frame = encode_set_driver_mode(3, 6).unwrap();
    assert_eq!(frame.id, 0x0505_0301);
    assert_eq!(frame.data, [6, 0x55, 0x55, 0x55, 0x55, 0x55, 0x55, 0x55]);
}

#[test]
fn encoding_rejects_unknown_motors() {
    for motor_id in [0u8, 4, 9, 0xFF] {
        assert!(matches!(
            generate_reboot_command(motor_id),
            Err(EncodingError::InvalidMotorId)
        ));
        assert!(matches!(
            encode_set_driver_mode(motor_id, 6),
            Err(EncodingError::InvalidMotorId)
        ));
        assert!(matches!(
            encode_mode6_set_param(motor_id, 100),
            Err(EncodingError::InvalidMotorId)
        ));
    }
}

#[test]
fn classify_foreign_family_is_irrelevant() {
    // Class or type byte off by anything: irrelevant, whatever the payload.
    let heartbeat_like = [1u8, 0, 0, 0, 0, 0, 0, 0];
    assert_eq!(classify(0x0407_03B0, &heartbeat_like), Classification::Irrelevant);
    assert_eq!(classify(0x0405_03B0, &heartbeat_like), Classification::Irrelevant);
    assert_eq!(classify(0x0506_03B0, &heartbeat_like), Classification::Irrelevant);
    assert_eq!(classify(0x0000_0000, &[0xFFu8; 8]), Classification::Irrelevant);
    assert_eq!(classify(0xFFFF_FFFF, &[0u8; 8]), Classification::Irrelevant);
}

#[test]
fn classify_unknown_instance_is_irrelevant() {
    let data = [1u8, 0, 0, 0, 0, 0, 0, 0];
    assert_eq!(classify(0x0505_00B0, &data), Classification::Irrelevant);
    assert_eq!(classify(0x0505_04B0, &data), Classification::Irrelevant);
    assert_eq!(classify(0x0505_FFB0, &data), Classification::Irrelevant);
}

#[test]
fn classify_heartbeat_motor_three_enabled() {
    let data = [1u8, 0, 0, 0, 0, 0, 0, 0];
    assert_eq!(
        classify(0x0505_03B0, &data),
        Classification::Heartbeat { motor_id: 3, enabled: true }
    );
}

#[test]
fn classify_heartbeat_motor_three_disabled() {
    let data = [0u8, 0, 0, 0, 0, 0, 0, 0];
    assert_eq!(
        classify(0x0505_03B0, &data),
        Classification::Heartbeat { motor_id: 3, enabled: false }
    );
}

#[test]
fn classify_family_function_without_decoder_is_unhandled() {
    let data = [0u8; 8];
    assert_eq!(
        classify(0x0505_02B1, &data),
        Classification::Unhandled { motor_id: 2, function: 0xB1 }
    );
    assert_eq!(
        classify(0x0505_0100, &data),
        Classification::Unhandled { motor_id: 1, function: 0x00 }
    );
}

#[test]
fn decode_i16_be_edge_values() {
    assert_eq!(decode_i16_be(0x00, 0x00), 0);
    assert_eq!(decode_i16_be(0x00, 0x05), 5);
    assert_eq!(decode_i16_be(0xFF, 0xFF), -1);
    assert_eq!(decode_i16_be(0x80, 0x00), i16::MIN);
    assert_eq!(decode_i16_be(0x7F, 0xFF), i16::MAX);
}
