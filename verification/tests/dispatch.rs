use omni_can::handle_inbound;
use omni_can::outbound_cycle;
use omni_can::rotate_motor;
use omni_can::startup_commands;
use omni_can::Classification;
use omni_can::Motor;
use omni_can::MotorStore;

#[test]
fn startup_reboots_every_motor_in_order() {
    let frames = startup_commands();
    assert_eq!(frames.len(), 3);
    assert_eq!(frames[0].id, 0x0505_0100);
    assert_eq!(frames[1].id, 0x0505_0200);
    assert_eq!(frames[2].id, 0x0505_0300);
    for frame in &frames {
        assert_eq!(frame.data, [0x55u8; 8]);
    }
}

#[test]
fn startup_then_one_forward_cycle() {
    // Reboot all three motors, then run one outbound cycle at 0.3 m/s
    // forward. The kinematics put wheel 1 at rest and the mirrored wheels
    // 2 and 3 at trunc(0.3 * 0.866025 * 92.7116) = 24 rpm, opposite senses.
    let reboots = startup_commands();
    assert_eq!(reboots.len(), 3);

    let mut store = MotorStore::new();
    let frames = outbound_cycle(&mut store, 300, 0, 0);
    assert_eq!(frames.len(), 6);

    // Fixed order: motor 1's pair, then motor 2's, then motor 3's; each
    // pair is a driver-mode select (mode 6) then a mode-6 set-parameter.
    for (i, motor_id) in [(0usize, 1u32), (2, 2), (4, 3)] {
        assert_eq!(frames[i].id, 0x0505_0001 | (motor_id << 8));
        assert_eq!(frames[i].data, [6, 0x55, 0x55, 0x55, 0x55, 0x55, 0x55, 0x55]);
        assert_eq!(frames[i + 1].id, 0x0505_0006 | (motor_id << 8));
        // Fixed parameter 4000 big endian in bytes 0-1, filler at the end.
        assert_eq!(frames[i + 1].data[0], 0x0F);
        assert_eq!(frames[i + 1].data[1], 0xA0);
        assert_eq!(&frames[i + 1].data[4..], &[0x55, 0x55, 0x55, 0x55]);
    }
    // Rate fields, big endian: 0 for wheel 1, -24 for wheel 2, +24 for
    // wheel 3.
    assert_eq!(&frames[1].data[2..4], &[0x00, 0x00]);
    assert_eq!(&frames[3].data[2..4], &[0xFF, 0xE8]);
    assert_eq!(&frames[5].data[2..4], &[0x00, 0x18]);
    // The store remembers what was commanded.
    assert_eq!(store.target_of(1), 0);
    assert_eq!(store.target_of(2), -24);
    assert_eq!(store.target_of(3), 24);
}

#[test]
fn rotate_motor_records_target_and_builds_both_frames() {
    let mut motor = Motor::new(2);
    let (mode_frame, param_frame) = rotate_motor(&mut motor, -500);
    assert_eq!(motor.target_speed, -500);
    assert_eq!(mode_frame.id, 0x0505_0201);
    assert_eq!(mode_frame.data[0], 6);
    assert_eq!(param_frame.id, 0x0505_0206);
    assert_eq!(&param_frame.data[2..4], &[0xFE, 0x0C]);
}

#[test]
fn inbound_heartbeat_updates_the_addressed_motor() {
    let mut store = MotorStore::new();
    let c = handle_inbound(&mut store, 0x0505_03B0, &[1, 0, 0, 0, 0, 0, 0, 0]);
    assert_eq!(c, Classification::Heartbeat { motor_id: 3, enabled: true });
    assert!(store.enabled_of(3));
    assert!(!store.enabled_of(1));
    assert!(!store.enabled_of(2));

    let c = handle_inbound(&mut store, 0x0505_03B0, &[0, 0, 0, 0, 0, 0, 0, 0]);
    assert_eq!(c, Classification::Heartbeat { motor_id: 3, enabled: false });
    assert!(!store.enabled_of(3));
}

#[test]
fn inbound_foreign_frame_changes_nothing() {
    let mut store = MotorStore::new();
    let c = handle_inbound(&mut store, 0x0407_03B0, &[1, 0, 0, 0, 0, 0, 0, 0]);
    assert_eq!(c, Classification::Irrelevant);
    assert!(!store.enabled_of(1));
    assert!(!store.enabled_of(2));
    assert!(!store.enabled_of(3));
}

#[test]
fn inbound_unhandled_function_is_surfaced_but_ignored() {
    let mut store = MotorStore::new();
    let c = handle_inbound(&mut store, 0x0505_01B1, &[9, 9, 9, 9, 9, 9, 9, 9]);
    assert_eq!(c, Classification::Unhandled { motor_id: 1, function: 0xB1 });
    assert!(!store.enabled_of(1));
    assert_eq!(store.target_of(1), 0);
}
