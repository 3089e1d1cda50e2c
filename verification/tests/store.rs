use omni_can::Motor;
use omni_can::MotorStore;

#[test]
fn new_store_starts_disabled_and_at_rest() {
    let store = MotorStore::new();
    for (motor, id) in [(&store.motor1, 1u8), (&store.motor2, 2), (&store.motor3, 3)] {
        assert_eq!(motor.id_number, id);
        assert!(!motor.enabled);
        assert_eq!(motor.read_speed, 0);
        assert_eq!(motor.target_speed, 0);
    }
}

#[test]
fn heartbeat_touches_only_the_addressed_record() {
    let mut store = MotorStore::new();
    store.set_target(1, 77);
    store.apply_heartbeat(2, true);
    // Motor 2's enable flag moved; every other field of every record is
    // exactly as it was.
    assert!(store.enabled_of(2));
    assert_eq!(store.motor2.id_number, 2);
    assert_eq!(store.motor2.read_speed, 0);
    assert_eq!(store.motor2.target_speed, 0);
    assert!(!store.enabled_of(1));
    assert_eq!(store.target_of(1), 77);
    assert!(!store.enabled_of(3));
    assert_eq!(store.target_of(3), 0);
}

#[test]
fn heartbeats_for_different_motors_do_not_mix() {
    let mut store = MotorStore::new();
    store.apply_heartbeat(1, true);
    store.apply_heartbeat(2, true);
    store.apply_heartbeat(2, false);
    assert!(store.enabled_of(1));
    assert!(!store.enabled_of(2));
    assert!(!store.enabled_of(3));
}

#[test]
fn heartbeat_for_unknown_motor_changes_nothing() {
    let mut store = MotorStore::new();
    store.apply_heartbeat(5, true);
    store.apply_heartbeat(0, true);
    assert!(!store.enabled_of(1));
    assert!(!store.enabled_of(2));
    assert!(!store.enabled_of(3));
}

#[test]
fn target_updates_keep_other_fields() {
    let mut motor = Motor::new(3);
    motor.set_enabled(true);
    motor.set_target_speed(-24);
    assert_eq!(motor.id_number, 3);
    assert!(motor.enabled);
    assert_eq!(motor.read_speed, 0);
    assert_eq!(motor.target_speed, -24);
}
