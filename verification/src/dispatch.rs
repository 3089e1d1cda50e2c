//! Decision logic of the two dispatch activities.
//!
//! The process runs two concurrent activities over a duplex bus channel:
//! an inbound one that classifies received frames and updates the motor
//! store, and an outbound one that, on a fixed cadence, turns the
//! configured body velocity into per-motor commands. Everything those
//! activities decide or compute is here, as plain functions from state and
//! frame values to new state and frames to send; the surrounding loops,
//! the bus transport and the timer waits live outside the library and feed
//! these functions.

use crate::kinematics::base_spd_2_motors_rpm;
use crate::kinematics::is_valid_body_speed;
use crate::kinematics::spec_motor1_rpm;
use crate::kinematics::spec_motor2_rpm;
use crate::kinematics::spec_motor3_rpm;
use crate::motor::Motor;
use crate::motor::MotorStore;
use crate::protocol::build_driver_mode_frame;
use crate::protocol::build_mode6_frame;
use crate::protocol::build_reboot_frame;
use crate::protocol::classify;
use crate::protocol::driver_mode_payload;
use crate::protocol::mode6_payload;
use crate::protocol::reboot_payload;
use crate::protocol::spec_classify;
use crate::protocol::spec_frame_id;
use crate::protocol::Classification;
use crate::protocol::CommandFrame;
use crate::protocol::ID_FUNCTION_MODE6_SET_PARAM;
use crate::protocol::ID_FUNCTION_REBOOT;
use crate::protocol::ID_FUNCTION_SET_DRIVER_MODE;
use vstd::prelude::*;

verus! {

/// Operating mode commanded before every rate command: mode 6, the
/// controller's speed-control mode.
pub const TARGET_DRIVER_MODE: u8 = 6;

/// The frames the startup phase sends before any control traffic: one
/// reboot command per motor, in instance order 1, 2, 3.
pub fn startup_commands() -> (frames: Vec<CommandFrame>)
    ensures
        frames@.len() == 3,
        frames@[0].id == spec_frame_id(1, ID_FUNCTION_REBOOT),
        frames@[0].data@ == reboot_payload(),
        frames@[1].id == spec_frame_id(2, ID_FUNCTION_REBOOT),
        frames@[1].data@ == reboot_payload(),
        frames@[2].id == spec_frame_id(3, ID_FUNCTION_REBOOT),
        frames@[2].data@ == reboot_payload(),
{
    let mut frames: Vec<CommandFrame> = Vec::new();
    frames.push(build_reboot_frame(1));
    frames.push(build_reboot_frame(2));
    frames.push(build_reboot_frame(3));
    frames
}

/// One motor's share of an outbound cycle: records the rate about to be
/// commanded, then yields the two frames to send in order -- first the
/// driver-mode select (mode 6), then the mode-6 set-parameter carrying the
/// rate.
pub fn rotate_motor(motor: &mut Motor, rpm: i16) -> (frames: (CommandFrame, CommandFrame))
    requires
        old(motor).wf(),
    ensures
        *final(motor) == (Motor { target_speed: rpm, ..*old(motor) }),
        frames.0.id == spec_frame_id(old(motor).id_number, ID_FUNCTION_SET_DRIVER_MODE),
        frames.0.data@ == driver_mode_payload(TARGET_DRIVER_MODE),
        frames.1.id == spec_frame_id(old(motor).id_number, ID_FUNCTION_MODE6_SET_PARAM),
        frames.1.data@ == mode6_payload(rpm),
{
    motor.set_target_speed(rpm);
    let mode_frame = build_driver_mode_frame(motor.id_number, TARGET_DRIVER_MODE);
    let param_frame = build_mode6_frame(motor.id_number, rpm);
    (mode_frame, param_frame)
}

/// The inbound activity's work for one received frame: classify it and,
/// for a heartbeat, replace the addressed motor's enable state; every
/// other classification leaves the store exactly as it was.
pub fn handle_inbound(store: &mut MotorStore, id: u32, data: &[u8; 8]) -> (c: Classification)
    requires
        old(store).wf(),
    ensures
        final(store).wf(),
        c == spec_classify(id, data@),
        (match c {
            Classification::Heartbeat { motor_id, enabled } => *final(store) == old(
                store,
            ).with_enabled(motor_id, enabled),
            _ => *final(store) == *old(store),
        }),
{
    let c = classify(id, data);
    match c {
        Classification::Heartbeat { motor_id, enabled } => {
            store.apply_heartbeat(motor_id, enabled);
        },
        _ => {},
    }
    c
}

/// One full outbound cycle for a configured body velocity: computes the
/// three wheel rates by the kinematics transform, records each as the
/// addressed motor's target, and yields the six frames to send, in the
/// fixed order the bus timing requires -- motor 1's driver-mode select and
/// rate command, then motor 2's, then motor 3's.
pub fn outbound_cycle(store: &mut MotorStore, x: i32, y: i32, z: i32) -> (frames: Vec<
    CommandFrame,
>)
    requires
        old(store).wf(),
        is_valid_body_speed(x as int, y as int, z as int),
    ensures
        final(store).wf(),
        frames@.len() == 6,
        ({
            let r1 = spec_motor1_rpm(x as int, y as int, z as int) as i16;
            let r2 = spec_motor2_rpm(x as int, y as int, z as int) as i16;
            let r3 = spec_motor3_rpm(x as int, y as int, z as int) as i16;
            &&& *final(store) == old(store).with_target(1, r1).with_target(2, r2).with_target(
                3,
                r3,
            )
            &&& frames@[0].id == spec_frame_id(1, ID_FUNCTION_SET_DRIVER_MODE)
            &&& frames@[0].data@ == driver_mode_payload(TARGET_DRIVER_MODE)
            &&& frames@[1].id == spec_frame_id(1, ID_FUNCTION_MODE6_SET_PARAM)
            &&& frames@[1].data@ == mode6_payload(r1)
            &&& frames@[2].id == spec_frame_id(2, ID_FUNCTION_SET_DRIVER_MODE)
            &&& frames@[2].data@ == driver_mode_payload(TARGET_DRIVER_MODE)
            &&& frames@[3].id == spec_frame_id(2, ID_FUNCTION_MODE6_SET_PARAM)
            &&& frames@[3].data@ == mode6_payload(r2)
            &&& frames@[4].id == spec_frame_id(3, ID_FUNCTION_SET_DRIVER_MODE)
            &&& frames@[4].data@ == driver_mode_payload(TARGET_DRIVER_MODE)
            &&& frames@[5].id == spec_frame_id(3, ID_FUNCTION_MODE6_SET_PARAM)
            &&& frames@[5].data@ == mode6_payload(r3)
        }),
{
    let (r1, r2, r3) = base_spd_2_motors_rpm(x, y, z);
    let mut frames: Vec<CommandFrame> = Vec::new();
    let (mode1, param1) = rotate_motor(&mut store.motor1, r1);
    frames.push(mode1);
    frames.push(param1);
    let (mode2, param2) = rotate_motor(&mut store.motor2, r2);
    frames.push(mode2);
    frames.push(param2);
    let (mode3, param3) = rotate_motor(&mut store.motor3, r3);
    frames.push(mode3);
    frames.push(param3);
    frames
}

} // verus!
