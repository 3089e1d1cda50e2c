//! Drive for a three-wheeled omnidirectional chassis speaking a vendor
//! motor-controller protocol over a CAN bus: a kinematics transform from
//! body-frame velocity to per-wheel rate targets, a frame codec for the
//! controller's command and telemetry layouts, and a per-motor state store
//! updated by inbound telemetry.

use vstd::prelude::*;

mod dispatch;
mod kinematics;
mod motor;
mod protocol;

pub use dispatch::handle_inbound;
pub use dispatch::outbound_cycle;
pub use dispatch::rotate_motor;
pub use dispatch::startup_commands;
pub use dispatch::TARGET_DRIVER_MODE;

pub use motor::initial_motor;
pub use motor::Motor;
pub use motor::MotorStore;

pub use kinematics::base_spd_2_motors_rpm;
pub use kinematics::is_valid_body_speed;
pub use kinematics::lemma_pure_forward_symmetry;
pub use kinematics::lemma_rate_truncation_toward_zero;
pub use kinematics::lemma_zero_velocity_zero_rates;
pub use kinematics::spec_motor1_rpm;
pub use kinematics::spec_motor2_rpm;
pub use kinematics::spec_motor3_rpm;
pub use kinematics::spec_rpm_of_linear;
pub use kinematics::spec_wheel1_linear;
pub use kinematics::spec_wheel2_linear;
pub use kinematics::spec_wheel3_linear;
pub use kinematics::ANGULAR_COEFF;
pub use kinematics::FORWARD_COEFF;
pub use kinematics::LATERAL_FULL_COEFF;
pub use kinematics::LATERAL_HALF_COEFF;
pub use kinematics::MAX_BODY_SPEED_MILLI;
pub use kinematics::RPM_PER_MS_NUM;
pub use kinematics::RPM_SCALE_DEN;
pub use protocol::classify;
pub use protocol::decode_i16_be;
pub use protocol::driver_mode_payload;
pub use protocol::encode_mode6_set_param;
pub use protocol::encode_set_driver_mode;
pub use protocol::generate_reboot_command;
pub use protocol::is_valid_motor_id;
pub use protocol::lemma_foreign_family_irrelevant;
pub use protocol::lemma_frame_id_fields;
pub use protocol::lemma_heartbeat_classified;
pub use protocol::lemma_mode6_round_trip;
pub use protocol::make_frame_id;
pub use protocol::mode6_payload;
pub use protocol::reboot_payload;
pub use protocol::spec_classify;
pub use protocol::spec_frame_id;
pub use protocol::spec_i16_be;
pub use protocol::spec_id_class;
pub use protocol::spec_id_function;
pub use protocol::spec_id_instance;
pub use protocol::spec_id_type;
pub use protocol::spec_u16_bits_of_i16;
pub use protocol::Classification;
pub use protocol::CommandFrame;
pub use protocol::EncodingError;
pub use protocol::FILLER_BYTE;
pub use protocol::ID_CLASS_MOTOR;
pub use protocol::ID_FUNCTION_HEARTBEAT;
pub use protocol::ID_FUNCTION_MODE6_SET_PARAM;
pub use protocol::ID_FUNCTION_REBOOT;
pub use protocol::ID_FUNCTION_SET_DRIVER_MODE;
pub use protocol::ID_TYPE_MOTOR;
pub use protocol::MODE6_FIXED_PARAM;
