//! Kinematics transform for a three-wheeled omnidirectional chassis.
//!
//! The three wheels sit at 120-degree intervals around a chassis of radius
//! 0.3274 m, with wheels of radius 0.103 m behind a 1:1 reduction. A
//! body-frame velocity (forward, lateral, angular) maps to one signed linear
//! speed per wheel, each a fixed linear combination of the three components;
//! the linear speed is then converted to rotations per minute via
//! `rate = linear_speed * reduction_ratio * 60 / (2 * pi * wheel_radius)`,
//! truncated toward zero and then saturated to the 16-bit signed range of
//! the controller's rate field.
//!
//! All quantities are held in scaled integers with documented units:
//!   - inputs: forward and lateral speed in millimeters/second, angular rate
//!     in milliradians/second, each bounded by [`MAX_BODY_SPEED_MILLI`];
//!   - wheel linear speeds in nanometers/second, so each mounting-angle
//!     coefficient below is the nanometers/second contributed per input
//!     milliunit (the trigonometric constants kept to six decimal places);
//!   - the speed-to-rate factor `60 / (2 * pi * 0.103) = 92.7116...` held as
//!     [`RPM_PER_MS_NUM`] / 10^4, so a linear speed of `lin` nm/s becomes
//!     `lin * RPM_PER_MS_NUM / RPM_SCALE_DEN` rotations per minute.

use vstd::arithmetic::div_mod::lemma_fundamental_div_mod;
use vstd::prelude::*;

verus! {

/// Largest accepted magnitude for each body-velocity component, in
/// milliunits (one thousand meters/second or radians/second) -- far beyond
/// any physical chassis speed, but small enough that every intermediate
/// product below fits its machine integer.
pub const MAX_BODY_SPEED_MILLI: i32 = 1_000_000;

/// Nanometers/second of wheel linear speed per millimeter/second of lateral
/// velocity at full weight (a coefficient of one).
pub const LATERAL_FULL_COEFF: i64 = 1_000_000;

/// Nanometers/second per millimeter/second of lateral velocity at half
/// weight (cos of the 120-degree mounting offset).
pub const LATERAL_HALF_COEFF: i64 = 500_000;

/// Nanometers/second per millimeter/second of forward velocity (sin of the
/// 120-degree mounting offset, sqrt(3)/2 = 0.866025, six decimal places).
pub const FORWARD_COEFF: i64 = 866_025;

/// Nanometers/second of wheel linear speed per milliradian/second of
/// angular rate: the chassis radius, 0.3274 m.
pub const ANGULAR_COEFF: i64 = 327_400;

/// Numerator of the linear-speed-to-rate factor
/// `60 / (2 * pi * 0.103) = 92.7116...`, held to four decimal places over
/// an implicit denominator of 10^4.
pub const RPM_PER_MS_NUM: u64 = 927_116;

/// Denominator converting nanometers/second times [`RPM_PER_MS_NUM`] to
/// whole rotations per minute: 10^9 (nano) times 10^4 (the factor's
/// decimal places).
pub const RPM_SCALE_DEN: u64 = 10_000_000_000_000;

/// Wheel 1's linear speed (nanometers/second) for a body velocity given as
/// forward `x` mm/s, lateral `y` mm/s, angular `z` mrad/s. Wheel 1 faces
/// the lateral axis: forward motion contributes nothing to it.
pub open spec fn spec_wheel1_linear(x: int, y: int, z: int) -> int {
    -y * LATERAL_FULL_COEFF + z * ANGULAR_COEFF
}

/// Wheel 2's linear speed (nanometers/second) for the same body velocity.
pub open spec fn spec_wheel2_linear(x: int, y: int, z: int) -> int {
    y * LATERAL_HALF_COEFF + z * ANGULAR_COEFF - x * FORWARD_COEFF
}

/// Wheel 3's linear speed (nanometers/second) for the same body velocity.
/// Wheels 2 and 3 sit mirrored about the lateral axis (mounting angles 120
/// and 240 degrees), so they share the lateral term and take the forward
/// term with opposite signs; the angular term, a spin about the chassis
/// centre, drives every wheel alike.
pub open spec fn spec_wheel3_linear(x: int, y: int, z: int) -> int {
    x * FORWARD_COEFF + y * LATERAL_HALF_COEFF + z * ANGULAR_COEFF
}

/// A wheel linear speed in nanometers/second converted to rotations per
/// minute: scaled by the rate factor, truncated toward zero, then saturated
/// to the 16-bit signed range of the controller's rate field.
pub open spec fn spec_rpm_of_linear(lin: int) -> int {
    let scaled = if lin >= 0 {
        (lin * RPM_PER_MS_NUM) / (RPM_SCALE_DEN as int)
    } else {
        -(((-lin) * RPM_PER_MS_NUM) / (RPM_SCALE_DEN as int))
    };
    if scaled > i16::MAX {
        i16::MAX as int
    } else if scaled < i16::MIN {
        i16::MIN as int
    } else {
        scaled
    }
}

/// Wheel 1's commanded rate for a body velocity, rotations per minute.
pub open spec fn spec_motor1_rpm(x: int, y: int, z: int) -> int {
    spec_rpm_of_linear(spec_wheel1_linear(x, y, z))
}

/// Wheel 2's commanded rate for a body velocity, rotations per minute.
pub open spec fn spec_motor2_rpm(x: int, y: int, z: int) -> int {
    spec_rpm_of_linear(spec_wheel2_linear(x, y, z))
}

/// Wheel 3's commanded rate for a body velocity, rotations per minute.
pub open spec fn spec_motor3_rpm(x: int, y: int, z: int) -> int {
    spec_rpm_of_linear(spec_wheel3_linear(x, y, z))
}

/// True when every component of a body velocity is within the accepted
/// input range.
pub open spec fn is_valid_body_speed(x: int, y: int, z: int) -> bool {
    &&& -MAX_BODY_SPEED_MILLI <= x <= MAX_BODY_SPEED_MILLI
    &&& -MAX_BODY_SPEED_MILLI <= y <= MAX_BODY_SPEED_MILLI
    &&& -MAX_BODY_SPEED_MILLI <= z <= MAX_BODY_SPEED_MILLI
}

/// Converts one wheel linear speed (nanometers/second) to a commanded rate.
fn rpm_of_linear(lin: i64) -> (r: i16)
    requires
        -2_000_000_000_000 <= lin <= 2_000_000_000_000,
    ensures
        r == spec_rpm_of_linear(lin as int),
{
    if lin >= 0 {
        let mag: u64 = lin as u64;
        let q: u64 = (mag * RPM_PER_MS_NUM) / RPM_SCALE_DEN;
        if q > (i16::MAX as u64) {
            i16::MAX
        } else {
            q as i16
        }
    } else {
        let mag: u64 = (-lin) as u64;
        let q: u64 = (mag * RPM_PER_MS_NUM) / RPM_SCALE_DEN;
        if q > 32768 {
            i16::MIN
        } else if q == 32768 {
            i16::MIN
        } else {
            let pos: i16 = q as i16;
            -pos
        }
    }
}

/// Maps a body-frame velocity -- forward `x` mm/s, lateral `y` mm/s,
/// angular `z` mrad/s -- to the three wheels' commanded rates in rotations
/// per minute, truncated toward zero and saturated to the 16-bit signed
/// rate field. A pure function of its arguments.
pub fn base_spd_2_motors_rpm(x: i32, y: i32, z: i32) -> (rpm: (i16, i16, i16))
    requires
        is_valid_body_speed(x as int, y as int, z as int),
    ensures
        rpm.0 == spec_motor1_rpm(x as int, y as int, z as int),
        rpm.1 == spec_motor2_rpm(x as int, y as int, z as int),
        rpm.2 == spec_motor3_rpm(x as int, y as int, z as int),
{
    let xl: i64 = x as i64;
    let yl: i64 = y as i64;
    let zl: i64 = z as i64;
    let lin1: i64 = -yl * LATERAL_FULL_COEFF + zl * ANGULAR_COEFF;
    let lin2: i64 = yl * LATERAL_HALF_COEFF + zl * ANGULAR_COEFF - xl * FORWARD_COEFF;
    let lin3: i64 = xl * FORWARD_COEFF + yl * LATERAL_HALF_COEFF + zl * ANGULAR_COEFF;
    (rpm_of_linear(lin1), rpm_of_linear(lin2), rpm_of_linear(lin3))
}

/// Law: away from saturation the rate conversion truncates toward zero,
/// never rounding: a nonnegative scaled speed loses strictly less than one
/// whole rotation per minute and never gains, and the mirrored speed gets
/// exactly the negated rate (which floor division would not give).
pub proof fn lemma_rate_truncation_toward_zero(lin: int)
    requires
        lin >= 0,
        spec_rpm_of_linear(lin) < i16::MAX,
    ensures
        spec_rpm_of_linear(lin) * RPM_SCALE_DEN <= lin * RPM_PER_MS_NUM < (spec_rpm_of_linear(lin)
            + 1) * RPM_SCALE_DEN,
        spec_rpm_of_linear(-lin) == -spec_rpm_of_linear(lin),
{
    lemma_fundamental_div_mod(lin * RPM_PER_MS_NUM, RPM_SCALE_DEN as int);
}

/// Law: a chassis commanded to stand still is commanded no wheel rotation.
/// For body velocity (0, 0, 0) all three target rates equal zero.
pub proof fn lemma_zero_velocity_zero_rates()
    ensures
        spec_motor1_rpm(0, 0, 0) == 0,
        spec_motor2_rpm(0, 0, 0) == 0,
        spec_motor3_rpm(0, 0, 0) == 0,
{
}

/// Law: under a pure forward velocity the 120-degree wheel layout leaves
/// wheel 1 (which faces the lateral axis) uncommanded, and drives wheels 2
/// and 3 at equal magnitude with opposite signs: their linear speeds are
/// exact negatives, their rates never share a sign, and the rates are
/// exact negatives of each other wherever neither sits at the asymmetric
/// lower saturation bound of the 16-bit rate field.
pub proof fn lemma_pure_forward_symmetry(x: int)
    ensures
        spec_motor1_rpm(x, 0, 0) == 0,
        spec_wheel3_linear(x, 0, 0) == -spec_wheel2_linear(x, 0, 0),
        spec_motor2_rpm(x, 0, 0) >= 0 <==> spec_motor3_rpm(x, 0, 0) <= 0,
        spec_motor2_rpm(x, 0, 0) != i16::MIN && spec_motor3_rpm(x, 0, 0) != i16::MIN
            ==> spec_motor3_rpm(x, 0, 0) == -spec_motor2_rpm(x, 0, 0),
{
}

} // verus!
