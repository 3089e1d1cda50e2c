//! Codec for the motor-controller CAN protocol family.
//!
//! A 32-bit extended CAN identifier encodes, from most to least significant
//! byte: device class, device type, motor instance number, function code.
//! Class and type are fixed constants for this motor family. Payloads are
//! always eight bytes; bytes without a meaning for the given function code
//! are padded with a fixed filler value.

use vstd::arithmetic::div_mod::lemma_fundamental_div_mod;
use vstd::arithmetic::div_mod::lemma_fundamental_div_mod_converse;
use vstd::prelude::*;

verus! {

broadcast use vstd::array::group_array_axioms;

/// Device-class byte shared by every frame of this motor-controller family.
pub const ID_CLASS_MOTOR: u8 = 0x05;
/// Device-type byte shared by every frame of this motor-controller family.
pub const ID_TYPE_MOTOR: u8 = 0x05;

/// Function code of the reboot command (outbound, no payload semantics).
pub const ID_FUNCTION_REBOOT: u8 = 0x00;
/// Function code of the driver-mode-select command (outbound).
pub const ID_FUNCTION_SET_DRIVER_MODE: u8 = 0x01;
/// Function code of the mode-6 set-parameter command (outbound).
pub const ID_FUNCTION_MODE6_SET_PARAM: u8 = 0x06;
/// Function code of the heartbeat telemetry frame (inbound).
pub const ID_FUNCTION_HEARTBEAT: u8 = 0xB0;

/// Filler byte used to pad every outbound payload to eight bytes.
pub const FILLER_BYTE: u8 = 0x55;

/// Fixed 16-bit parameter (acceleration/limit constant) carried in bytes 0-1
/// of every mode-6 set-parameter command, big endian.
pub const MODE6_FIXED_PARAM: u16 = 4000;

/// The chassis has exactly three wheel motors, numbered 1 through 3.
pub open spec fn is_valid_motor_id(motor_id: u8) -> bool {
    1 <= motor_id <= 3
}

/// The 32-bit extended identifier as a mathematical integer: class and type
/// in the two high bytes, then the motor instance number, then the function
/// code in the low byte.
pub open spec fn spec_frame_id(instance: u8, function: u8) -> int {
    0x0505_0000 + instance * 0x100 + function
}

/// Device-class byte of an identifier (most significant byte).
pub open spec fn spec_id_class(id: u32) -> int {
    id as int / 0x100_0000
}

/// Device-type byte of an identifier (second most significant byte).
pub open spec fn spec_id_type(id: u32) -> int {
    (id as int / 0x1_0000) % 0x100
}

/// Motor instance byte of an identifier.
pub open spec fn spec_id_instance(id: u32) -> int {
    (id as int / 0x100) % 0x100
}

/// Function-code byte of an identifier (least significant byte).
pub open spec fn spec_id_function(id: u32) -> int {
    id as int % 0x100
}

/// One frame of this protocol: a 32-bit extended identifier and its
/// eight-byte data payload. Only data frames (never remote-request frames)
/// are produced or consumed.
#[derive(Clone, Copy, Debug)]
pub struct CommandFrame {
    pub id: u32,
    pub data: [u8; 8],
}

/// An encode request was rejected before any frame was built.
#[derive(Clone, Copy, PartialEq, Eq, Structural, Debug)]
pub enum EncodingError {
    /// The motor identifier is outside the chassis's fixed set (1 through 3).
    InvalidMotorId,
}

/// What an inbound identifier/payload pair means to this system.
#[derive(Clone, Copy, PartialEq, Eq, Structural, Debug)]
pub enum Classification {
    /// Outside this protocol family, or addressed to no known motor: ignored.
    Irrelevant,
    /// Within the family and addressed to a known motor, but the function
    /// code has no decoder yet.
    Unhandled { motor_id: u8, function: u8 },
    /// A heartbeat reporting the motor's driver-enable state.
    Heartbeat { motor_id: u8, enabled: bool },
}

/// The all-filler payload of a reboot command.
pub open spec fn reboot_payload() -> Seq<u8> {
    seq![
        FILLER_BYTE,
        FILLER_BYTE,
        FILLER_BYTE,
        FILLER_BYTE,
        FILLER_BYTE,
        FILLER_BYTE,
        FILLER_BYTE,
        FILLER_BYTE,
    ]
}

/// The payload of a driver-mode-select command: the mode value in byte 0,
/// filler elsewhere.
pub open spec fn driver_mode_payload(mode: u8) -> Seq<u8> {
    seq![
        mode,
        FILLER_BYTE,
        FILLER_BYTE,
        FILLER_BYTE,
        FILLER_BYTE,
        FILLER_BYTE,
        FILLER_BYTE,
        FILLER_BYTE,
    ]
}

/// The two's-complement 16-bit pattern of a signed rate, as an integer in
/// 0 .. 0x10000.
pub open spec fn spec_u16_bits_of_i16(rate: i16) -> int {
    if rate >= 0 {
        rate as int
    } else {
        rate + 0x1_0000
    }
}

/// The signed value read back from a big-endian 16-bit byte pair.
pub open spec fn spec_i16_be(hi: u8, lo: u8) -> int {
    let bits = hi * 0x100 + lo;
    if bits >= 0x8000 {
        bits - 0x1_0000
    } else {
        bits
    }
}

/// The payload of a mode-6 set-parameter command: the fixed parameter in
/// bytes 0-1 and the signed target rate in bytes 2-3, both big endian,
/// filler elsewhere.
pub open spec fn mode6_payload(rate: i16) -> Seq<u8> {
    seq![
        (MODE6_FIXED_PARAM as int / 0x100) as u8,
        (MODE6_FIXED_PARAM as int % 0x100) as u8,
        (spec_u16_bits_of_i16(rate) / 0x100) as u8,
        (spec_u16_bits_of_i16(rate) % 0x100) as u8,
        FILLER_BYTE,
        FILLER_BYTE,
        FILLER_BYTE,
        FILLER_BYTE,
    ]
}

/// Builds the extended frame identifier for one motor instance and one
/// function code.
pub fn make_frame_id(instance: u8, function: u8) -> (r: u32)
    ensures
        r == spec_frame_id(instance, function),
{
    0x0505_0000u32 + (instance as u32) * 0x100 + (function as u32)
}

/// Splits a signed rate into its big-endian two's-complement byte pair.
fn encode_i16_be(rate: i16) -> (bytes: (u8, u8))
    ensures
        bytes.0 == (spec_u16_bits_of_i16(rate) / 0x100) as u8,
        bytes.1 == (spec_u16_bits_of_i16(rate) % 0x100) as u8,
        spec_i16_be(bytes.0, bytes.1) == rate,
{
    let bits: u16 = if rate >= 0 {
        rate as u16
    } else {
        ((rate as i32) + 0x1_0000) as u16
    };
    assert(bits == spec_u16_bits_of_i16(rate));
    ((bits / 0x100) as u8, (bits % 0x100) as u8)
}

/// Reads a signed rate back from its big-endian byte pair, as laid out in
/// bytes 2-3 of a mode-6 set-parameter payload.
pub fn decode_i16_be(hi: u8, lo: u8) -> (r: i16)
    ensures
        r == spec_i16_be(hi, lo),
{
    let bits: u32 = (hi as u32) * 0x100 + (lo as u32);
    if bits >= 0x8000 {
        ((bits as i32) - 0x1_0000) as i16
    } else {
        bits as i16
    }
}

/// Assembles a frame of this family for an already-validated motor instance.
pub(crate) fn build_frame(motor_id: u8, function: u8, data: [u8; 8]) -> (f: CommandFrame)
    ensures
        f.id == spec_frame_id(motor_id, function),
        f.data == data,
{
    CommandFrame { id: make_frame_id(motor_id, function), data }
}

/// Assembles a reboot command frame for any instance byte; the public
/// encoder validates the instance first.
pub(crate) fn build_reboot_frame(motor_id: u8) -> (f: CommandFrame)
    ensures
        f.id == spec_frame_id(motor_id, ID_FUNCTION_REBOOT),
        f.data@ == reboot_payload(),
{
    let data: [u8; 8] = [
        FILLER_BYTE,
        FILLER_BYTE,
        FILLER_BYTE,
        FILLER_BYTE,
        FILLER_BYTE,
        FILLER_BYTE,
        FILLER_BYTE,
        FILLER_BYTE,
    ];
    assert(data@ =~= reboot_payload());
    build_frame(motor_id, ID_FUNCTION_REBOOT, data)
}

/// Assembles a driver-mode-select command frame for any instance byte; the
/// public encoder validates the instance first.
pub(crate) fn build_driver_mode_frame(motor_id: u8, mode: u8) -> (f: CommandFrame)
    ensures
        f.id == spec_frame_id(motor_id, ID_FUNCTION_SET_DRIVER_MODE),
        f.data@ == driver_mode_payload(mode),
{
    let data: [u8; 8] = [
        mode,
        FILLER_BYTE,
        FILLER_BYTE,
        FILLER_BYTE,
        FILLER_BYTE,
        FILLER_BYTE,
        FILLER_BYTE,
        FILLER_BYTE,
    ];
    assert(data@ =~= driver_mode_payload(mode));
    build_frame(motor_id, ID_FUNCTION_SET_DRIVER_MODE, data)
}

/// Assembles a mode-6 set-parameter command frame for any instance byte;
/// the public encoder validates the instance first.
pub(crate) fn build_mode6_frame(motor_id: u8, rate: i16) -> (f: CommandFrame)
    ensures
        f.id == spec_frame_id(motor_id, ID_FUNCTION_MODE6_SET_PARAM),
        f.data@ == mode6_payload(rate),
{
    let (hi, lo) = encode_i16_be(rate);
    let data: [u8; 8] = [
        (MODE6_FIXED_PARAM / 0x100) as u8,
        (MODE6_FIXED_PARAM % 0x100) as u8,
        hi,
        lo,
        FILLER_BYTE,
        FILLER_BYTE,
        FILLER_BYTE,
        FILLER_BYTE,
    ];
    assert(data@ =~= mode6_payload(rate));
    build_frame(motor_id, ID_FUNCTION_MODE6_SET_PARAM, data)
}

/// Encodes a reboot command: function code 0x00 and an all-filler payload.
/// Rejects a motor identifier outside the chassis's fixed set.
pub fn generate_reboot_command(motor_id: u8) -> (r: Result<CommandFrame, EncodingError>)
    ensures
        (match r {
            Ok(f) => is_valid_motor_id(motor_id) && f.id == spec_frame_id(
                motor_id,
                ID_FUNCTION_REBOOT,
            ) && f.data@ == reboot_payload(),
            Err(e) => !is_valid_motor_id(motor_id) && e == EncodingError::InvalidMotorId,
        }),
{
    if motor_id < 1 || motor_id > 3 {
        return Err(EncodingError::InvalidMotorId);
    }
    Ok(build_reboot_frame(motor_id))
}

/// Encodes a driver-mode-select command: the mode value in payload byte 0.
/// Rejects a motor identifier outside the chassis's fixed set.
pub fn encode_set_driver_mode(motor_id: u8, mode: u8) -> (r: Result<CommandFrame, EncodingError>)
    ensures
        (match r {
            Ok(f) => is_valid_motor_id(motor_id) && f.id == spec_frame_id(
                motor_id,
                ID_FUNCTION_SET_DRIVER_MODE,
            ) && f.data@ == driver_mode_payload(mode),
            Err(e) => !is_valid_motor_id(motor_id) && e == EncodingError::InvalidMotorId,
        }),
{
    if motor_id < 1 || motor_id > 3 {
        return Err(EncodingError::InvalidMotorId);
    }
    Ok(build_driver_mode_frame(motor_id, mode))
}

/// Encodes a mode-6 set-parameter command: the fixed parameter in bytes 0-1
/// and the signed target rate in bytes 2-3, big endian. Rejects a motor
/// identifier outside the chassis's fixed set.
pub fn encode_mode6_set_param(motor_id: u8, rate: i16) -> (r: Result<CommandFrame, EncodingError>)
    ensures
        (match r {
            Ok(f) => is_valid_motor_id(motor_id) && f.id == spec_frame_id(
                motor_id,
                ID_FUNCTION_MODE6_SET_PARAM,
            ) && f.data@ == mode6_payload(rate),
            Err(e) => !is_valid_motor_id(motor_id) && e == EncodingError::InvalidMotorId,
        }),
{
    if motor_id < 1 || motor_id > 3 {
        return Err(EncodingError::InvalidMotorId);
    }
    Ok(build_mode6_frame(motor_id, rate))
}

/// What an inbound frame means: outside the family (by class or type byte,
/// or by an unknown motor instance) it is irrelevant; a heartbeat decodes
/// the enable flag from payload byte 0 (one means enabled, anything else
/// disabled); any other family function code is recognized but unhandled.
pub open spec fn spec_classify(id: u32, data: Seq<u8>) -> Classification {
    if spec_id_class(id) != ID_CLASS_MOTOR || spec_id_type(id) != ID_TYPE_MOTOR {
        Classification::Irrelevant
    } else if !is_valid_motor_id(spec_id_instance(id) as u8) {
        Classification::Irrelevant
    } else if spec_id_function(id) == ID_FUNCTION_HEARTBEAT {
        Classification::Heartbeat {
            motor_id: spec_id_instance(id) as u8,
            enabled: data[0] == 1,
        }
    } else {
        Classification::Unhandled {
            motor_id: spec_id_instance(id) as u8,
            function: spec_id_function(id) as u8,
        }
    }
}

/// Law: every identifier this codec builds fits a 32-bit extended
/// identifier, and its four byte fields read back exactly what went in:
/// the family's class and type constants, the motor instance and the
/// function code.
pub proof fn lemma_frame_id_fields(instance: u8, function: u8)
    ensures
        0 <= spec_frame_id(instance, function) <= 0x0505_FFFF,
        spec_id_class(spec_frame_id(instance, function) as u32) == ID_CLASS_MOTOR,
        spec_id_type(spec_frame_id(instance, function) as u32) == ID_TYPE_MOTOR,
        spec_id_instance(spec_frame_id(instance, function) as u32) == instance,
        spec_id_function(spec_frame_id(instance, function) as u32) == function,
{
    let id = spec_frame_id(instance, function);
    assert(id == (spec_frame_id(instance, function) as u32) as int);
    lemma_fundamental_div_mod_converse(id, 0x100, 0x0505_00 + instance, function as int);
    lemma_fundamental_div_mod_converse(0x0505_00 + instance, 0x100, 0x0505, instance as int);
    lemma_fundamental_div_mod_converse(id, 0x1_0000, 0x0505, instance * 0x100 + function);
    lemma_fundamental_div_mod_converse(0x0505, 0x100, 0x05, 0x05);
    lemma_fundamental_div_mod_converse(
        id,
        0x100_0000,
        0x05,
        0x05_0000 + instance * 0x100 + function,
    );
}

/// Law: a mode-6 set-parameter command survives the round trip. The
/// identifier's byte fields recover the family constants, the motor
/// instance and the mode-6 function code, and payload bytes 2-3 decode,
/// big endian and signed, back to the target rate that was encoded.
pub proof fn lemma_mode6_round_trip(motor_id: u8, rate: i16)
    ensures
        spec_id_class(spec_frame_id(motor_id, ID_FUNCTION_MODE6_SET_PARAM) as u32)
            == ID_CLASS_MOTOR,
        spec_id_type(spec_frame_id(motor_id, ID_FUNCTION_MODE6_SET_PARAM) as u32)
            == ID_TYPE_MOTOR,
        spec_id_instance(spec_frame_id(motor_id, ID_FUNCTION_MODE6_SET_PARAM) as u32)
            == motor_id,
        spec_id_function(spec_frame_id(motor_id, ID_FUNCTION_MODE6_SET_PARAM) as u32)
            == ID_FUNCTION_MODE6_SET_PARAM,
        spec_i16_be(mode6_payload(rate)[2], mode6_payload(rate)[3]) == rate,
{
    lemma_frame_id_fields(motor_id, ID_FUNCTION_MODE6_SET_PARAM);
    let bits = spec_u16_bits_of_i16(rate);
    assert(0 <= bits < 0x1_0000);
    lemma_fundamental_div_mod(bits, 0x100);
    let hi = mode6_payload(rate)[2];
    let lo = mode6_payload(rate)[3];
    assert(hi == bits / 0x100 && lo == bits % 0x100);
    assert(hi * 0x100 + lo == bits);
}

/// Law: a frame of this family carrying the heartbeat function code and
/// addressed to a known motor classifies as that motor's heartbeat, with
/// the enable flag read from payload byte 0.
pub proof fn lemma_heartbeat_classified(motor_id: u8, data: Seq<u8>)
    requires
        is_valid_motor_id(motor_id),
    ensures
        spec_classify(spec_frame_id(motor_id, ID_FUNCTION_HEARTBEAT) as u32, data) == (
        Classification::Heartbeat { motor_id, enabled: data[0] == 1 }),
{
    lemma_frame_id_fields(motor_id, ID_FUNCTION_HEARTBEAT);
}

/// Law: a frame whose class or type byte does not match this protocol
/// family is classified as irrelevant, whatever its payload holds.
pub proof fn lemma_foreign_family_irrelevant(id: u32, data: Seq<u8>)
    requires
        spec_id_class(id) != ID_CLASS_MOTOR || spec_id_type(id) != ID_TYPE_MOTOR,
    ensures
        spec_classify(id, data) == Classification::Irrelevant,
{
}

/// Classifies an inbound frame by its identifier bytes and, for a heartbeat,
/// decodes the enable flag from payload byte 0.
pub fn classify(id: u32, data: &[u8; 8]) -> (c: Classification)
    ensures
        c == spec_classify(id, data@),
{
    let class: u32 = id / 0x100_0000;
    let dev_type: u32 = (id / 0x1_0000) % 0x100;
    let instance: u32 = (id / 0x100) % 0x100;
    let function: u32 = id % 0x100;
    if class != (ID_CLASS_MOTOR as u32) || dev_type != (ID_TYPE_MOTOR as u32) {
        Classification::Irrelevant
    } else if instance < 1 || instance > 3 {
        Classification::Irrelevant
    } else if function == (ID_FUNCTION_HEARTBEAT as u32) {
        Classification::Heartbeat { motor_id: instance as u8, enabled: data[0] == 1 }
    } else {
        Classification::Unhandled { motor_id: instance as u8, function: function as u8 }
    }
}

} // verus!
