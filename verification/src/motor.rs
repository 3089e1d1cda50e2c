//! Per-motor state and the store that owns one record per physical motor.
//!
//! Each record is read and written as a whole: every update below fixes the
//! complete record it touches and leaves the other motors' records
//! untouched, so one access always observes a consistent snapshot of one
//! motor's fields. Mutual exclusion between concurrent users is the
//! caller's affair; it need only be per record, since no operation here
//! reaches across records.

use crate::protocol::is_valid_motor_id;
use vstd::prelude::*;

verus! {

/// Live state of one physical wheel motor.
pub struct Motor {
    /// Instance number on the bus, unique per motor, immutable.
    pub id_number: u8,
    /// Latest driver-enable state decoded from an inbound heartbeat.
    pub enabled: bool,
    /// Latest measured wheel rate, rotations per minute. Present for
    /// telemetry to fill; no inbound function code decodes into it yet.
    pub read_speed: i16,
    /// Rate most recently commanded by the transmit path, rotations per
    /// minute.
    pub target_speed: i16,
}

/// The state a motor record holds at construction, before any telemetry
/// or command has touched it.
pub open spec fn initial_motor(id_number: u8) -> Motor {
    Motor { id_number, enabled: false, read_speed: 0, target_speed: 0 }
}

impl Motor {
    /// A motor record carries one of the chassis's fixed instance numbers.
    pub open spec fn wf(self) -> bool {
        is_valid_motor_id(self.id_number)
    }

    /// Creates the record for one physical motor: disabled, both rates zero.
    pub fn new(id_number: u8) -> (m: Motor)
        requires
            is_valid_motor_id(id_number),
        ensures
            m == initial_motor(id_number),
            m.wf(),
    {
        Motor { id_number, enabled: false, read_speed: 0, target_speed: 0 }
    }

    /// Records the driver-enable state reported by a heartbeat; no other
    /// field moves.
    pub fn set_enabled(&mut self, enabled: bool)
        ensures
            *final(self) == (Motor { enabled, ..*old(self) }),
    {
        self.enabled = enabled;
    }

    /// Records the rate the transmit path is about to command; no other
    /// field moves.
    pub fn set_target_speed(&mut self, rate: i16)
        ensures
            *final(self) == (Motor { target_speed: rate, ..*old(self) }),
    {
        self.target_speed = rate;
    }
}

/// One record per physical motor, exclusively owned: the only shared
/// mutable state of the system. The receive path writes enable state, the
/// transmit path writes target rates; neither touches any record other
/// than the one it addresses.
pub struct MotorStore {
    pub motor1: Motor,
    pub motor2: Motor,
    pub motor3: Motor,
}

impl MotorStore {
    /// Each record carries its own instance number.
    pub open spec fn wf(self) -> bool {
        &&& self.motor1.id_number == 1
        &&& self.motor2.id_number == 2
        &&& self.motor3.id_number == 3
    }

    /// The record addressed by a motor instance number.
    pub open spec fn spec_motor(self, motor_id: u8) -> Motor {
        if motor_id == 1 {
            self.motor1
        } else if motor_id == 2 {
            self.motor2
        } else {
            self.motor3
        }
    }

    /// The store after the addressed record's enable state is replaced;
    /// an instance number outside the fixed set leaves the store unchanged.
    pub open spec fn with_enabled(self, motor_id: u8, enabled: bool) -> MotorStore {
        if motor_id == 1 {
            MotorStore { motor1: Motor { enabled, ..self.motor1 }, ..self }
        } else if motor_id == 2 {
            MotorStore { motor2: Motor { enabled, ..self.motor2 }, ..self }
        } else if motor_id == 3 {
            MotorStore { motor3: Motor { enabled, ..self.motor3 }, ..self }
        } else {
            self
        }
    }

    /// The store after the addressed record's target rate is replaced;
    /// an instance number outside the fixed set leaves the store unchanged.
    pub open spec fn with_target(self, motor_id: u8, rate: i16) -> MotorStore {
        if motor_id == 1 {
            MotorStore { motor1: Motor { target_speed: rate, ..self.motor1 }, ..self }
        } else if motor_id == 2 {
            MotorStore { motor2: Motor { target_speed: rate, ..self.motor2 }, ..self }
        } else if motor_id == 3 {
            MotorStore { motor3: Motor { target_speed: rate, ..self.motor3 }, ..self }
        } else {
            self
        }
    }

    /// Creates the store with one fresh record per physical motor.
    pub fn new() -> (s: MotorStore)
        ensures
            s.motor1 == initial_motor(1),
            s.motor2 == initial_motor(2),
            s.motor3 == initial_motor(3),
            s.wf(),
    {
        MotorStore { motor1: Motor::new(1), motor2: Motor::new(2), motor3: Motor::new(3) }
    }

    /// Applies a decoded heartbeat: replaces the enable state of exactly
    /// the addressed record, in one step, leaving every other record and
    /// every other field as it was. A heartbeat addressed to no known
    /// motor changes nothing.
    pub fn apply_heartbeat(&mut self, motor_id: u8, enabled: bool)
        ensures
            *final(self) == old(self).with_enabled(motor_id, enabled),
    {
        if motor_id == 1 {
            self.motor1.set_enabled(enabled);
        } else if motor_id == 2 {
            self.motor2.set_enabled(enabled);
        } else if motor_id == 3 {
            self.motor3.set_enabled(enabled);
        }
    }

    /// Records the rate about to be commanded to exactly the addressed
    /// record, in one step, leaving every other record and every other
    /// field as it was.
    pub fn set_target(&mut self, motor_id: u8, rate: i16)
        ensures
            *final(self) == old(self).with_target(motor_id, rate),
    {
        if motor_id == 1 {
            self.motor1.set_target_speed(rate);
        } else if motor_id == 2 {
            self.motor2.set_target_speed(rate);
        } else if motor_id == 3 {
            self.motor3.set_target_speed(rate);
        }
    }

    /// Law: enable updates addressed to different motors land in disjoint
    /// records, so applying them in either order leaves the store the same
    /// -- the inbound path serializes per record, never across records.
    pub proof fn lemma_updates_to_different_motors_commute(
        self,
        a: u8,
        b: u8,
        enabled_a: bool,
        enabled_b: bool,
    )
        requires
            a != b,
        ensures
            self.with_enabled(a, enabled_a).with_enabled(b, enabled_b) == self.with_enabled(
                b,
                enabled_b,
            ).with_enabled(a, enabled_a),
    {
    }

    /// Law: the receive path writes only enable state and the transmit
    /// path only target rates, so their updates commute even when both
    /// address the same motor: neither can tear the other's write.
    pub proof fn lemma_writer_classes_commute(self, a: u8, b: u8, enabled: bool, rate: i16)
        ensures
            self.with_enabled(a, enabled).with_target(b, rate) == self.with_target(
                b,
                rate,
            ).with_enabled(a, enabled),
    {
    }

    /// The enable state last reported for the addressed motor.
    pub fn enabled_of(&self, motor_id: u8) -> (r: bool)
        requires
            is_valid_motor_id(motor_id),
        ensures
            r == self.spec_motor(motor_id).enabled,
    {
        if motor_id == 1 {
            self.motor1.enabled
        } else if motor_id == 2 {
            self.motor2.enabled
        } else {
            self.motor3.enabled
        }
    }

    /// The rate last recorded as commanded for the addressed motor.
    pub fn target_of(&self, motor_id: u8) -> (r: i16)
        requires
            is_valid_motor_id(motor_id),
        ensures
            r == self.spec_motor(motor_id).target_speed,
    {
        if motor_id == 1 {
            self.motor1.target_speed
        } else if motor_id == 2 {
            self.motor2.target_speed
        } else {
            self.motor3.target_speed
        }
    }
}

} // verus!
