//! The decoded telemetry record.
//!
//! A record is a plain value. It keeps every field as it stood in the
//! datagram: nothing is clamped, scaled or checked against a range.

use vstd::prelude::*;

verus! {

/// An IEEE-754 single-precision number, kept as its 32 bits.
///
/// The codec moves such numbers without interpreting them, so the record
/// carries the bit pattern; a caller turns it into a number where it needs one.
#[derive(Clone, Copy, Debug, PartialEq, Eq, Structural)]
pub struct FloatBits {
    pub bits: u32,
}

/// Three numbers along the car's x, y and z axes.
#[derive(Clone, Copy, Debug, PartialEq, Eq, Structural)]
pub struct Vector3 {
    pub x: FloatBits,
    pub y: FloatBits,
    pub z: FloatBits,
}

/// One number for each corner of the car.
#[derive(Clone, Copy, Debug, PartialEq, Eq, Structural)]
pub struct Corners {
    pub front_left: FloatBits,
    pub front_right: FloatBits,
    pub rear_left: FloatBits,
    pub rear_right: FloatBits,
}

/// One integer flag for each corner of the car.
#[derive(Clone, Copy, Debug, PartialEq, Eq, Structural)]
pub struct CornerFlags {
    pub front_left: u32,
    pub front_right: u32,
    pub rear_left: u32,
    pub rear_right: u32,
}

/// Race and engine state.
#[derive(Clone, Copy, Debug, PartialEq, Eq, Structural)]
pub struct RaceState {
    /// Whether a race is running: the datagram's race flag is above zero.
    pub is_race_on: bool,
    pub timestamp_ms: u32,
    pub engine_max_rpm: FloatBits,
    pub engine_idle_rpm: FloatBits,
    pub current_engine_rpm: FloatBits,
}

/// Motion of the car body.
#[derive(Clone, Copy, Debug, PartialEq, Eq, Structural)]
pub struct Kinematics {
    pub acceleration: Vector3,
    pub velocity: Vector3,
    pub angular_velocity: Vector3,
    pub yaw: FloatBits,
    pub pitch: FloatBits,
    pub roll: FloatBits,
}

/// Suspension, tire and wheel quantities, each per corner.
#[derive(Clone, Copy, Debug, PartialEq, Eq, Structural)]
pub struct WheelState {
    pub normalized_suspension_travel: Corners,
    pub tire_slip_ratio: Corners,
    pub wheel_rotation_speed: Corners,
    pub wheel_on_rumble_strip: CornerFlags,
    pub wheel_in_puddle_depth: Corners,
    pub surface_rumble: Corners,
    pub tire_slip_angle: Corners,
    pub tire_combined_slip: Corners,
    pub suspension_travel_meters: Corners,
}

/// What kind of car is driven.
#[derive(Clone, Copy, Debug, PartialEq, Eq, Structural)]
pub struct CarClass {
    pub car_ordinal: u32,
    pub car_class: u32,
    pub car_performance_index: u32,
    pub drivetrain_type: u32,
    pub num_cylinders: u32,
}

/// The dashboard block: what a head-up display would show.
#[derive(Clone, Copy, Debug, PartialEq, Eq, Structural)]
pub struct Dashboard {
    pub position: Vector3,
    pub speed: FloatBits,
    pub power: FloatBits,
    pub torque: FloatBits,
    pub tire_temp: Corners,
    pub boost: FloatBits,
    pub fuel: FloatBits,
    pub distance_traveled: FloatBits,
    pub best_lap: FloatBits,
    pub last_lap: FloatBits,
    pub current_lap: FloatBits,
    pub current_race_time: FloatBits,
    pub lap_number: u16,
    pub race_position: u8,
    pub accelerator: u8,
    pub brake: u8,
    pub clutch: u8,
    pub hand_brake: u8,
    pub gear: u8,
    pub steer: i8,
    pub normalized_driving_line: i8,
    pub normalized_ai_brake_difference: i8,
}

/// Everything one datagram says.
#[derive(Clone, Copy, Debug, PartialEq, Eq, Structural)]
pub struct TelemetryRecord {
    pub race: RaceState,
    pub motion: Kinematics,
    pub wheels: WheelState,
    pub car: CarClass,
    pub dashboard: Dashboard,
}

} // verus!
