//! The telemetry codec: from the bytes of one datagram to a record.
//!
//! A datagram is told apart by its exact length. Every supported format
//! starts with the same 232-byte prefix and holds one 79-byte dashboard
//! block; the formats differ in where that block starts and in what follows
//! it. All multi-byte fields are big-endian.

use vstd::prelude::*;
use crate::record::{
    CarClass, CornerFlags, Corners, Dashboard, FloatBits, Kinematics, RaceState, TelemetryRecord,
    Vector3, WheelState,
};
use crate::wire::{be_u16, be_u32, signed, Cursor};

verus! {

/// Length of the prefix that all formats share.
pub const PREFIX_LEN: usize = 232;

/// Length of the dashboard block.
pub const DASHBOARD_LEN: usize = 79;

/// A datagram format that carries a dashboard block.
#[derive(Clone, Copy, Debug, PartialEq, Eq, Structural)]
pub enum Format {
    /// 311 bytes: the prefix, then the dashboard block.
    Dash,
    /// 324 bytes: twelve more bytes stand between prefix and dashboard block.
    Revised,
    /// 331 bytes: the dashboard block follows the prefix; more bytes follow it.
    Extended,
}

/// Why a datagram was not decoded.
#[derive(Clone, Copy, Debug, PartialEq, Eq, Structural)]
pub enum Unsupported {
    /// 232 bytes: the prefix alone, a legacy format without dashboard block.
    LegacySledOnly,
    /// Any other length.
    UnknownLength,
}

/// The format of a datagram of `len` bytes.
pub open spec fn classification(len: nat) -> Result<Format, Unsupported> {
    if len == 232 {
        Err(Unsupported::LegacySledOnly)
    } else if len == 311 {
        Ok(Format::Dash)
    } else if len == 324 {
        Ok(Format::Revised)
    } else if len == 331 {
        Ok(Format::Extended)
    } else {
        Err(Unsupported::UnknownLength)
    }
}

impl Format {
    /// The exact length of a datagram of this format.
    pub open spec fn datagram_len(self) -> nat {
        match self {
            Format::Dash => 311,
            Format::Revised => 324,
            Format::Extended => 331,
        }
    }

    /// Where the dashboard block starts.
    pub open spec fn dashboard_start(self) -> nat {
        match self {
            Format::Dash => 232,
            Format::Revised => 244,
            Format::Extended => 232,
        }
    }

    /// Where the dashboard block starts.
    pub fn dashboard_offset(self) -> (at: usize)
        ensures
            at == self.dashboard_start(),
    {
        match self {
            Format::Dash => 232,
            Format::Revised => 244,
            Format::Extended => 232,
        }
    }

    /// The exact length of a datagram of this format.
    pub fn length(self) -> (len: usize)
        ensures
            len == self.datagram_len(),
    {
        match self {
            Format::Dash => 311,
            Format::Revised => 324,
            Format::Extended => 331,
        }
    }
}

impl Unsupported {
    /// The reason in words.
    pub open spec fn reason_text(self) -> Seq<char> {
        match self {
            Unsupported::LegacySledOnly => "legacy sled-only format"@,
            Unsupported::UnknownLength => "unknown length"@,
        }
    }

    /// The reason in words.
    pub fn reason(self) -> (text: String)
        ensures
            text@ == self.reason_text(),
    {
        match self {
            Unsupported::LegacySledOnly => String::from_str("legacy sled-only format"),
            Unsupported::UnknownLength => String::from_str("unknown length"),
        }
    }
}

/// Tells the format of a datagram from its length.
pub fn classify(len: usize) -> (r: Result<Format, Unsupported>)
    ensures
        r == classification(len as nat),
{
    if len == 232 {
        Err(Unsupported::LegacySledOnly)
    } else if len == 311 {
        Ok(Format::Dash)
    } else if len == 324 {
        Ok(Format::Revised)
    } else if len == 331 {
        Ok(Format::Extended)
    } else {
        Err(Unsupported::UnknownLength)
    }
}

/// Classification and lengths agree, and in every format the prefix and the
/// dashboard block lie inside the datagram, the prefix before the block.
pub proof fn lemma_layout_fits(format: Format)
    ensures
        classification(format.datagram_len()) == Ok::<Format, Unsupported>(format),
        PREFIX_LEN <= format.dashboard_start(),
        format.dashboard_start() + DASHBOARD_LEN <= format.datagram_len(),
{
}

/// A length is classified as a format only if it is that format's length.
pub proof fn lemma_classification_exact(len: nat)
    ensures
        classification(len) matches Ok(format) ==> format.datagram_len() == len,
        classification(len) is Ok <==> (len == 311 || len == 324 || len == 331),
        classification(len) == Err::<Format, Unsupported>(Unsupported::LegacySledOnly) <==> len
            == 232,
{
}

// ---------------------------------------------------------------------------
// The layout: which bytes make up which field.
// ---------------------------------------------------------------------------

/// The number whose four bytes start at `at`.
pub open spec fn float_at(s: Seq<u8>, at: int) -> FloatBits {
    FloatBits { bits: be_u32(s, at) as u32 }
}

/// Three numbers in a row: x, y, z.
pub open spec fn vector_at(s: Seq<u8>, at: int) -> Vector3 {
    Vector3 { x: float_at(s, at), y: float_at(s, at + 4), z: float_at(s, at + 8) }
}

/// Four numbers in a row: front left, front right, rear left, rear right.
pub open spec fn corners_at(s: Seq<u8>, at: int) -> Corners {
    Corners {
        front_left: float_at(s, at),
        front_right: float_at(s, at + 4),
        rear_left: float_at(s, at + 8),
        rear_right: float_at(s, at + 12),
    }
}

/// Four integers in a row: front left, front right, rear left, rear right.
pub open spec fn corner_flags_at(s: Seq<u8>, at: int) -> CornerFlags {
    CornerFlags {
        front_left: be_u32(s, at) as u32,
        front_right: be_u32(s, at + 4) as u32,
        rear_left: be_u32(s, at + 8) as u32,
        rear_right: be_u32(s, at + 12) as u32,
    }
}

/// Bytes 0 to 19 of the prefix.
pub open spec fn race_state_of(s: Seq<u8>) -> RaceState {
    RaceState {
        is_race_on: be_u32(s, 0) > 0,
        timestamp_ms: be_u32(s, 4) as u32,
        engine_max_rpm: float_at(s, 8),
        engine_idle_rpm: float_at(s, 12),
        current_engine_rpm: float_at(s, 16),
    }
}

/// Bytes 20 to 67 of the prefix.
pub open spec fn kinematics_of(s: Seq<u8>) -> Kinematics {
    Kinematics {
        acceleration: vector_at(s, 20),
        velocity: vector_at(s, 32),
        angular_velocity: vector_at(s, 44),
        yaw: float_at(s, 56),
        pitch: float_at(s, 60),
        roll: float_at(s, 64),
    }
}

/// Bytes 68 to 211 of the prefix.
pub open spec fn wheel_state_of(s: Seq<u8>) -> WheelState {
    WheelState {
        normalized_suspension_travel: corners_at(s, 68),
        tire_slip_ratio: corners_at(s, 84),
        wheel_rotation_speed: corners_at(s, 100),
        wheel_on_rumble_strip: corner_flags_at(s, 116),
        wheel_in_puddle_depth: corners_at(s, 132),
        surface_rumble: corners_at(s, 148),
        tire_slip_angle: corners_at(s, 164),
        tire_combined_slip: corners_at(s, 180),
        suspension_travel_meters: corners_at(s, 196),
    }
}

/// Bytes 212 to 231 of the prefix.
pub open spec fn car_class_of(s: Seq<u8>) -> CarClass {
    CarClass {
        car_ordinal: be_u32(s, 212) as u32,
        car_class: be_u32(s, 216) as u32,
        car_performance_index: be_u32(s, 220) as u32,
        drivetrain_type: be_u32(s, 224) as u32,
        num_cylinders: be_u32(s, 228) as u32,
    }
}

/// The dashboard block that starts at `start`.
pub open spec fn dashboard_at(s: Seq<u8>, start: int) -> Dashboard {
    Dashboard {
        position: vector_at(s, start),
        speed: float_at(s, start + 12),
        power: float_at(s, start + 16),
        torque: float_at(s, start + 20),
        tire_temp: corners_at(s, start + 24),
        boost: float_at(s, start + 40),
        fuel: float_at(s, start + 44),
        distance_traveled: float_at(s, start + 48),
        best_lap: float_at(s, start + 52),
        last_lap: float_at(s, start + 56),
        current_lap: float_at(s, start + 60),
        current_race_time: float_at(s, start + 64),
        lap_number: be_u16(s, start + 68) as u16,
        race_position: s[start + 70],
        accelerator: s[start + 71],
        brake: s[start + 72],
        clutch: s[start + 73],
        hand_brake: s[start + 74],
        gear: s[start + 75],
        steer: signed(s[start + 76]) as i8,
        normalized_driving_line: signed(s[start + 77]) as i8,
        normalized_ai_brake_difference: signed(s[start + 78]) as i8,
    }
}

/// The record that a datagram of the given format holds.
pub open spec fn record_of(s: Seq<u8>, format: Format) -> TelemetryRecord {
    TelemetryRecord {
        race: race_state_of(s),
        motion: kinematics_of(s),
        wheels: wheel_state_of(s),
        car: car_class_of(s),
        dashboard: dashboard_at(s, format.dashboard_start() as int),
    }
}

/// What decoding a datagram gives: its record, or why it has none.
pub open spec fn decoded(s: Seq<u8>) -> Result<TelemetryRecord, Unsupported> {
    match classification(s.len()) {
        Ok(format) => Ok(record_of(s, format)),
        Err(e) => Err(e),
    }
}

// ---------------------------------------------------------------------------
// Reading the fields in the order in which they stand.
// ---------------------------------------------------------------------------

fn take_float(c: &mut Cursor) -> (v: FloatBits)
    requires
        old(c).can_take(4),
    ensures
        final(c).moved(old(c), 4),
        v == float_at(old(c).data(), old(c).position()),
{
    FloatBits { bits: c.take_u32() }
}

fn take_vector(c: &mut Cursor) -> (v: Vector3)
    requires
        old(c).can_take(12),
    ensures
        final(c).moved(old(c), 12),
        v == vector_at(old(c).data(), old(c).position()),
{
    let x = take_float(c);
    let y = take_float(c);
    let z = take_float(c);
    Vector3 { x, y, z }
}

fn take_corners(c: &mut Cursor) -> (v: Corners)
    requires
        old(c).can_take(16),
    ensures
        final(c).moved(old(c), 16),
        v == corners_at(old(c).data(), old(c).position()),
{
    let front_left = take_float(c);
    let front_right = take_float(c);
    let rear_left = take_float(c);
    let rear_right = take_float(c);
    Corners { front_left, front_right, rear_left, rear_right }
}

fn take_corner_flags(c: &mut Cursor) -> (v: CornerFlags)
    requires
        old(c).can_take(16),
    ensures
        final(c).moved(old(c), 16),
        v == corner_flags_at(old(c).data(), old(c).position()),
{
    let front_left = c.take_u32();
    let front_right = c.take_u32();
    let rear_left = c.take_u32();
    let rear_right = c.take_u32();
    CornerFlags { front_left, front_right, rear_left, rear_right }
}

fn take_race_state(c: &mut Cursor) -> (v: RaceState)
    requires
        old(c).position() == 0,
        old(c).can_take(20),
    ensures
        final(c).moved(old(c), 20),
        v == race_state_of(old(c).data()),
{
    let flag = c.take_u32();
    let timestamp_ms = c.take_u32();
    let engine_max_rpm = take_float(c);
    let engine_idle_rpm = take_float(c);
    let current_engine_rpm = take_float(c);
    RaceState { is_race_on: flag > 0, timestamp_ms, engine_max_rpm, engine_idle_rpm, current_engine_rpm }
}

fn take_kinematics(c: &mut Cursor) -> (v: Kinematics)
    requires
        old(c).position() == 20,
        old(c).can_take(48),
    ensures
        final(c).moved(old(c), 48),
        v == kinematics_of(old(c).data()),
{
    let acceleration = take_vector(c);
    let velocity = take_vector(c);
    let angular_velocity = take_vector(c);
    let yaw = take_float(c);
    let pitch = take_float(c);
    let roll = take_float(c);
    Kinematics { acceleration, velocity, angular_velocity, yaw, pitch, roll }
}

fn take_wheel_state(c: &mut Cursor) -> (v: WheelState)
    requires
        old(c).position() == 68,
        old(c).can_take(144),
    ensures
        final(c).moved(old(c), 144),
        v == wheel_state_of(old(c).data()),
{
    let normalized_suspension_travel = take_corners(c);
    let tire_slip_ratio = take_corners(c);
    let wheel_rotation_speed = take_corners(c);
    let wheel_on_rumble_strip = take_corner_flags(c);
    let wheel_in_puddle_depth = take_corners(c);
    let surface_rumble = take_corners(c);
    let tire_slip_angle = take_corners(c);
    let tire_combined_slip = take_corners(c);
    let suspension_travel_meters = take_corners(c);
    WheelState {
        normalized_suspension_travel,
        tire_slip_ratio,
        wheel_rotation_speed,
        wheel_on_rumble_strip,
        wheel_in_puddle_depth,
        surface_rumble,
        tire_slip_angle,
        tire_combined_slip,
        suspension_travel_meters,
    }
}

fn take_car_class(c: &mut Cursor) -> (v: CarClass)
    requires
        old(c).position() == 212,
        old(c).can_take(20),
    ensures
        final(c).moved(old(c), 20),
        v == car_class_of(old(c).data()),
{
    let car_ordinal = c.take_u32();
    let car_class = c.take_u32();
    let car_performance_index = c.take_u32();
    let drivetrain_type = c.take_u32();
    let num_cylinders = c.take_u32();
    CarClass { car_ordinal, car_class, car_performance_index, drivetrain_type, num_cylinders }
}

fn take_dashboard(c: &mut Cursor) -> (v: Dashboard)
    requires
        old(c).can_take(79),
    ensures
        final(c).moved(old(c), 79),
        v == dashboard_at(old(c).data(), old(c).position()),
{
    let position = take_vector(c);
    let speed = take_float(c);
    let power = take_float(c);
    let torque = take_float(c);
    let tire_temp = take_corners(c);
    let boost = take_float(c);
    let fuel = take_float(c);
    let distance_traveled = take_float(c);
    let best_lap = take_float(c);
    let last_lap = take_float(c);
    let current_lap = take_float(c);
    let current_race_time = take_float(c);
    let lap_number = c.take_u16();
    let race_position = c.take_u8();
    let accelerator = c.take_u8();
    let brake = c.take_u8();
    let clutch = c.take_u8();
    let hand_brake = c.take_u8();
    let gear = c.take_u8();
    let steer = c.take_i8();
    let normalized_driving_line = c.take_i8();
    let normalized_ai_brake_difference = c.take_i8();
    Dashboard {
        position,
        speed,
        power,
        torque,
        tire_temp,
        boost,
        fuel,
        distance_traveled,
        best_lap,
        last_lap,
        current_lap,
        current_race_time,
        lap_number,
        race_position,
        accelerator,
        brake,
        clutch,
        hand_brake,
        gear,
        steer,
        normalized_driving_line,
        normalized_ai_brake_difference,
    }
}

/// Decodes one datagram.
///
/// Never fails otherwise than by `Unsupported`, and reads no byte outside
/// the datagram: the length fixes the format, and the format's fields all lie
/// inside that length.
pub fn decode(bytes: &[u8]) -> (r: Result<TelemetryRecord, Unsupported>)
    ensures
        r == decoded(bytes@),
{
    match classify(bytes.len()) {
        Err(e) => Err(e),
        Ok(format) => {
            let mut prefix = Cursor::new(bytes, 0);
            let race = take_race_state(&mut prefix);
            let motion = take_kinematics(&mut prefix);
            let wheels = take_wheel_state(&mut prefix);
            let car = take_car_class(&mut prefix);
            let mut block = Cursor::new(bytes, format.dashboard_offset());
            let dashboard = take_dashboard(&mut block);
            Ok(TelemetryRecord { race, motion, wheels, car, dashboard })
        },
    }
}

/// The classification table, read off what decoding gives: 232 bytes are the
/// legacy format; with 311 and 331 bytes the dashboard block is read from
/// byte 232, with 324 bytes from byte 244; every other length is unknown.
pub proof fn lemma_decoding_by_length(s: Seq<u8>)
    ensures
        s.len() == 232 ==> decoded(s) == Err::<TelemetryRecord, Unsupported>(
            Unsupported::LegacySledOnly,
        ),
        s.len() == 311 || s.len() == 331 ==> decoded(s) is Ok && decoded(s)->Ok_0.dashboard
            == dashboard_at(s, 232),
        s.len() == 324 ==> decoded(s) is Ok && decoded(s)->Ok_0.dashboard == dashboard_at(s, 244),
        s.len() != 232 && s.len() != 311 && s.len() != 324 && s.len() != 331 ==> decoded(s)
            == Err::<TelemetryRecord, Unsupported>(Unsupported::UnknownLength),
        decoded(s) matches Ok(record) ==> record.race == race_state_of(s) && record.motion
            == kinematics_of(s) && record.wheels == wheel_state_of(s) && record.car
            == car_class_of(s),
{
}

} // verus!
