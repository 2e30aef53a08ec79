use telemetry_listener::codec::{classify, decode, Format, Unsupported, DASHBOARD_LEN, PREFIX_LEN};
use telemetry_listener::record::{CornerFlags, Corners, FloatBits, Vector3};

fn datagram(len: usize) -> Vec<u8> {
    vec![0u8; len]
}

/// A datagram whose byte at position `i` is `i mod 251`, so that every
/// field has a value of its own.
fn patterned(len: usize) -> Vec<u8> {
    (0..len).map(|i| (i % 251) as u8).collect()
}

fn put_f32(bytes: &mut [u8], at: usize, value: f32) {
    bytes[at..at + 4].copy_from_slice(&value.to_be_bytes());
}

fn word(bytes: &[u8], at: usize) -> u32 {
    u32::from_be_bytes([bytes[at], bytes[at + 1], bytes[at + 2], bytes[at + 3]])
}

fn float(bytes: &[u8], at: usize) -> FloatBits {
    FloatBits { bits: word(bytes, at) }
}

fn vector(bytes: &[u8], at: usize) -> Vector3 {
    Vector3 { x: float(bytes, at), y: float(bytes, at + 4), z: float(bytes, at + 8) }
}

fn corners(bytes: &[u8], at: usize) -> Corners {
    Corners {
        front_left: float(bytes, at),
        front_right: float(bytes, at + 4),
        rear_left: float(bytes, at + 8),
        rear_right: float(bytes, at + 12),
    }
}

#[test]
fn legacy_length_is_rejected_with_its_own_reason() {
    let r = decode(&datagram(232));
    assert_eq!(r, Err(Unsupported::LegacySledOnly));
    assert_eq!(Unsupported::LegacySledOnly.reason(), "legacy sled-only format");
}

#[test]
fn unknown_lengths_are_rejected() {
    for len in [0usize, 1, 79, 231, 233, 244, 310, 312, 323, 325, 330, 332, 1500] {
        assert_eq!(decode(&datagram(len)), Err(Unsupported::UnknownLength), "length {}", len);
    }
    assert_eq!(Unsupported::UnknownLength.reason(), "unknown length");
}

#[test]
fn every_length_up_to_the_buffer_is_classified_by_the_table() {
    for len in 0usize..=1500 {
        let expected = match len {
            232 => Err(Unsupported::LegacySledOnly),
            311 => Ok(Format::Dash),
            324 => Ok(Format::Revised),
            331 => Ok(Format::Extended),
            _ => Err(Unsupported::UnknownLength),
        };
        assert_eq!(classify(len), expected, "length {}", len);
        assert_eq!(decode(&patterned(len)).is_ok(), expected.is_ok(), "length {}", len);
    }
}

#[test]
fn formats_know_their_length_and_dashboard_start() {
    assert_eq!(PREFIX_LEN, 232);
    assert_eq!(DASHBOARD_LEN, 79);
    assert_eq!(Format::Dash.dashboard_offset(), 232);
    assert_eq!(Format::Revised.dashboard_offset(), 244);
    assert_eq!(Format::Extended.dashboard_offset(), 232);
    assert_eq!(Format::Dash.length(), 311);
    assert_eq!(Format::Revised.length(), 324);
    assert_eq!(Format::Extended.length(), 331);
    for format in [Format::Dash, Format::Revised, Format::Extended] {
        assert_eq!(classify(format.length()), Ok(format));
        assert!(PREFIX_LEN <= format.dashboard_offset());
        assert!(format.dashboard_offset() + DASHBOARD_LEN <= format.length());
    }
}

#[test]
fn speed_is_read_twelve_bytes_into_the_dashboard_block() {
    let mut d = datagram(311);
    put_f32(&mut d, 244, 42.0);
    let record = decode(&d).unwrap();
    assert_eq!(f32::from_bits(record.dashboard.speed.bits), 42.0);
    assert_eq!(record.dashboard.speed.bits, 0x4228_0000);

    let mut d = datagram(331);
    put_f32(&mut d, 244, 42.0);
    let record = decode(&d).unwrap();
    assert_eq!(f32::from_bits(record.dashboard.speed.bits), 42.0);

    let mut d = datagram(324);
    put_f32(&mut d, 256, 42.0);
    let record = decode(&d).unwrap();
    assert_eq!(f32::from_bits(record.dashboard.speed.bits), 42.0);
    assert_eq!(f32::from_bits(record.dashboard.position.x.bits), 0.0);
}

#[test]
fn revised_format_skips_twelve_bytes_before_the_dashboard_block() {
    let mut d = datagram(324);
    put_f32(&mut d, 244, 7.5);
    let record = decode(&d).unwrap();
    assert_eq!(f32::from_bits(record.dashboard.position.x.bits), 7.5);
    assert_eq!(record.dashboard.speed.bits, 0);

    let mut d = datagram(324);
    put_f32(&mut d, 232, 7.5);
    let record = decode(&d).unwrap();
    assert_eq!(record.dashboard.position.x.bits, 0);
}

#[test]
fn multi_byte_fields_are_big_endian() {
    let mut d = datagram(311);
    d[4..8].copy_from_slice(&[0x01, 0x02, 0x03, 0x04]);
    d[232 + 68] = 0x12;
    d[232 + 69] = 0x34;
    let record = decode(&d).unwrap();
    assert_eq!(record.race.timestamp_ms, 0x0102_0304);
    assert_eq!(record.dashboard.lap_number, 0x1234);
}

#[test]
fn race_flag_is_on_when_above_zero() {
    let mut d = datagram(311);
    assert!(!decode(&d).unwrap().race.is_race_on);
    d[3] = 1;
    assert!(decode(&d).unwrap().race.is_race_on);
    d[3] = 2;
    assert!(decode(&d).unwrap().race.is_race_on);
    d[0..4].copy_from_slice(&[0x80, 0, 0, 0]);
    assert!(decode(&d).unwrap().race.is_race_on);
    d[0..4].copy_from_slice(&[0xff, 0xff, 0xff, 0xff]);
    assert!(decode(&d).unwrap().race.is_race_on);
}

#[test]
fn signed_bytes_are_twos_complement() {
    let mut d = datagram(311);
    d[232 + 76] = 0x80;
    d[232 + 77] = 0xff;
    d[232 + 78] = 0x7f;
    let dash = decode(&d).unwrap().dashboard;
    assert_eq!(dash.steer, -128);
    assert_eq!(dash.normalized_driving_line, -1);
    assert_eq!(dash.normalized_ai_brake_difference, 127);
    d[232 + 76] = 0x00;
    d[232 + 77] = 0x81;
    d[232 + 78] = 0x01;
    let dash = decode(&d).unwrap().dashboard;
    assert_eq!(dash.steer, 0);
    assert_eq!(dash.normalized_driving_line, -127);
    assert_eq!(dash.normalized_ai_brake_difference, 1);
}

#[test]
fn values_out_of_their_documented_range_pass_through() {
    let mut d = datagram(311);
    d[216..220].copy_from_slice(&[0xff, 0xff, 0xff, 0xfe]);
    d[228..232].copy_from_slice(&[0, 0, 0x03, 0xe8]);
    put_f32(&mut d, 244, f32::NAN);
    let record = decode(&d).unwrap();
    assert_eq!(record.car.car_class, 0xffff_fffe);
    assert_eq!(record.car.num_cylinders, 1000);
    assert!(f32::from_bits(record.dashboard.speed.bits).is_nan());
    assert_eq!(record.dashboard.speed.bits, f32::NAN.to_bits());
}

fn check_every_field(len: usize, dash: usize) {
    let d = patterned(len);
    let r = decode(&d).unwrap();

    assert_eq!(r.race.is_race_on, word(&d, 0) > 0);
    assert_eq!(r.race.timestamp_ms, word(&d, 4));
    assert_eq!(r.race.engine_max_rpm, float(&d, 8));
    assert_eq!(r.race.engine_idle_rpm, float(&d, 12));
    assert_eq!(r.race.current_engine_rpm, float(&d, 16));

    assert_eq!(r.motion.acceleration, vector(&d, 20));
    assert_eq!(r.motion.velocity, vector(&d, 32));
    assert_eq!(r.motion.angular_velocity, vector(&d, 44));
    assert_eq!(r.motion.yaw, float(&d, 56));
    assert_eq!(r.motion.pitch, float(&d, 60));
    assert_eq!(r.motion.roll, float(&d, 64));

    assert_eq!(r.wheels.normalized_suspension_travel, corners(&d, 68));
    assert_eq!(r.wheels.tire_slip_ratio, corners(&d, 84));
    assert_eq!(r.wheels.wheel_rotation_speed, corners(&d, 100));
    assert_eq!(
        r.wheels.wheel_on_rumble_strip,
        CornerFlags {
            front_left: word(&d, 116),
            front_right: word(&d, 120),
            rear_left: word(&d, 124),
            rear_right: word(&d, 128),
        }
    );
    assert_eq!(r.wheels.wheel_in_puddle_depth, corners(&d, 132));
    assert_eq!(r.wheels.surface_rumble, corners(&d, 148));
    assert_eq!(r.wheels.tire_slip_angle, corners(&d, 164));
    assert_eq!(r.wheels.tire_combined_slip, corners(&d, 180));
    assert_eq!(r.wheels.suspension_travel_meters, corners(&d, 196));

    assert_eq!(r.car.car_ordinal, word(&d, 212));
    assert_eq!(r.car.car_class, word(&d, 216));
    assert_eq!(r.car.car_performance_index, word(&d, 220));
    assert_eq!(r.car.drivetrain_type, word(&d, 224));
    assert_eq!(r.car.num_cylinders, word(&d, 228));

    assert_eq!(r.dashboard.position, vector(&d, dash));
    assert_eq!(r.dashboard.speed, float(&d, dash + 12));
    assert_eq!(r.dashboard.power, float(&d, dash + 16));
    assert_eq!(r.dashboard.torque, float(&d, dash + 20));
    assert_eq!(r.dashboard.tire_temp, corners(&d, dash + 24));
    assert_eq!(r.dashboard.boost, float(&d, dash + 40));
    assert_eq!(r.dashboard.fuel, float(&d, dash + 44));
    assert_eq!(r.dashboard.distance_traveled, float(&d, dash + 48));
    assert_eq!(r.dashboard.best_lap, float(&d, dash + 52));
    assert_eq!(r.dashboard.last_lap, float(&d, dash + 56));
    assert_eq!(r.dashboard.current_lap, float(&d, dash + 60));
    assert_eq!(r.dashboard.current_race_time, float(&d, dash + 64));
    assert_eq!(r.dashboard.lap_number, u16::from_be_bytes([d[dash + 68], d[dash + 69]]));
    assert_eq!(r.dashboard.race_position, d[dash + 70]);
    assert_eq!(r.dashboard.accelerator, d[dash + 71]);
    assert_eq!(r.dashboard.brake, d[dash + 72]);
    assert_eq!(r.dashboard.clutch, d[dash + 73]);
    assert_eq!(r.dashboard.hand_brake, d[dash + 74]);
    assert_eq!(r.dashboard.gear, d[dash + 75]);
    assert_eq!(r.dashboard.steer, d[dash + 76] as i8);
    assert_eq!(r.dashboard.normalized_driving_line, d[dash + 77] as i8);
    assert_eq!(r.dashboard.normalized_ai_brake_difference, d[dash + 78] as i8);
}

#[test]
fn every_field_comes_from_its_own_bytes() {
    check_every_field(311, 232);
    check_every_field(324, 244);
    check_every_field(331, 232);
}

#[test]
fn first_prefix_fields_have_their_exact_values() {
    let d = patterned(311);
    let r = decode(&d).unwrap();
    assert_eq!(r.race.timestamp_ms, 0x0405_0607);
    assert_eq!(r.race.engine_max_rpm.bits, 0x0809_0a0b);
    assert_eq!(r.motion.acceleration.x.bits, 0x1415_1617);
    assert_eq!(r.car.num_cylinders, 0xe4e5_e6e7);
    assert_eq!(r.dashboard.position.x.bits, 0xe8e9_eaeb);
    assert_eq!(r.dashboard.speed.bits, 0xf4f5_f6f7);
}

#[test]
fn decoding_is_deterministic_and_ignores_what_follows_the_block() {
    let a = patterned(331);
    let mut b = a.clone();
    for byte in &mut b[311..] {
        *byte = 0xaa;
    }
    assert_eq!(decode(&a), decode(&a));
    assert_eq!(decode(&a), decode(&b));

    let mut c = patterned(324);
    let before = decode(&c).unwrap();
    for byte in &mut c[232..244] {
        *byte = 0x55;
    }
    c[323] = 0x55;
    assert_eq!(decode(&c).unwrap(), before);
}
