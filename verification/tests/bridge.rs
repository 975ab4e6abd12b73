use ev3_ros_bridge::bridge::{read_command, write_telemetry, CommandTopic, WaitOutcome};
use ev3_ros_bridge::fbits::{nan_bits, QUIET_NAN_BITS};
use ev3_ros_bridge::msg::{CmdVel, SensorData, Twist, Vector3};

fn twist(lx: f64, ly: f64, lz: f64, ax: f64, ay: f64, az: f64) -> Twist {
    Twist {
        linear: Vector3 {
            x: lx.to_bits(),
            y: ly.to_bits(),
            z: lz.to_bits(),
        },
        angular: Vector3 {
            x: ax.to_bits(),
            y: ay.to_bits(),
            z: az.to_bits(),
        },
    }
}

fn all_nan(c: &CmdVel) -> bool {
    f64::from_bits(c.x).is_nan() && f64::from_bits(c.y).is_nan() && f64::from_bits(c.theta).is_nan()
}

#[test]
fn fresh_command_is_projected() {
    let t = twist(1.0, 2.0, 0.0, 0.0, 0.0, 3.0);
    let c = read_command(&WaitOutcome::Fresh(t));
    assert_eq!(f64::from_bits(c.x), 1.0);
    assert_eq!(f64::from_bits(c.y), 2.0);
    assert_eq!(f64::from_bits(c.theta), 3.0);
}

#[test]
fn projection_is_exact_bit_for_bit() {
    // Values with no short decimal form must come through untouched.
    let t = twist(0.1, -2.5e-300, 7.0, 9.25, -0.0, 1.0e300);
    let c = read_command(&WaitOutcome::Fresh(t));
    assert_eq!(c.x, (0.1f64).to_bits());
    assert_eq!(c.y, (-2.5e-300f64).to_bits());
    assert_eq!(c.theta, (1.0e300f64).to_bits());
}

#[test]
fn expired_wait_is_all_nan() {
    let c = read_command(&WaitOutcome::Expired);
    assert!(all_nan(&c));
}

#[test]
fn bus_error_is_all_nan() {
    let c = read_command(&WaitOutcome::BusError);
    assert!(all_nan(&c));
}

#[test]
fn sentinel_differs_from_zero_velocity() {
    let t = twist(0.0, 0.0, 0.0, 0.0, 0.0, 0.0);
    let c = read_command(&WaitOutcome::Fresh(t));
    assert!(!all_nan(&c));
    assert_eq!(f64::from_bits(c.x), 0.0);
}

#[test]
fn nan_bits_matches_f64_is_nan() {
    assert!(nan_bits(f64::NAN.to_bits()));
    assert!(nan_bits(QUIET_NAN_BITS));
    assert!(f64::from_bits(QUIET_NAN_BITS).is_nan());
    assert!(!nan_bits((0.0f64).to_bits()));
    assert!(!nan_bits((-0.0f64).to_bits()));
    assert!(!nan_bits(f64::INFINITY.to_bits()));
    assert!(!nan_bits(f64::NEG_INFINITY.to_bits()));
    assert!(!nan_bits((1.5f64).to_bits()));
}

#[test]
fn single_publish_is_delivered_at_most_once() {
    let mut topic = CommandTopic::new();
    topic.publish(twist(1.0, 2.0, 0.0, 0.0, 0.0, 3.0));
    let first = topic.read_command();
    let second = topic.read_command();
    let third = topic.read_command();
    assert_eq!(f64::from_bits(first.x), 1.0);
    assert_eq!(f64::from_bits(first.y), 2.0);
    assert_eq!(f64::from_bits(first.theta), 3.0);
    assert!(all_nan(&second));
    assert!(all_nan(&third));
}

#[test]
fn newer_publish_replaces_older() {
    let mut topic = CommandTopic::new();
    topic.publish(twist(1.0, 1.0, 0.0, 0.0, 0.0, 1.0));
    topic.publish(twist(4.0, 5.0, 0.0, 0.0, 0.0, 6.0));
    let c = topic.read_command();
    assert_eq!(f64::from_bits(c.x), 4.0);
    assert_eq!(f64::from_bits(c.y), 5.0);
    assert_eq!(f64::from_bits(c.theta), 6.0);
    assert!(all_nan(&topic.read_command()));
}

#[test]
fn read_on_empty_topic_is_all_nan() {
    let mut topic = CommandTopic::new();
    assert!(all_nan(&topic.read_command()));
}

fn reading(touch: bool, angle: f64, speed: f64, distance: f64) -> SensorData {
    SensorData {
        touch_pressed_state: touch,
        gyro_angle: angle.to_bits(),
        gyro_rotational_speed: speed.to_bits(),
        ultrasonic_distance: distance.to_bits(),
    }
}

#[test]
fn telemetry_is_copied_field_for_field() {
    let d = reading(true, 45.0, 0.0, 12.5);
    let (msg, ack) = write_telemetry(&d, 0);
    assert!(msg.touch_pressed_state);
    assert_eq!(f64::from_bits(msg.gyro_angle), 45.0);
    assert_eq!(f64::from_bits(msg.gyro_rotational_speed), 0.0);
    assert_eq!(f64::from_bits(msg.ultrasonic_distance), 12.5);
    assert_eq!(ack.size, 0);
}

#[test]
fn telemetry_copy_is_bit_exact() {
    let d = reading(false, 0.1, -3.25e-200, 9.75e120);
    let (msg, _) = write_telemetry(&d, 3);
    assert!(!msg.touch_pressed_state);
    assert_eq!(msg.gyro_angle, d.gyro_angle);
    assert_eq!(msg.gyro_rotational_speed, d.gyro_rotational_speed);
    assert_eq!(msg.ultrasonic_distance, d.ultrasonic_distance);
}

#[test]
fn acknowledgment_echoes_metadata_length() {
    let d = reading(true, 1.0, 2.0, 3.0);
    let (_, ack0) = write_telemetry(&d, 0);
    let (_, ack17) = write_telemetry(&d, 17);
    let (_, ack_big) = write_telemetry(&d, 0x7FFF_FFFF);
    assert_eq!(ack0.size, 0);
    assert_eq!(ack17.size, 17);
    assert_eq!(ack_big.size, i32::MAX);
}
