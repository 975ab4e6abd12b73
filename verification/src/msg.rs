//! The messages that cross the bridge, with every double-precision field
//! carried as its IEEE 754 bit pattern (see [`crate::fbits`]).

use vstd::prelude::*;

verus! {

/// A three-component vector of doubles, as the bus's twist message carries
/// its linear and angular parts.
#[derive(Clone, Copy, PartialEq, Eq, Structural, Debug)]
pub struct Vector3 {
    pub x: u64,
    pub y: u64,
    pub z: u64,
}

/// The bus's native motion message: a linear and an angular velocity vector.
#[derive(Clone, Copy, PartialEq, Eq, Structural, Debug)]
pub struct Twist {
    pub linear: Vector3,
    pub angular: Vector3,
}

/// The RPC response of `ReadCommand`: the twist projected down to the two
/// linear components and the angular component about the vertical axis.
/// All three fields NaN means "no fresh command was available".
#[derive(Clone, Copy, PartialEq, Eq, Structural, Debug)]
pub struct CmdVel {
    pub x: u64,
    pub y: u64,
    pub theta: u64,
}

/// The RPC request of `WriteTelemetry`: one standalone sensor snapshot.
#[derive(Clone, Copy, PartialEq, Eq, Structural, Debug)]
pub struct SensorData {
    pub touch_pressed_state: bool,
    pub gyro_angle: u64,
    pub gyro_rotational_speed: u64,
    pub ultrasonic_distance: u64,
}

/// The telemetry message published on the bus; the same four fields as
/// [`SensorData`], in the bus's own message type.
#[derive(Clone, Copy, PartialEq, Eq, Structural, Debug)]
pub struct Sensor {
    pub touch_pressed_state: bool,
    pub gyro_angle: u64,
    pub gyro_rotational_speed: u64,
    pub ultrasonic_distance: u64,
}

/// The RPC response of `WriteTelemetry`: a diagnostic echo of the byte
/// length of the call's metadata section.
#[derive(Clone, Copy, PartialEq, Eq, Structural, Debug)]
pub struct WriteResponse {
    pub size: i32,
}

} // verus!
