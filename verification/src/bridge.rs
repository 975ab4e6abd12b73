//! The bridge service's two operations, as pure decisions.
//!
//! `ReadCommand` waits a bounded time for the next motion command and
//! collapses the three-way outcome — fresh message, bus error, wait expired —
//! into a response: a projection of the twist, or the all-NaN sentinel.
//! `WriteTelemetry` copies the sensor reading field-for-field onto the bus's
//! telemetry message and echoes the call's metadata byte length.
//!
//! The waiting, locking and publishing themselves are I/O and live outside
//! this crate; they hand in the outcome of the wait (or the pending state of
//! the topic) and take the response back.

use vstd::prelude::*;

use crate::fbits::QUIET_NAN_BITS;
use crate::fbits::is_nan_bits;
use crate::msg::CmdVel;
use crate::msg::Sensor;
use crate::msg::SensorData;
use crate::msg::Twist;
use crate::msg::WriteResponse;

verus! {

/// The wait budget of `ReadCommand`, in milliseconds: how long one call may
/// suspend on the command topic before falling back to the sentinel.
pub const CMD_VEL_TIMEOUT_MS: u64 = 100;

/// What a bounded wait on the command topic ended with: a fresh message,
/// an error from the bus, or the wait budget running out.
#[derive(Clone, Copy, PartialEq, Eq, Structural, Debug)]
pub enum WaitOutcome {
    Fresh(Twist),
    BusError,
    Expired,
}

/// The projection of a twist onto the command response:
/// `x = linear.x`, `y = linear.y`, `theta = angular.z`.
pub open spec fn cmd_vel_of_twist(t: Twist) -> CmdVel {
    CmdVel { x: t.linear.x, y: t.linear.y, theta: t.angular.z }
}

/// The sentinel response standing for "no fresh command": all three fields
/// hold the quiet NaN bit pattern.
pub open spec fn no_data_cmd_vel() -> CmdVel {
    CmdVel { x: QUIET_NAN_BITS, y: QUIET_NAN_BITS, theta: QUIET_NAN_BITS }
}

/// The `ReadCommand` policy: a fresh message is projected, and both other
/// outcomes are folded into the sentinel — never into an RPC fault.
pub open spec fn read_command_spec(o: WaitOutcome) -> CmdVel {
    match o {
        WaitOutcome::Fresh(t) => cmd_vel_of_twist(t),
        WaitOutcome::BusError => no_data_cmd_vel(),
        WaitOutcome::Expired => no_data_cmd_vel(),
    }
}

/// Builds the `ReadCommand` response for the outcome of one bounded wait.
pub fn read_command(o: &WaitOutcome) -> (c: CmdVel)
    ensures
        c == read_command_spec(*o),
{
    match o {
        WaitOutcome::Fresh(t) => CmdVel { x: t.linear.x, y: t.linear.y, theta: t.angular.z },
        WaitOutcome::BusError => CmdVel {
            x: QUIET_NAN_BITS,
            y: QUIET_NAN_BITS,
            theta: QUIET_NAN_BITS,
        },
        WaitOutcome::Expired => CmdVel {
            x: QUIET_NAN_BITS,
            y: QUIET_NAN_BITS,
            theta: QUIET_NAN_BITS,
        },
    }
}

/// A fresh twist is projected exactly: the response repeats `linear.x`,
/// `linear.y` and `angular.z` bit-for-bit, with no rounding.
pub proof fn lemma_fresh_is_projected(t: Twist)
    ensures
        read_command_spec(WaitOutcome::Fresh(t)).x == t.linear.x,
        read_command_spec(WaitOutcome::Fresh(t)).y == t.linear.y,
        read_command_spec(WaitOutcome::Fresh(t)).theta == t.angular.z,
{
}

/// Whenever the wait ends without a fresh message — expiry or bus error —
/// the response's three fields are all NaN at once, never partially.
pub proof fn lemma_no_data_is_all_nan(o: WaitOutcome)
    requires
        !(o is Fresh),
    ensures
        is_nan_bits(read_command_spec(o).x),
        is_nan_bits(read_command_spec(o).y),
        is_nan_bits(read_command_spec(o).theta),
{
    crate::fbits::lemma_quiet_nan_is_nan();
}

/// Builds what `WriteTelemetry` does with a sensor reading: the message to
/// publish, a field-for-field copy of the reading, and the acknowledgment
/// echoing the byte length of the call's metadata section.
pub fn write_telemetry(d: &SensorData, metadata_len: usize) -> (r: (Sensor, WriteResponse))
    requires
        metadata_len <= 0x7FFF_FFFF,
    ensures
        r.0.touch_pressed_state == d.touch_pressed_state,
        r.0.gyro_angle == d.gyro_angle,
        r.0.gyro_rotational_speed == d.gyro_rotational_speed,
        r.0.ultrasonic_distance == d.ultrasonic_distance,
        r.1.size == metadata_len,
{
    let msg = Sensor {
        touch_pressed_state: d.touch_pressed_state,
        gyro_angle: d.gyro_angle,
        gyro_rotational_speed: d.gyro_rotational_speed,
        ultrasonic_distance: d.ultrasonic_distance,
    };
    (msg, WriteResponse { size: metadata_len as i32 })
}

/// Models the command-topic subscription as the bridge relies on it: at most
/// the latest published message is pending, and reading consumes it. The
/// real subscription handle lives outside this crate; concurrent readers are
/// serialized there behind a lock, so its visible behaviour is this
/// sequential one.
#[derive(Clone, Copy, PartialEq, Eq, Structural, Debug)]
pub struct CommandTopic {
    pub pending: Option<Twist>,
}

/// Publishing replaces whatever was pending: older unread messages are
/// dropped, only the latest is kept for the next reader.
pub open spec fn publish_spec(s: Option<Twist>, t: Twist) -> Option<Twist> {
    Some(t)
}

/// One `ReadCommand` call against the topic: a pending message is consumed
/// and projected; an empty topic leaves the sentinel response and stays
/// empty.
pub open spec fn read_from_topic_spec(s: Option<Twist>) -> (CmdVel, Option<Twist>) {
    match s {
        Some(t) => (cmd_vel_of_twist(t), None),
        None => (no_data_cmd_vel(), None),
    }
}

impl CommandTopic {
    /// A topic with nothing pending.
    pub fn new() -> (s: CommandTopic)
        ensures
            s.pending is None,
    {
        CommandTopic { pending: None }
    }

    /// Delivers a message to the topic, dropping any unread predecessor.
    pub fn publish(&mut self, t: Twist)
        ensures
            final(self).pending == publish_spec(old(self).pending, t),
    {
        self.pending = Some(t);
    }

    /// One `ReadCommand` call: consumes the pending message if there is one,
    /// else returns the sentinel.
    pub fn read_command(&mut self) -> (c: CmdVel)
        ensures
            (c, final(self).pending) == read_from_topic_spec(old(self).pending),
    {
        match self.pending {
            Some(t) => {
                self.pending = None;
                read_command(&WaitOutcome::Fresh(t))
            },
            None => {
                self.pending = None;
                read_command(&WaitOutcome::Expired)
            },
        }
    }
}

/// At-most-once delivery: after a single publish, the first read returns
/// that command and consumes it, and every later read — the second here,
/// and all that follow, since the topic stays empty — returns the sentinel.
/// No two reads ever both return the one published message.
pub proof fn lemma_at_most_once_delivery(s0: Option<Twist>, t: Twist)
    ensures
        ({
            let s1 = publish_spec(s0, t);
            let (c1, s2) = read_from_topic_spec(s1);
            let (c2, s3) = read_from_topic_spec(s2);
            &&& c1 == cmd_vel_of_twist(t)
            &&& s2 is None
            &&& c2 == no_data_cmd_vel()
            &&& s3 is None
        }),
{
}

} // verus!
