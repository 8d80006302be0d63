//! From joint angles to servo outputs: the per-leg mirroring table, the
//! clamp to the servo's range, and the pulse-width conversions.
//!
//! Angles are in millidegrees.
use vstd::prelude::*;
use crate::leg::Leg;

verus! {

/// Millidegrees in a right angle.
pub const RIGHT_ANGLE: i32 = 90_000;
/// Millidegrees in the servo's full travel.
pub const SERVO_RANGE: i32 = 180_000;
/// Largest magnitude of a joint angle handed to `polar_to_servo`.
pub const MAX_JOINT_ANGLE: i32 = 720_000;
/// Pulse width at 0°, in microseconds.
pub const SERVO_MIN_PULSE_US: i64 = 544;
/// Pulse width at 180°, in microseconds.
pub const SERVO_MAX_PULSE_US: i64 = 2400;
/// Period of the 50 Hz servo signal, in microseconds.
pub const PCA_PERIOD_US: i64 = 20_000;
/// Steps of the PWM controller's 12-bit counter over one period.
pub const PRESCALE_REG_SIZE: i64 = 4096;

/// Joint angles of one leg: hip pitch, knee, hip yaw.
#[derive(Debug, Clone, Copy, PartialEq, Eq, Structural)]
pub struct LegAngles {
    pub alpha: i32,
    pub beta: i32,
    pub gamma: i32,
}

/// The legs are mirrored in pairs: the front left and bottom right legs
/// take `(90 - alpha, beta, gamma + 90)`, the other two
/// `(alpha + 90, 180 - beta, 90 - gamma)`.
pub open spec fn corrected(leg: Leg, a: int, b: int, g: int) -> (int, int, int) {
    match leg {
        Leg::FrontLeft => (RIGHT_ANGLE - a, b, g + RIGHT_ANGLE),
        Leg::BottomRight => (RIGHT_ANGLE - a, b, g + RIGHT_ANGLE),
        Leg::BottomLeft => (a + RIGHT_ANGLE, SERVO_RANGE - b, RIGHT_ANGLE - g),
        Leg::FrontRight => (a + RIGHT_ANGLE, SERVO_RANGE - b, RIGHT_ANGLE - g),
    }
}

/// Undoes `corrected`: the joint angles that give servo angles `(a, b, g)`.
pub open spec fn uncorrected(leg: Leg, a: int, b: int, g: int) -> (int, int, int) {
    match leg {
        Leg::FrontLeft => (RIGHT_ANGLE - a, b, g - RIGHT_ANGLE),
        Leg::BottomRight => (RIGHT_ANGLE - a, b, g - RIGHT_ANGLE),
        Leg::BottomLeft => (a - RIGHT_ANGLE, SERVO_RANGE - b, RIGHT_ANGLE - g),
        Leg::FrontRight => (a - RIGHT_ANGLE, SERVO_RANGE - b, RIGHT_ANGLE - g),
    }
}

/// `a` held within the servo's travel.
pub open spec fn clamp_angle(a: int) -> int {
    if a < 0 {
        0
    } else if a > SERVO_RANGE {
        SERVO_RANGE as int
    } else {
        a
    }
}

pub open spec fn in_servo_range(a: int) -> bool {
    0 <= a <= SERVO_RANGE
}

fn clamp_angle_exec(a: i32) -> (r: i32)
    ensures
        r == clamp_angle(a as int),
{
    if a < 0 {
        0
    } else if a > SERVO_RANGE {
        SERVO_RANGE
    } else {
        a
    }
}

/// Servo angles of `leg` for joint angles `(alpha, beta, gamma)`: the leg's
/// mirroring applied, each result clamped to the servo's travel.
pub fn polar_to_servo(leg: Leg, alpha: i32, beta: i32, gamma: i32) -> (r: LegAngles)
    requires
        -MAX_JOINT_ANGLE <= alpha <= MAX_JOINT_ANGLE,
        -MAX_JOINT_ANGLE <= beta <= MAX_JOINT_ANGLE,
        -MAX_JOINT_ANGLE <= gamma <= MAX_JOINT_ANGLE,
    ensures
        ({
            let (a, b, g) = corrected(leg, alpha as int, beta as int, gamma as int);
            r == LegAngles {
                alpha: clamp_angle(a) as i32,
                beta: clamp_angle(b) as i32,
                gamma: clamp_angle(g) as i32,
            }
        }),
{
    let (a, b, g) = match leg {
        Leg::FrontLeft => (RIGHT_ANGLE - alpha, beta, gamma + RIGHT_ANGLE),
        Leg::BottomRight => (RIGHT_ANGLE - alpha, beta, gamma + RIGHT_ANGLE),
        Leg::BottomLeft => (alpha + RIGHT_ANGLE, SERVO_RANGE - beta, RIGHT_ANGLE - gamma),
        Leg::FrontRight => (alpha + RIGHT_ANGLE, SERVO_RANGE - beta, RIGHT_ANGLE - gamma),
    };
    LegAngles { alpha: clamp_angle_exec(a), beta: clamp_angle_exec(b), gamma: clamp_angle_exec(g) }
}

/// Each leg's correction table can be undone: for joint angles whose
/// corrected values lie within the servo's travel, so that no clamping
/// happens, undoing the correction gives back the joint angles.
pub proof fn lemma_servo_correction_round_trip(leg: Leg, alpha: int, beta: int, gamma: int)
    requires
        ({
            let (a, b, g) = corrected(leg, alpha, beta, gamma);
            in_servo_range(a) && in_servo_range(b) && in_servo_range(g)
        }),
    ensures
        ({
            let (a, b, g) = corrected(leg, alpha, beta, gamma);
            uncorrected(leg, clamp_angle(a), clamp_angle(b), clamp_angle(g)) == (
                alpha,
                beta,
                gamma,
            )
        }),
{
}

/// The PWM controller's count for `angle`: the pulse width interpolated
/// linearly from 544 µs at 0° to 2400 µs at 180°, as a share of the 20 ms
/// period in 4096 steps, rounded to the nearest step and held within the
/// counter's range.
pub open spec fn angle_ticks(angle: int) -> int {
    let num = (SERVO_MIN_PULSE_US * SERVO_RANGE + angle * (SERVO_MAX_PULSE_US
        - SERVO_MIN_PULSE_US)) * PRESCALE_REG_SIZE;
    let den = SERVO_RANGE * PCA_PERIOD_US;
    let t = (2 * num + den) / (2 * den);
    if t < 0 {
        0
    } else if t > PRESCALE_REG_SIZE - 1 {
        PRESCALE_REG_SIZE - 1
    } else {
        t
    }
}

/// Converts a servo angle within its travel to a PWM controller count.
pub fn angle_to_ticks(angle: i32) -> (r: u16)
    requires
        in_servo_range(angle as int),
    ensures
        r == angle_ticks(angle as int),
{
    let num: i64 = (SERVO_MIN_PULSE_US * SERVO_RANGE as i64 + angle as i64 * (SERVO_MAX_PULSE_US
        - SERVO_MIN_PULSE_US)) * PRESCALE_REG_SIZE;
    let den: i64 = SERVO_RANGE as i64 * PCA_PERIOD_US;
    let t: i64 = (2 * num + den) / (2 * den);
    if t < 0 {
        0
    } else if t > PRESCALE_REG_SIZE - 1 {
        (PRESCALE_REG_SIZE - 1) as u16
    } else {
        t as u16
    }
}

} // verus!
