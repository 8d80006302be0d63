//! Bookkeeping of one hobby servo driven by a PWM channel: angle to duty
//! cycle, and no write when the angle has not changed.
use vstd::prelude::*;
use crate::leg::{Joint, Leg};

verus! {

/// Pulse width at 0°, in microseconds.
pub const MIN_PULSE_US: u32 = 544;
/// Pulse width at 180°, in microseconds.
pub const MAX_PULSE_US: u32 = 2400;

/// Duty cycle for `angle` degrees: the pulse width interpolated linearly
/// between 544 µs and 2400 µs (rounded down), as a share of the signal
/// period (rounded down) of the full-scale duty `max_duty`, and at most
/// `max_duty`.
pub open spec fn duty_for(angle: int, max_duty: int, frequency_hz: int) -> int {
    let pulse = MIN_PULSE_US + angle * (MAX_PULSE_US - MIN_PULSE_US) / 180;
    let period_us = 1_000_000int / frequency_hz;
    let duty = pulse * max_duty / period_us;
    if duty < max_duty {
        duty
    } else {
        max_duty
    }
}

/// `angle` held within the servo's 180° of travel.
pub open spec fn clamp_degrees(angle: u8) -> u8 {
    if angle > 180 {
        180
    } else {
        angle
    }
}

/// The state of one servo: the angle last written (in degrees), the
/// channel's full-scale duty and the signal frequency.
#[derive(Debug, Clone, Copy, PartialEq, Eq, Structural)]
pub struct Servo {
    pub angle: u8,
    pub max_duty: u16,
    pub frequency_hz: u32,
    pub leg_id: Leg,
    pub joint_id: Joint,
}

impl Servo {
    /// The frequency leaves a period of at least one microsecond.
    pub open spec fn wf(self) -> bool {
        1 <= self.frequency_hz <= 1_000_000
    }

    /// Records that the duty for `angle` (clamped to 180°) was written.
    pub fn confirm_written(&mut self, angle: u8)
        ensures
            *final(self) == (Servo { angle: clamp_degrees(angle), ..*old(self) }),
    {
        self.angle = if angle > 180 {
            180
        } else {
            angle
        };
    }

    /// A servo at angle 0.
    pub fn new(max_duty: u16, frequency_hz: u32, leg_id: Leg, joint_id: Joint) -> (r: Servo)
        ensures
            r == (Servo { angle: 0, max_duty, frequency_hz, leg_id, joint_id }),
    {
        Servo { angle: 0, max_duty, frequency_hz, leg_id, joint_id }
    }

    /// The angle last written.
    pub fn angle(&self) -> (r: u8)
        ensures
            r == self.angle,
    {
        self.angle
    }

    /// The duty cycle to write for `angle` (clamped to 180°), or `None`
    /// when that angle is the one last written. Nothing is recorded: until
    /// `confirm_written` reports the write done, asking again for the same
    /// angle gives the duty again, so a failed write is retried.
    pub fn set_angle(&self, angle: u8) -> (r: Option<u16>)
        requires
            self.wf(),
        ensures
            ({
                let a = clamp_degrees(angle);
                r == if self.angle == a {
                    None
                } else {
                    Some(duty_for(a as int, self.max_duty as int, self.frequency_hz as int) as u16)
                }
            }),
    {
        let angle: u8 = if angle > 180 {
            180
        } else {
            angle
        };
        if self.angle == angle {
            return None;
        }
        let pulse: u32 = MIN_PULSE_US + (angle as u32 * (MAX_PULSE_US - MIN_PULSE_US)) / 180;
        let period_us: u32 = 1_000_000 / self.frequency_hz;
        assert(period_us >= 1) by (nonlinear_arith)
            requires
                period_us == 1_000_000int / (self.frequency_hz as int),
                1 <= self.frequency_hz <= 1_000_000,
        ;
        assert(pulse * self.max_duty <= 2400 * 65535) by (nonlinear_arith)
            requires
                pulse <= 2400,
                self.max_duty <= 65535,
        ;
        let duty: u32 = pulse * self.max_duty as u32 / period_us;
        let max: u32 = self.max_duty as u32;
        Some(
            if duty < max {
                duty as u16
            } else {
                self.max_duty
            },
        )
    }
}

} // verus!
