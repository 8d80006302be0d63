//! Physical dimensions, gait constants and the geometry derived from them.
//!
//! All lengths are in micrometres; speeds are micrometres per tick.
use vstd::prelude::*;
use crate::math::{floor_sqrt, isqrt};

verus! {

/// Coxa-to-femur segment.
pub const LENGTH_A: i32 = 55_000;
/// Femur-to-tibia segment.
pub const LENGTH_B: i32 = 77_500;
/// Horizontal offset of the coxa joint.
pub const LENGTH_C: i32 = 27_500;
/// Distance between the coxa joints of two legs on one side.
pub const LENGTH_SIDE: i32 = 71_000;
pub const Z_ABSOLUTE: i32 = -28_000;

/// Standing height.
pub const Z_DEFAULT: i32 = -50_000;
/// Height of a lifted foot.
pub const Z_UP: i32 = -30_000;
/// Resting height at power-up and when seated.
pub const Z_BOOT: i32 = Z_ABSOLUTE;
pub const X_DEFAULT: i32 = 62_000;
pub const X_OFFSET: i32 = 0;
/// Baseline forward coordinate of a foot.
pub const Y_START: i32 = 0;
/// Length of half a stride.
pub const Y_STEP: i32 = 40_000;
/// Height a waving foot is raised to.
pub const Z_WAVE: i32 = 50_000;
/// Sideways body shift while waving.
pub const BODY_SHIFT: i32 = 15_000;

/// Passed as a coordinate, leaves that coordinate of the target as it was.
pub const KEEP: i32 = 255_000;
/// Largest distance of any legal coordinate from the origin; below `KEEP`.
pub const MAX_COORD: i32 = 250_000;
/// Largest speed that can be requested for one waypoint.
pub const MAX_SPEED: i32 = 100_000;
/// Largest speed multiplier.
pub const MAX_MULTIPLE: i32 = 16;
/// Largest magnitude of a per-tick step on one axis.
pub const MAX_STEP: i32 = 1_600_000;

/// Geometry derived once from the fixed dimensions, and the gait speeds.
#[derive(Debug, Clone, Copy, PartialEq, Eq, Structural)]
pub struct RobotConfig {
    pub temp_a: i32,
    pub temp_b: i32,
    pub temp_c: i32,
    /// `temp_b` times the cosine of the angle between the `temp_a` and
    /// `temp_b` sides of the turning triangle.
    pub temp_b_cos_alpha: i32,
    pub turn_x1: i32,
    pub turn_y1: i32,
    pub turn_x0: i32,
    pub turn_y0: i32,
    pub move_speed: i32,
    pub speed_multiple: i32,
    pub spot_turn_speed: i32,
    pub leg_move_speed: i32,
    pub body_move_speed: i32,
    pub stand_seat_speed: i32,
}

pub open spec fn valid_speed(s: i32) -> bool {
    0 <= s <= MAX_SPEED
}

pub open spec fn valid_coord(c: i32) -> bool {
    -MAX_COORD <= c <= MAX_COORD
}

/// Square of the diagonal from one pivot to the opposite leg after a half stride.
pub open spec fn turn_a_squared() -> int {
    (2 * X_DEFAULT + LENGTH_SIDE) * (2 * X_DEFAULT + LENGTH_SIDE) + Y_STEP * Y_STEP
}

pub open spec fn turn_c_squared() -> int {
    (2 * X_DEFAULT + LENGTH_SIDE) * (2 * X_DEFAULT + LENGTH_SIDE) + (2 * Y_START + Y_STEP
        + LENGTH_SIDE) * (2 * Y_START + Y_STEP + LENGTH_SIDE)
}

pub open spec fn turn_b() -> int {
    2 * (Y_START + Y_STEP) + LENGTH_SIDE
}

/// The configuration `RobotConfig::new` derives: the law of cosines in the
/// turning triangle, with `b·cos(alpha) = (a² + b² - c²) / 2a` and
/// `b·sin(alpha) = sqrt(b² - (b·cos(alpha))²)`.
pub open spec fn derived_config() -> RobotConfig {
    let a = floor_sqrt(turn_a_squared());
    let b = turn_b();
    let k = (turn_a_squared() + b * b - turn_c_squared()) / (2 * a);
    let x1 = (a - LENGTH_SIDE) / 2;
    let y1 = (Y_START + Y_STEP) / 2;
    RobotConfig {
        temp_a: a as i32,
        temp_b: b as i32,
        temp_c: floor_sqrt(turn_c_squared()) as i32,
        temp_b_cos_alpha: k as i32,
        turn_x1: x1 as i32,
        turn_y1: y1 as i32,
        turn_x0: (x1 - k) as i32,
        turn_y0: (floor_sqrt(b * b - k * k) - y1 - LENGTH_SIDE) as i32,
        move_speed: 1000,
        speed_multiple: 1,
        spot_turn_speed: 4000,
        leg_move_speed: 8000,
        body_move_speed: 3000,
        stand_seat_speed: 1000,
    }
}

impl RobotConfig {
    /// Speeds and multiplier are in range and the turning pivots are legal
    /// coordinates.
    pub open spec fn wf(self) -> bool {
        &&& valid_speed(self.move_speed)
        &&& valid_speed(self.spot_turn_speed)
        &&& valid_speed(self.leg_move_speed)
        &&& valid_speed(self.body_move_speed)
        &&& valid_speed(self.stand_seat_speed)
        &&& 1 <= self.speed_multiple <= MAX_MULTIPLE
        &&& valid_coord(self.turn_x0)
        &&& valid_coord(self.turn_y0)
        &&& valid_coord(self.turn_x1)
        &&& valid_coord(self.turn_y1)
    }

    /// Derives the turning pivots from the leg dimensions.
    pub fn new() -> (r: RobotConfig)
        ensures
            r == derived_config(),
            r.wf(),
    {
        let side: i64 = LENGTH_SIDE as i64;
        let span: i64 = 2 * X_DEFAULT as i64 + side;
        let step: i64 = Y_STEP as i64;
        assert(span * span == 38_025_000_000 && step * step == 1_600_000_000
            && 111_000 * 111_000 == 12_321_000_000int && 151_000 * 151_000 == 22_801_000_000int)
            by (nonlinear_arith)
            requires
                span == 195_000,
                step == 40_000,
        ;
        let a_sq: i64 = span * span + step * step;
        let c_leg: i64 = 2 * Y_START as i64 + Y_STEP as i64 + side;
        let c_sq: i64 = span * span + c_leg * c_leg;
        let temp_a = isqrt(a_sq as u64) as i64;
        let temp_c = isqrt(c_sq as u64) as i64;
        let temp_b: i64 = 2 * (Y_START as i64 + Y_STEP as i64) + side;
        assert(199_000 <= temp_a < 200_000) by (nonlinear_arith)
            requires
                temp_a * temp_a <= 39_625_000_000,
                39_625_000_000 < (temp_a + 1) * (temp_a + 1),
                temp_a >= 0,
        ;
        assert(224_000 <= temp_c < 225_000) by (nonlinear_arith)
            requires
                temp_c * temp_c <= 50_346_000_000,
                50_346_000_000 < (temp_c + 1) * (temp_c + 1),
                temp_c >= 0,
        ;
        let k: i64 = (a_sq + temp_b * temp_b - c_sq) / (2 * temp_a);
        assert(30_000 <= k <= 30_400) by (nonlinear_arith)
            requires
                k as int == 12_080_000_000int / (2 * temp_a as int),
                199_000 <= temp_a < 200_000,
        ;
        let x1: i64 = (temp_a - side) / 2;
        let y1: i64 = (Y_START as i64 + Y_STEP as i64) / 2;
        assert(900_000_000 <= k * k <= 924_160_000) by (nonlinear_arith)
            requires
                30_000 <= k <= 30_400,
        ;
        let s_sq: i64 = temp_b * temp_b - k * k;
        let s = isqrt(s_sq as u64) as i64;
        assert(s <= 151_000) by (nonlinear_arith)
            requires
                s * s <= s_sq,
                s_sq <= 22_801_000_000,
                s >= 0,
        ;
        RobotConfig {
            temp_a: temp_a as i32,
            temp_b: temp_b as i32,
            temp_c: temp_c as i32,
            temp_b_cos_alpha: k as i32,
            turn_x1: x1 as i32,
            turn_y1: y1 as i32,
            turn_x0: (x1 - k) as i32,
            turn_y0: (s - y1 - side) as i32,
            move_speed: 1000,
            speed_multiple: 1,
            spot_turn_speed: 4000,
            leg_move_speed: 8000,
            body_move_speed: 3000,
            stand_seat_speed: 1000,
        }
    }
}

} // verus!
