//! The waypoint sets that make up each locomotion primitive.
//!
//! A cycle of a walking or turning primitive has seven waypoint sets; which
//! leg pair leads is chosen as the cycle starts. Each waypoint set is a list
//! of `set_site` calls, all handed to the executor together.
use vstd::prelude::*;
use crate::config::{
    valid_coord, valid_speed, RobotConfig, BODY_SHIFT, KEEP, MAX_COORD, X_DEFAULT, X_OFFSET,
    Y_START, Y_STEP, Z_DEFAULT, Z_UP, Z_WAVE,
};
use crate::leg::Leg;
use crate::position::{LegPositions, Point};

verus! {

pub const X_PLUS: i32 = X_DEFAULT + X_OFFSET;
pub const X_MINUS: i32 = X_DEFAULT - X_OFFSET;
/// Half a stride ahead of the baseline.
pub const Y_MID: i32 = Y_START + Y_STEP;
/// A full stride ahead of the baseline.
pub const Y_FAR: i32 = Y_START + 2 * Y_STEP;

/// One `set_site` call: target coordinates (or `KEEP`) and speed for a leg.
#[derive(Debug, Clone, Copy, PartialEq, Eq, Structural)]
pub struct Site {
    pub leg: Leg,
    pub x: i32,
    pub y: i32,
    pub z: i32,
    pub speed: i32,
}

pub open spec fn site(leg: Leg, x: i32, y: i32, z: i32, speed: i32) -> Site {
    Site { leg, x, y, z, speed }
}

pub fn make_site(leg: Leg, x: i32, y: i32, z: i32, speed: i32) -> (r: Site)
    ensures
        r == site(leg, x, y, z, speed),
{
    Site { leg, x, y, z, speed }
}

/// A coordinate argument of `set_site`: a legal coordinate or `KEEP`.
pub open spec fn valid_arg(c: i32) -> bool {
    c == KEEP || valid_coord(c)
}

pub open spec fn site_valid(s: Site) -> bool {
    valid_arg(s.x) && valid_arg(s.y) && valid_arg(s.z) && valid_speed(s.speed)
}

pub open spec fn sites_valid(s: Seq<Site>) -> bool {
    forall|i: int| 0 <= i < s.len() ==> site_valid(#[trigger] s[i])
}

/// No leg appears twice.
pub open spec fn sites_distinct(s: Seq<Site>) -> bool {
    forall|i: int, j: int| 0 <= i < j < s.len() ==> (#[trigger] s[i]).leg != (#[trigger] s[j]).leg
}

pub open spec fn offset_plus(v: i32) -> i32 {
    (v + X_OFFSET) as i32
}

pub open spec fn offset_minus(v: i32) -> i32 {
    (v - X_OFFSET) as i32
}

fn add_offset(v: i32) -> (r: i32)
    requires
        valid_coord(v),
    ensures
        r == offset_plus(v),
        valid_coord(r),
{
    v + X_OFFSET
}

fn sub_offset(v: i32) -> (r: i32)
    requires
        valid_coord(v),
    ensures
        r == offset_minus(v),
        valid_coord(r),
{
    v - X_OFFSET
}

/// One step cycle: lift, swing and plant one leg, shift the body over the
/// support legs, then bring the diagonal leg up behind. With `lead` the
/// front right leg swings first, else the front left one.
pub open spec fn step_forward_sites(c: RobotConfig, lead: bool, phase: int) -> Seq<Site> {
    if lead {
        if phase == 0 {
            seq![
                site(Leg::FrontRight, X_PLUS, Y_START, Z_UP, c.leg_move_speed),
            ]
        } else if phase == 1 {
            seq![
                site(Leg::FrontRight, X_PLUS, Y_FAR, Z_UP, c.leg_move_speed),
            ]
        } else if phase == 2 {
            seq![
                site(Leg::FrontRight, X_PLUS, Y_FAR, Z_DEFAULT, c.leg_move_speed),
            ]
        } else if phase == 3 {
            seq![
                site(Leg::FrontLeft, X_PLUS, Y_START, Z_DEFAULT, c.body_move_speed),
                site(Leg::BottomLeft, X_PLUS, Y_FAR, Z_DEFAULT, c.body_move_speed),
                site(Leg::FrontRight, X_MINUS, Y_MID, Z_DEFAULT, c.body_move_speed),
                site(Leg::BottomRight, X_MINUS, Y_MID, Z_DEFAULT, c.body_move_speed),
            ]
        } else if phase == 4 {
            seq![
                site(Leg::BottomLeft, X_PLUS, Y_FAR, Z_UP, c.leg_move_speed),
            ]
        } else if phase == 5 {
            seq![
                site(Leg::BottomLeft, X_PLUS, Y_START, Z_UP, c.leg_move_speed),
            ]
        } else {
            seq![
                site(Leg::BottomLeft, X_PLUS, Y_START, Z_DEFAULT, c.leg_move_speed),
            ]
        }
    } else {
        if phase == 0 {
            seq![
                site(Leg::FrontLeft, X_PLUS, Y_START, Z_UP, c.leg_move_speed),
            ]
        } else if phase == 1 {
            seq![
                site(Leg::FrontLeft, X_PLUS, Y_FAR, Z_UP, c.leg_move_speed),
            ]
        } else if phase == 2 {
            seq![
                site(Leg::FrontLeft, X_PLUS, Y_FAR, Z_DEFAULT, c.leg_move_speed),
            ]
        } else if phase == 3 {
            seq![
                site(Leg::FrontLeft, X_MINUS, Y_MID, Z_DEFAULT, c.body_move_speed),
                site(Leg::BottomLeft, X_MINUS, Y_MID, Z_DEFAULT, c.body_move_speed),
                site(Leg::FrontRight, X_PLUS, Y_START, Z_DEFAULT, c.body_move_speed),
                site(Leg::BottomRight, X_PLUS, Y_FAR, Z_DEFAULT, c.body_move_speed),
            ]
        } else if phase == 4 {
            seq![
                site(Leg::BottomRight, X_PLUS, Y_FAR, Z_UP, c.leg_move_speed),
            ]
        } else if phase == 5 {
            seq![
                site(Leg::BottomRight, X_PLUS, Y_START, Z_UP, c.leg_move_speed),
            ]
        } else {
            seq![
                site(Leg::BottomRight, X_PLUS, Y_START, Z_DEFAULT, c.leg_move_speed),
            ]
        }
    }
}

pub fn step_forward_sites_vec(c: &RobotConfig, lead: bool, phase: u32) -> (r: Vec<Site>)
    requires
        c.wf(),
        phase < 7,
    ensures
        r@ == step_forward_sites(*c, lead, phase as int),
        sites_valid(r@),
        sites_distinct(r@),
{
    if lead {
        if phase == 0 {
            vec![
                make_site(Leg::FrontRight, X_PLUS, Y_START, Z_UP, c.leg_move_speed),
            ]
        } else if phase == 1 {
            vec![
                make_site(Leg::FrontRight, X_PLUS, Y_FAR, Z_UP, c.leg_move_speed),
            ]
        } else if phase == 2 {
            vec![
                make_site(Leg::FrontRight, X_PLUS, Y_FAR, Z_DEFAULT, c.leg_move_speed),
            ]
        } else if phase == 3 {
            vec![
                make_site(Leg::FrontLeft, X_PLUS, Y_START, Z_DEFAULT, c.body_move_speed),
                make_site(Leg::BottomLeft, X_PLUS, Y_FAR, Z_DEFAULT, c.body_move_speed),
                make_site(Leg::FrontRight, X_MINUS, Y_MID, Z_DEFAULT, c.body_move_speed),
                make_site(Leg::BottomRight, X_MINUS, Y_MID, Z_DEFAULT, c.body_move_speed),
            ]
        } else if phase == 4 {
            vec![
                make_site(Leg::BottomLeft, X_PLUS, Y_FAR, Z_UP, c.leg_move_speed),
            ]
        } else if phase == 5 {
            vec![
                make_site(Leg::BottomLeft, X_PLUS, Y_START, Z_UP, c.leg_move_speed),
            ]
        } else {
            vec![
                make_site(Leg::BottomLeft, X_PLUS, Y_START, Z_DEFAULT, c.leg_move_speed),
            ]
        }
    } else {
        if phase == 0 {
            vec![
                make_site(Leg::FrontLeft, X_PLUS, Y_START, Z_UP, c.leg_move_speed),
            ]
        } else if phase == 1 {
            vec![
                make_site(Leg::FrontLeft, X_PLUS, Y_FAR, Z_UP, c.leg_move_speed),
            ]
        } else if phase == 2 {
            vec![
                make_site(Leg::FrontLeft, X_PLUS, Y_FAR, Z_DEFAULT, c.leg_move_speed),
            ]
        } else if phase == 3 {
            vec![
                make_site(Leg::FrontLeft, X_MINUS, Y_MID, Z_DEFAULT, c.body_move_speed),
                make_site(Leg::BottomLeft, X_MINUS, Y_MID, Z_DEFAULT, c.body_move_speed),
                make_site(Leg::FrontRight, X_PLUS, Y_START, Z_DEFAULT, c.body_move_speed),
                make_site(Leg::BottomRight, X_PLUS, Y_FAR, Z_DEFAULT, c.body_move_speed),
            ]
        } else if phase == 4 {
            vec![
                make_site(Leg::BottomRight, X_PLUS, Y_FAR, Z_UP, c.leg_move_speed),
            ]
        } else if phase == 5 {
            vec![
                make_site(Leg::BottomRight, X_PLUS, Y_START, Z_UP, c.leg_move_speed),
            ]
        } else {
            vec![
                make_site(Leg::BottomRight, X_PLUS, Y_START, Z_DEFAULT, c.leg_move_speed),
            ]
        }
    }
}
/// One cycle of turning left on the spot about the turning pivots. With
/// `lead` the bottom right and bottom left legs move, else the front ones.
pub open spec fn turn_left_sites(c: RobotConfig, lead: bool, phase: int) -> Seq<Site> {
    if lead {
        if phase == 0 {
            seq![
                site(Leg::BottomRight, X_PLUS, Y_START, Z_UP, c.spot_turn_speed),
            ]
        } else if phase == 1 {
            seq![
                site(Leg::FrontLeft, offset_minus(c.turn_x1), c.turn_y1, Z_DEFAULT, c.spot_turn_speed),
                site(Leg::BottomLeft, offset_minus(c.turn_x0), c.turn_y0, Z_DEFAULT, c.spot_turn_speed),
                site(Leg::FrontRight, offset_plus(c.turn_x1), c.turn_y1, Z_DEFAULT, c.spot_turn_speed),
                site(Leg::BottomRight, offset_plus(c.turn_x0), c.turn_y0, Z_UP, c.spot_turn_speed),
            ]
        } else if phase == 2 {
            seq![
                site(Leg::BottomRight, offset_plus(c.turn_x0), c.turn_y0, Z_DEFAULT, c.spot_turn_speed),
            ]
        } else if phase == 3 {
            seq![
                site(Leg::FrontLeft, offset_plus(c.turn_x1), c.turn_y1, Z_DEFAULT, c.spot_turn_speed),
                site(Leg::BottomLeft, offset_plus(c.turn_x0), c.turn_y0, Z_DEFAULT, c.spot_turn_speed),
                site(Leg::FrontRight, offset_minus(c.turn_x1), c.turn_y1, Z_DEFAULT, c.spot_turn_speed),
                site(Leg::BottomRight, offset_minus(c.turn_x0), c.turn_y0, Z_DEFAULT, c.spot_turn_speed),
            ]
        } else if phase == 4 {
            seq![
                site(Leg::BottomLeft, offset_plus(c.turn_x0), c.turn_y0, Z_UP, c.spot_turn_speed),
            ]
        } else if phase == 5 {
            seq![
                site(Leg::FrontLeft, X_PLUS, Y_START, Z_DEFAULT, c.spot_turn_speed),
                site(Leg::BottomLeft, X_PLUS, Y_START, Z_UP, c.spot_turn_speed),
                site(Leg::FrontRight, X_MINUS, Y_MID, Z_DEFAULT, c.spot_turn_speed),
                site(Leg::BottomRight, X_MINUS, Y_MID, Z_DEFAULT, c.spot_turn_speed),
            ]
        } else {
            seq![
                site(Leg::BottomLeft, X_PLUS, Y_START, Z_DEFAULT, c.spot_turn_speed),
            ]
        }
    } else {
        if phase == 0 {
            seq![
                site(Leg::FrontLeft, X_PLUS, Y_START, Z_UP, c.spot_turn_speed),
            ]
        } else if phase == 1 {
            seq![
                site(Leg::FrontLeft, offset_plus(c.turn_x0), c.turn_y0, Z_UP, c.spot_turn_speed),
                site(Leg::BottomLeft, offset_plus(c.turn_x1), c.turn_y1, Z_DEFAULT, c.spot_turn_speed),
                site(Leg::FrontRight, offset_minus(c.turn_x0), c.turn_y0, Z_DEFAULT, c.spot_turn_speed),
                site(Leg::BottomRight, offset_minus(c.turn_x1), c.turn_y1, Z_DEFAULT, c.spot_turn_speed),
            ]
        } else if phase == 2 {
            seq![
                site(Leg::FrontLeft, offset_plus(c.turn_x0), c.turn_y0, Z_DEFAULT, c.spot_turn_speed),
            ]
        } else if phase == 3 {
            seq![
                site(Leg::FrontLeft, offset_minus(c.turn_x0), c.turn_y0, Z_DEFAULT, c.spot_turn_speed),
                site(Leg::BottomLeft, offset_minus(c.turn_x1), c.turn_y1, Z_DEFAULT, c.spot_turn_speed),
                site(Leg::FrontRight, offset_plus(c.turn_x0), c.turn_y0, Z_DEFAULT, c.spot_turn_speed),
                site(Leg::BottomRight, offset_plus(c.turn_x1), c.turn_y1, Z_DEFAULT, c.spot_turn_speed),
            ]
        } else if phase == 4 {
            seq![
                site(Leg::FrontRight, offset_plus(c.turn_x0), c.turn_y0, Z_UP, c.spot_turn_speed),
            ]
        } else if phase == 5 {
            seq![
                site(Leg::FrontLeft, X_MINUS, Y_MID, Z_DEFAULT, c.spot_turn_speed),
                site(Leg::BottomLeft, X_MINUS, Y_MID, Z_DEFAULT, c.spot_turn_speed),
                site(Leg::FrontRight, X_PLUS, Y_START, Z_UP, c.spot_turn_speed),
                site(Leg::BottomRight, X_PLUS, Y_START, Z_DEFAULT, c.spot_turn_speed),
            ]
        } else {
            seq![
                site(Leg::FrontRight, X_PLUS, Y_START, Z_DEFAULT, c.spot_turn_speed),
            ]
        }
    }
}

pub fn turn_left_sites_vec(c: &RobotConfig, lead: bool, phase: u32) -> (r: Vec<Site>)
    requires
        c.wf(),
        phase < 7,
    ensures
        r@ == turn_left_sites(*c, lead, phase as int),
        sites_valid(r@),
        sites_distinct(r@),
{
    if lead {
        if phase == 0 {
            vec![
                make_site(Leg::BottomRight, X_PLUS, Y_START, Z_UP, c.spot_turn_speed),
            ]
        } else if phase == 1 {
            vec![
                make_site(Leg::FrontLeft, sub_offset(c.turn_x1), c.turn_y1, Z_DEFAULT, c.spot_turn_speed),
                make_site(Leg::BottomLeft, sub_offset(c.turn_x0), c.turn_y0, Z_DEFAULT, c.spot_turn_speed),
                make_site(Leg::FrontRight, add_offset(c.turn_x1), c.turn_y1, Z_DEFAULT, c.spot_turn_speed),
                make_site(Leg::BottomRight, add_offset(c.turn_x0), c.turn_y0, Z_UP, c.spot_turn_speed),
            ]
        } else if phase == 2 {
            vec![
                make_site(Leg::BottomRight, add_offset(c.turn_x0), c.turn_y0, Z_DEFAULT, c.spot_turn_speed),
            ]
        } else if phase == 3 {
            vec![
                make_site(Leg::FrontLeft, add_offset(c.turn_x1), c.turn_y1, Z_DEFAULT, c.spot_turn_speed),
                make_site(Leg::BottomLeft, add_offset(c.turn_x0), c.turn_y0, Z_DEFAULT, c.spot_turn_speed),
                make_site(Leg::FrontRight, sub_offset(c.turn_x1), c.turn_y1, Z_DEFAULT, c.spot_turn_speed),
                make_site(Leg::BottomRight, sub_offset(c.turn_x0), c.turn_y0, Z_DEFAULT, c.spot_turn_speed),
            ]
        } else if phase == 4 {
            vec![
                make_site(Leg::BottomLeft, add_offset(c.turn_x0), c.turn_y0, Z_UP, c.spot_turn_speed),
            ]
        } else if phase == 5 {
            vec![
                make_site(Leg::FrontLeft, X_PLUS, Y_START, Z_DEFAULT, c.spot_turn_speed),
                make_site(Leg::BottomLeft, X_PLUS, Y_START, Z_UP, c.spot_turn_speed),
                make_site(Leg::FrontRight, X_MINUS, Y_MID, Z_DEFAULT, c.spot_turn_speed),
                make_site(Leg::BottomRight, X_MINUS, Y_MID, Z_DEFAULT, c.spot_turn_speed),
            ]
        } else {
            vec![
                make_site(Leg::BottomLeft, X_PLUS, Y_START, Z_DEFAULT, c.spot_turn_speed),
            ]
        }
    } else {
        if phase == 0 {
            vec![
                make_site(Leg::FrontLeft, X_PLUS, Y_START, Z_UP, c.spot_turn_speed),
            ]
        } else if phase == 1 {
            vec![
                make_site(Leg::FrontLeft, add_offset(c.turn_x0), c.turn_y0, Z_UP, c.spot_turn_speed),
                make_site(Leg::BottomLeft, add_offset(c.turn_x1), c.turn_y1, Z_DEFAULT, c.spot_turn_speed),
                make_site(Leg::FrontRight, sub_offset(c.turn_x0), c.turn_y0, Z_DEFAULT, c.spot_turn_speed),
                make_site(Leg::BottomRight, sub_offset(c.turn_x1), c.turn_y1, Z_DEFAULT, c.spot_turn_speed),
            ]
        } else if phase == 2 {
            vec![
                make_site(Leg::FrontLeft, add_offset(c.turn_x0), c.turn_y0, Z_DEFAULT, c.spot_turn_speed),
            ]
        } else if phase == 3 {
            vec![
                make_site(Leg::FrontLeft, sub_offset(c.turn_x0), c.turn_y0, Z_DEFAULT, c.spot_turn_speed),
                make_site(Leg::BottomLeft, sub_offset(c.turn_x1), c.turn_y1, Z_DEFAULT, c.spot_turn_speed),
                make_site(Leg::FrontRight, add_offset(c.turn_x0), c.turn_y0, Z_DEFAULT, c.spot_turn_speed),
                make_site(Leg::BottomRight, add_offset(c.turn_x1), c.turn_y1, Z_DEFAULT, c.spot_turn_speed),
            ]
        } else if phase == 4 {
            vec![
                make_site(Leg::FrontRight, add_offset(c.turn_x0), c.turn_y0, Z_UP, c.spot_turn_speed),
            ]
        } else if phase == 5 {
            vec![
                make_site(Leg::FrontLeft, X_MINUS, Y_MID, Z_DEFAULT, c.spot_turn_speed),
                make_site(Leg::BottomLeft, X_MINUS, Y_MID, Z_DEFAULT, c.spot_turn_speed),
                make_site(Leg::FrontRight, X_PLUS, Y_START, Z_UP, c.spot_turn_speed),
                make_site(Leg::BottomRight, X_PLUS, Y_START, Z_DEFAULT, c.spot_turn_speed),
            ]
        } else {
            vec![
                make_site(Leg::FrontRight, X_PLUS, Y_START, Z_DEFAULT, c.spot_turn_speed),
            ]
        }
    }
}
/// One cycle of turning right on the spot about the turning pivots. With
/// `lead` the front right and front left legs move, else the bottom ones.
pub open spec fn turn_right_sites(c: RobotConfig, lead: bool, phase: int) -> Seq<Site> {
    if lead {
        if phase == 0 {
            seq![
                site(Leg::FrontRight, X_PLUS, Y_START, Z_UP, c.spot_turn_speed),
            ]
        } else if phase == 1 {
            seq![
                site(Leg::FrontLeft, offset_minus(c.turn_x0), c.turn_y0, Z_DEFAULT, c.spot_turn_speed),
                site(Leg::BottomLeft, offset_minus(c.turn_x1), c.turn_y1, Z_DEFAULT, c.spot_turn_speed),
                site(Leg::FrontRight, offset_plus(c.turn_x0), c.turn_y0, Z_UP, c.spot_turn_speed),
                site(Leg::BottomRight, offset_plus(c.turn_x1), c.turn_y1, Z_DEFAULT, c.spot_turn_speed),
            ]
        } else if phase == 2 {
            seq![
                site(Leg::FrontRight, offset_plus(c.turn_x0), c.turn_y0, Z_DEFAULT, c.spot_turn_speed),
            ]
        } else if phase == 3 {
            seq![
                site(Leg::FrontLeft, offset_plus(c.turn_x0), c.turn_y0, Z_DEFAULT, c.spot_turn_speed),
                site(Leg::BottomLeft, offset_plus(c.turn_x1), c.turn_y1, Z_DEFAULT, c.spot_turn_speed),
                site(Leg::FrontRight, offset_minus(c.turn_x0), c.turn_y0, Z_DEFAULT, c.spot_turn_speed),
                site(Leg::BottomRight, offset_minus(c.turn_x1), c.turn_y1, Z_DEFAULT, c.spot_turn_speed),
            ]
        } else if phase == 4 {
            seq![
                site(Leg::FrontLeft, offset_plus(c.turn_x0), c.turn_y0, Z_UP, c.spot_turn_speed),
            ]
        } else if phase == 5 {
            seq![
                site(Leg::FrontLeft, X_PLUS, Y_START, Z_UP, c.spot_turn_speed),
                site(Leg::BottomLeft, X_PLUS, Y_START, Z_DEFAULT, c.spot_turn_speed),
                site(Leg::FrontRight, X_MINUS, Y_MID, Z_DEFAULT, c.spot_turn_speed),
                site(Leg::BottomRight, X_MINUS, Y_MID, Z_DEFAULT, c.spot_turn_speed),
            ]
        } else {
            seq![
                site(Leg::FrontLeft, X_PLUS, Y_START, Z_DEFAULT, c.spot_turn_speed),
            ]
        }
    } else {
        if phase == 0 {
            seq![
                site(Leg::BottomLeft, X_PLUS, Y_START, Z_UP, c.spot_turn_speed),
            ]
        } else if phase == 1 {
            seq![
                site(Leg::FrontLeft, offset_plus(c.turn_x1), c.turn_y1, Z_DEFAULT, c.spot_turn_speed),
                site(Leg::BottomLeft, offset_plus(c.turn_x0), c.turn_y0, Z_UP, c.spot_turn_speed),
                site(Leg::FrontRight, offset_minus(c.turn_x1), c.turn_y1, Z_DEFAULT, c.spot_turn_speed),
                site(Leg::BottomRight, offset_minus(c.turn_x0), c.turn_y0, Z_DEFAULT, c.spot_turn_speed),
            ]
        } else if phase == 2 {
            seq![
                site(Leg::BottomLeft, offset_plus(c.turn_x0), c.turn_y0, Z_DEFAULT, c.spot_turn_speed),
            ]
        } else if phase == 3 {
            seq![
                site(Leg::FrontLeft, offset_minus(c.turn_x1), c.turn_y1, Z_DEFAULT, c.spot_turn_speed),
                site(Leg::BottomLeft, offset_minus(c.turn_x0), c.turn_y0, Z_DEFAULT, c.spot_turn_speed),
                site(Leg::FrontRight, offset_plus(c.turn_x1), c.turn_y1, Z_DEFAULT, c.spot_turn_speed),
                site(Leg::BottomRight, offset_plus(c.turn_x0), c.turn_y0, Z_DEFAULT, c.spot_turn_speed),
            ]
        } else if phase == 4 {
            seq![
                site(Leg::BottomRight, offset_plus(c.turn_x0), c.turn_y0, Z_UP, c.spot_turn_speed),
            ]
        } else if phase == 5 {
            seq![
                site(Leg::FrontLeft, X_MINUS, Y_MID, Z_DEFAULT, c.spot_turn_speed),
                site(Leg::BottomLeft, X_MINUS, Y_MID, Z_DEFAULT, c.spot_turn_speed),
                site(Leg::FrontRight, X_PLUS, Y_START, Z_DEFAULT, c.spot_turn_speed),
                site(Leg::BottomRight, X_PLUS, Y_START, Z_UP, c.spot_turn_speed),
            ]
        } else {
            seq![
                site(Leg::BottomRight, X_PLUS, Y_START, Z_DEFAULT, c.spot_turn_speed),
            ]
        }
    }
}

pub fn turn_right_sites_vec(c: &RobotConfig, lead: bool, phase: u32) -> (r: Vec<Site>)
    requires
        c.wf(),
        phase < 7,
    ensures
        r@ == turn_right_sites(*c, lead, phase as int),
        sites_valid(r@),
        sites_distinct(r@),
{
    if lead {
        if phase == 0 {
            vec![
                make_site(Leg::FrontRight, X_PLUS, Y_START, Z_UP, c.spot_turn_speed),
            ]
        } else if phase == 1 {
            vec![
                make_site(Leg::FrontLeft, sub_offset(c.turn_x0), c.turn_y0, Z_DEFAULT, c.spot_turn_speed),
                make_site(Leg::BottomLeft, sub_offset(c.turn_x1), c.turn_y1, Z_DEFAULT, c.spot_turn_speed),
                make_site(Leg::FrontRight, add_offset(c.turn_x0), c.turn_y0, Z_UP, c.spot_turn_speed),
                make_site(Leg::BottomRight, add_offset(c.turn_x1), c.turn_y1, Z_DEFAULT, c.spot_turn_speed),
            ]
        } else if phase == 2 {
            vec![
                make_site(Leg::FrontRight, add_offset(c.turn_x0), c.turn_y0, Z_DEFAULT, c.spot_turn_speed),
            ]
        } else if phase == 3 {
            vec![
                make_site(Leg::FrontLeft, add_offset(c.turn_x0), c.turn_y0, Z_DEFAULT, c.spot_turn_speed),
                make_site(Leg::BottomLeft, add_offset(c.turn_x1), c.turn_y1, Z_DEFAULT, c.spot_turn_speed),
                make_site(Leg::FrontRight, sub_offset(c.turn_x0), c.turn_y0, Z_DEFAULT, c.spot_turn_speed),
                make_site(Leg::BottomRight, sub_offset(c.turn_x1), c.turn_y1, Z_DEFAULT, c.spot_turn_speed),
            ]
        } else if phase == 4 {
            vec![
                make_site(Leg::FrontLeft, add_offset(c.turn_x0), c.turn_y0, Z_UP, c.spot_turn_speed),
            ]
        } else if phase == 5 {
            vec![
                make_site(Leg::FrontLeft, X_PLUS, Y_START, Z_UP, c.spot_turn_speed),
                make_site(Leg::BottomLeft, X_PLUS, Y_START, Z_DEFAULT, c.spot_turn_speed),
                make_site(Leg::FrontRight, X_MINUS, Y_MID, Z_DEFAULT, c.spot_turn_speed),
                make_site(Leg::BottomRight, X_MINUS, Y_MID, Z_DEFAULT, c.spot_turn_speed),
            ]
        } else {
            vec![
                make_site(Leg::FrontLeft, X_PLUS, Y_START, Z_DEFAULT, c.spot_turn_speed),
            ]
        }
    } else {
        if phase == 0 {
            vec![
                make_site(Leg::BottomLeft, X_PLUS, Y_START, Z_UP, c.spot_turn_speed),
            ]
        } else if phase == 1 {
            vec![
                make_site(Leg::FrontLeft, add_offset(c.turn_x1), c.turn_y1, Z_DEFAULT, c.spot_turn_speed),
                make_site(Leg::BottomLeft, add_offset(c.turn_x0), c.turn_y0, Z_UP, c.spot_turn_speed),
                make_site(Leg::FrontRight, sub_offset(c.turn_x1), c.turn_y1, Z_DEFAULT, c.spot_turn_speed),
                make_site(Leg::BottomRight, sub_offset(c.turn_x0), c.turn_y0, Z_DEFAULT, c.spot_turn_speed),
            ]
        } else if phase == 2 {
            vec![
                make_site(Leg::BottomLeft, add_offset(c.turn_x0), c.turn_y0, Z_DEFAULT, c.spot_turn_speed),
            ]
        } else if phase == 3 {
            vec![
                make_site(Leg::FrontLeft, sub_offset(c.turn_x1), c.turn_y1, Z_DEFAULT, c.spot_turn_speed),
                make_site(Leg::BottomLeft, sub_offset(c.turn_x0), c.turn_y0, Z_DEFAULT, c.spot_turn_speed),
                make_site(Leg::FrontRight, add_offset(c.turn_x1), c.turn_y1, Z_DEFAULT, c.spot_turn_speed),
                make_site(Leg::BottomRight, add_offset(c.turn_x0), c.turn_y0, Z_DEFAULT, c.spot_turn_speed),
            ]
        } else if phase == 4 {
            vec![
                make_site(Leg::BottomRight, add_offset(c.turn_x0), c.turn_y0, Z_UP, c.spot_turn_speed),
            ]
        } else if phase == 5 {
            vec![
                make_site(Leg::FrontLeft, X_MINUS, Y_MID, Z_DEFAULT, c.spot_turn_speed),
                make_site(Leg::BottomLeft, X_MINUS, Y_MID, Z_DEFAULT, c.spot_turn_speed),
                make_site(Leg::FrontRight, X_PLUS, Y_START, Z_DEFAULT, c.spot_turn_speed),
                make_site(Leg::BottomRight, X_PLUS, Y_START, Z_UP, c.spot_turn_speed),
            ]
        } else {
            vec![
                make_site(Leg::BottomRight, X_PLUS, Y_START, Z_DEFAULT, c.spot_turn_speed),
            ]
        }
    }
}
/// Every leg to height `z`, its footprint kept.
pub open spec fn posture_sites(z: i32, speed: i32) -> Seq<Site> {
    seq![
        site(Leg::FrontLeft, KEEP, KEEP, z, speed),
        site(Leg::BottomLeft, KEEP, KEEP, z, speed),
        site(Leg::FrontRight, KEEP, KEEP, z, speed),
        site(Leg::BottomRight, KEEP, KEEP, z, speed),
    ]
}

pub fn posture_sites_vec(z: i32, speed: i32) -> (r: Vec<Site>)
    requires
        valid_arg(z),
        valid_speed(speed),
    ensures
        r@ == posture_sites(z, speed),
        sites_valid(r@),
        sites_distinct(r@),
{
    vec![
        make_site(Leg::FrontLeft, KEEP, KEEP, z, speed),
        make_site(Leg::BottomLeft, KEEP, KEEP, z, speed),
        make_site(Leg::FrontRight, KEEP, KEEP, z, speed),
        make_site(Leg::BottomRight, KEEP, KEEP, z, speed),
    ]
}

/// Every foot to the coordinate origin, for aligning the servos.
pub open spec fn calibrate_sites(speed: i32) -> Seq<Site> {
    seq![
        site(Leg::FrontLeft, 0, 0, 0, speed),
        site(Leg::BottomLeft, 0, 0, 0, speed),
        site(Leg::FrontRight, 0, 0, 0, speed),
        site(Leg::BottomRight, 0, 0, 0, speed),
    ]
}

pub fn calibrate_sites_vec(speed: i32) -> (r: Vec<Site>)
    requires
        valid_speed(speed),
    ensures
        r@ == calibrate_sites(speed),
        sites_valid(r@),
        sites_distinct(r@),
{
    vec![
        make_site(Leg::FrontLeft, 0, 0, 0, speed),
        make_site(Leg::BottomLeft, 0, 0, 0, speed),
        make_site(Leg::FrontRight, 0, 0, 0, speed),
        make_site(Leg::BottomRight, 0, 0, 0, speed),
    ]
}

/// `c + d`, held within the legal coordinates.
pub open spec fn shifted(c: i32, d: i32) -> i32 {
    if c + d > MAX_COORD {
        MAX_COORD
    } else if c + d < -MAX_COORD {
        (-MAX_COORD) as i32
    } else {
        (c + d) as i32
    }
}

fn shift(c: i32, d: i32) -> (r: i32)
    requires
        valid_coord(c),
        -MAX_COORD <= d <= MAX_COORD,
    ensures
        r == shifted(c, d),
        valid_coord(r),
{
    let s = c + d;
    if s > MAX_COORD {
        MAX_COORD
    } else if s < -MAX_COORD {
        -MAX_COORD
    } else {
        s
    }
}

/// Shifts the body sideways: the left feet move by `d` along x and the right
/// feet by `-d`, from where they are now.
pub open spec fn body_shift_sites(cur: LegPositions, d: i32, speed: i32) -> Seq<Site> {
    let back: i32 = (0 - d) as i32;
    seq![
        site(Leg::FrontLeft, shifted(cur.front_left.x, d), KEEP, KEEP, speed),
        site(Leg::BottomLeft, shifted(cur.bottom_left.x, d), KEEP, KEEP, speed),
        site(Leg::FrontRight, shifted(cur.front_right.x, back), KEEP, KEEP, speed),
        site(Leg::BottomRight, shifted(cur.bottom_right.x, back), KEEP, KEEP, speed),
    ]
}

pub fn body_shift_sites_vec(cur: &LegPositions, d: i32, speed: i32) -> (r: Vec<Site>)
    requires
        cur.within(MAX_COORD as int),
        -BODY_SHIFT <= d <= BODY_SHIFT,
        valid_speed(speed),
    ensures
        r@ == body_shift_sites(*cur, d, speed),
        sites_valid(r@),
        sites_distinct(r@),
{
    assert(cur.at(Leg::FrontLeft).within(MAX_COORD as int));
    assert(cur.at(Leg::BottomLeft).within(MAX_COORD as int));
    assert(cur.at(Leg::FrontRight).within(MAX_COORD as int));
    assert(cur.at(Leg::BottomRight).within(MAX_COORD as int));
    let back: i32 = 0 - d;
    vec![
        make_site(Leg::FrontLeft, shift(cur.front_left.x, d), KEEP, KEEP, speed),
        make_site(Leg::BottomLeft, shift(cur.bottom_left.x, d), KEEP, KEEP, speed),
        make_site(Leg::FrontRight, shift(cur.front_right.x, back), KEEP, KEEP, speed),
        make_site(Leg::BottomRight, shift(cur.bottom_right.x, back), KEEP, KEEP, speed),
    ]
}

/// The leg that waves: the front right one with `lead`, else the front left.
pub open spec fn wave_leg(lead: bool) -> Leg {
    if lead {
        Leg::FrontRight
    } else {
        Leg::FrontLeft
    }
}

/// Waving `swings` times: shift the body away from the waving leg, swing
/// it between the two turning pivots with the foot raised, put it back where
/// it stood once the body had shifted (`saved`), and shift the body back.
pub open spec fn wave_sites(
    c: RobotConfig,
    lead: bool,
    phase: int,
    swings: int,
    saved: Point,
    cur: LegPositions,
) -> Seq<Site> {
    let leg = wave_leg(lead);
    let away: i32 = if lead {
        (-BODY_SHIFT) as i32
    } else {
        BODY_SHIFT
    };
    if phase == 0 {
        body_shift_sites(cur, away, c.move_speed)
    } else if phase <= 2 * swings {
        if phase % 2 == 1 {
            seq![site(leg, c.turn_x1, c.turn_y1, Z_WAVE, c.body_move_speed)]
        } else {
            seq![site(leg, c.turn_x0, c.turn_y0, Z_WAVE, c.body_move_speed)]
        }
    } else if phase == 2 * swings + 1 {
        seq![site(leg, saved.x, saved.y, saved.z, c.body_move_speed)]
    } else {
        body_shift_sites(cur, (-away) as i32, c.move_speed)
    }
}

pub fn wave_sites_vec(
    c: &RobotConfig,
    lead: bool,
    phase: u32,
    swings: u32,
    saved: Point,
    cur: &LegPositions,
) -> (r: Vec<Site>)
    requires
        c.wf(),
        swings <= 255,
        saved.within(MAX_COORD as int),
        cur.within(MAX_COORD as int),
    ensures
        r@ == wave_sites(*c, lead, phase as int, swings as int, saved, *cur),
        sites_valid(r@),
        sites_distinct(r@),
{
    let leg = if lead {
        Leg::FrontRight
    } else {
        Leg::FrontLeft
    };
    let away: i32 = if lead {
        -BODY_SHIFT
    } else {
        BODY_SHIFT
    };
    if phase == 0 {
        body_shift_sites_vec(cur, away, c.move_speed)
    } else if phase <= 2 * swings {
        if phase % 2 == 1 {
            vec![make_site(leg, c.turn_x1, c.turn_y1, Z_WAVE, c.body_move_speed)]
        } else {
            vec![make_site(leg, c.turn_x0, c.turn_y0, Z_WAVE, c.body_move_speed)]
        }
    } else if phase == 2 * swings + 1 {
        vec![make_site(leg, saved.x, saved.y, saved.z, c.body_move_speed)]
    } else {
        body_shift_sites_vec(cur, -away, c.move_speed)
    }
}

} // verus!
