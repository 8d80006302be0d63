//! Foot-tip coordinates: one point per leg, in micrometres.
use vstd::prelude::*;
use crate::leg::Leg;

verus! {

/// A foot-tip position (or a per-tick step) in micrometres.
#[derive(Debug, Clone, Copy, PartialEq, Eq, Structural)]
pub struct Point {
    pub x: i32,
    pub y: i32,
    pub z: i32,
}

/// One point for each of the four legs.
#[derive(Debug, Clone, Copy, PartialEq, Eq, Structural)]
pub struct LegPositions {
    pub front_left: Point,
    pub bottom_left: Point,
    pub front_right: Point,
    pub bottom_right: Point,
}

impl Point {
    pub open spec fn zero_spec() -> Point {
        Point { x: 0, y: 0, z: 0 }
    }

    pub fn zero() -> (r: Point)
        ensures
            r == Point::zero_spec(),
    {
        Point { x: 0, y: 0, z: 0 }
    }

    /// Every coordinate lies within `bound` of the origin.
    pub open spec fn within(self, bound: int) -> bool {
        -bound <= self.x <= bound && -bound <= self.y <= bound && -bound <= self.z <= bound
    }
}

impl LegPositions {
    /// The point of `leg`.
    pub open spec fn at(self, leg: Leg) -> Point {
        match leg {
            Leg::FrontLeft => self.front_left,
            Leg::BottomLeft => self.bottom_left,
            Leg::FrontRight => self.front_right,
            Leg::BottomRight => self.bottom_right,
        }
    }

    /// The same points, but `p` for `leg`.
    pub open spec fn with(self, leg: Leg, p: Point) -> LegPositions {
        match leg {
            Leg::FrontLeft => LegPositions { front_left: p, ..self },
            Leg::BottomLeft => LegPositions { bottom_left: p, ..self },
            Leg::FrontRight => LegPositions { front_right: p, ..self },
            Leg::BottomRight => LegPositions { bottom_right: p, ..self },
        }
    }

    /// Every point lies within `bound` of the origin.
    pub open spec fn within(self, bound: int) -> bool {
        forall|leg: Leg| #[trigger] self.at(leg).within(bound)
    }

    pub open spec fn all_spec(p: Point) -> LegPositions {
        LegPositions { front_left: p, bottom_left: p, front_right: p, bottom_right: p }
    }

    /// The same point for every leg.
    pub fn all(p: Point) -> (r: LegPositions)
        ensures
            r == LegPositions::all_spec(p),
    {
        LegPositions { front_left: p, bottom_left: p, front_right: p, bottom_right: p }
    }

    pub fn get(&self, leg: Leg) -> (r: Point)
        ensures
            r == self.at(leg),
    {
        match leg {
            Leg::FrontLeft => self.front_left,
            Leg::BottomLeft => self.bottom_left,
            Leg::FrontRight => self.front_right,
            Leg::BottomRight => self.bottom_right,
        }
    }

    pub fn set(&mut self, leg: Leg, p: Point)
        ensures
            *final(self) == old(self).with(leg, p),
    {
        match leg {
            Leg::FrontLeft => self.front_left = p,
            Leg::BottomLeft => self.bottom_left = p,
            Leg::FrontRight => self.front_right = p,
            Leg::BottomRight => self.bottom_right = p,
        }
    }
}

} // verus!
