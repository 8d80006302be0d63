//! The trajectory executor's arithmetic: one interpolation tick, the
//! completion test, and how many ticks a command takes.
use vstd::prelude::*;
use crate::commands::{axis_converging, heading, point_converging, point_heading, ServoCommand};
use crate::config::{MAX_COORD, MAX_STEP};
use crate::leg::Leg;
use crate::position::{LegPositions, Point};

verus! {

pub open spec fn abs(a: int) -> int {
    if a < 0 {
        -a
    } else {
        a
    }
}

/// One tick on one axis: advance by the step while at least a step is left,
/// else land exactly on the target.
pub open spec fn axis_tick(c: i32, e: i32, v: i32) -> i32 {
    if abs(c - e) >= abs(v as int) {
        (c + v) as i32
    } else {
        e
    }
}

pub open spec fn point_tick(c: Point, e: Point, v: Point) -> Point {
    Point { x: axis_tick(c.x, e.x, v.x), y: axis_tick(c.y, e.y, v.y), z: axis_tick(c.z, e.z, v.z) }
}

/// `n` ticks on one axis.
pub open spec fn axis_after(c: i32, e: i32, v: i32, n: nat) -> i32
    decreases n,
{
    if n == 0 {
        c
    } else {
        axis_tick(axis_after(c, e, v, (n - 1) as nat), e, v)
    }
}

/// Ticks one axis takes to land on its target.
pub open spec fn axis_ticks(c: i32, e: i32, v: i32) -> int {
    if c == e {
        0
    } else {
        (abs(e - c) + abs(v as int) - 1) / abs(v as int)
    }
}

pub open spec fn max(a: int, b: int) -> int {
    if a >= b {
        a
    } else {
        b
    }
}

pub open spec fn point_ticks(c: Point, e: Point, v: Point) -> int {
    max(axis_ticks(c.x, e.x, v.x), max(axis_ticks(c.y, e.y, v.y), axis_ticks(c.z, e.z, v.z)))
}

impl ServoCommand {
    /// The command after one tick: every axis of every leg advanced.
    pub open spec fn ticked(self) -> ServoCommand {
        let c = self.current_pos;
        let e = self.expected_pos;
        let v = self.velocity;
        ServoCommand {
            current_pos: LegPositions {
                front_left: point_tick(c.front_left, e.front_left, v.front_left),
                bottom_left: point_tick(c.bottom_left, e.bottom_left, v.bottom_left),
                front_right: point_tick(c.front_right, e.front_right, v.front_right),
                bottom_right: point_tick(c.bottom_right, e.bottom_right, v.bottom_right),
            },
            ..self
        }
    }

    /// The command after `n` ticks.
    pub open spec fn after(self, n: nat) -> ServoCommand
        decreases n,
    {
        if n == 0 {
            self
        } else {
            self.after((n - 1) as nat).ticked()
        }
    }

    /// The foot of `leg` is on its target.
    pub open spec fn leg_done(self, leg: Leg) -> bool {
        self.current_pos.at(leg) == self.expected_pos.at(leg)
    }

    /// All twelve coordinates are on their targets.
    pub open spec fn done(self) -> bool {
        forall|leg: Leg| #[trigger] self.leg_done(leg)
    }

    /// Every axis is on its target or has a step toward it.
    pub open spec fn converging(self) -> bool {
        forall|leg: Leg|
            point_converging(
                #[trigger] self.current_pos.at(leg),
                self.expected_pos.at(leg),
                self.velocity.at(leg),
            )
    }

    /// Ticks the command takes: the most that any axis takes, each axis
    /// needing its distance over its step, rounded up.
    pub open spec fn ticks_needed(self) -> int {
        let c = self.current_pos;
        let e = self.expected_pos;
        let v = self.velocity;
        max(
            max(
                point_ticks(c.front_left, e.front_left, v.front_left),
                point_ticks(c.bottom_left, e.bottom_left, v.bottom_left),
            ),
            max(
                point_ticks(c.front_right, e.front_right, v.front_right),
                point_ticks(c.bottom_right, e.bottom_right, v.bottom_right),
            ),
        )
    }
}

/// Where one axis is after `n` ticks: on its target once `n` steps cover
/// the distance, else `n` steps along.
pub open spec fn axis_closed(c: i32, e: i32, v: i32, n: nat) -> int {
    if n * abs(v as int) >= abs(e - c) {
        e as int
    } else {
        c + n * v
    }
}

proof fn lemma_axis_after(c: i32, e: i32, v: i32, n: nat)
    requires
        axis_converging(c, e, v),
        c != e,
    ensures
        axis_after(c, e, v, n) == axis_closed(c, e, v, n),
    decreases n,
{
    let s = abs(v as int);
    let d = abs(e - c);
    if n > 0 {
        let m = (n - 1) as nat;
        lemma_axis_after(c, e, v, m);
        assert(n * s == m * s + s) by (nonlinear_arith)
            requires
                n == m + 1,
        ;
        assert(n * v == m * v + v) by (nonlinear_arith)
            requires
                n == m + 1,
        ;
        assert(m * s >= 0) by (nonlinear_arith)
            requires
                s >= 0,
        ;
        if m * s < d {
            // still on the way: the remaining distance is `d - m * s`
            if v > 0 {
                assert(m * v == m * s);
            } else {
                assert(m * v == -(m * s)) by (nonlinear_arith)
                    requires
                        s == -v,
                ;
            }
        }
    }
}

proof fn lemma_axis_lands(c: i32, e: i32, v: i32, n: nat)
    requires
        axis_converging(c, e, v),
    ensures
        axis_after(c, e, v, n) == e <==> n >= axis_ticks(c, e, v),
    decreases n,
{
    if c == e {
        lemma_axis_stays(c, e, v, n);
    } else {
        lemma_axis_after(c, e, v, n);
        let s = abs(v as int);
        let d = abs(e - c);
        assert(s > 0 && d > 0);
        assert(n * s >= d <==> n >= (d + s - 1) / s) by (nonlinear_arith)
            requires
                s > 0,
                d > 0,
                n >= 0,
        ;
        if n * s < d {
            if v > 0 {
                assert(n * v == n * s);
            } else {
                assert(n * v == -(n * s)) by (nonlinear_arith)
                    requires
                        s == -v,
                ;
            }
        }
    }
}

proof fn lemma_axis_stays(c: i32, e: i32, v: i32, n: nat)
    requires
        c == e,
    ensures
        axis_after(c, e, v, n) == e,
    decreases n,
{
    if n > 0 {
        lemma_axis_stays(c, e, v, (n - 1) as nat);
    }
}

pub open spec fn point_after(c: Point, e: Point, v: Point, n: nat) -> Point {
    Point { x: axis_after(c.x, e.x, v.x, n), y: axis_after(c.y, e.y, v.y, n), z: axis_after(c.z, e.z, v.z, n) }
}

proof fn lemma_after_per_leg(cmd: ServoCommand, n: nat)
    ensures
        cmd.after(n).expected_pos == cmd.expected_pos,
        cmd.after(n).velocity == cmd.velocity,
        forall|leg: Leg|
            #[trigger] cmd.after(n).current_pos.at(leg) == point_after(
                cmd.current_pos.at(leg),
                cmd.expected_pos.at(leg),
                cmd.velocity.at(leg),
                n,
            ),
    decreases n,
{
    if n > 0 {
        lemma_after_per_leg(cmd, (n - 1) as nat);
        let prev = cmd.after((n - 1) as nat);
        assert forall|leg: Leg|
            #[trigger] cmd.after(n).current_pos.at(leg) == point_after(
                cmd.current_pos.at(leg),
                cmd.expected_pos.at(leg),
                cmd.velocity.at(leg),
                n,
            ) by {
            assert(prev.current_pos.at(leg) == point_after(
                cmd.current_pos.at(leg),
                cmd.expected_pos.at(leg),
                cmd.velocity.at(leg),
                (n - 1) as nat,
            ));
            match leg {
                Leg::FrontLeft => {},
                Leg::BottomLeft => {},
                Leg::FrontRight => {},
                Leg::BottomRight => {},
            }
        }
    }
}

proof fn lemma_point_lands(c: Point, e: Point, v: Point, n: nat)
    requires
        point_converging(c, e, v),
    ensures
        point_after(c, e, v, n) == e <==> n >= point_ticks(c, e, v),
{
    lemma_axis_lands(c.x, e.x, v.x, n);
    lemma_axis_lands(c.y, e.y, v.y, n);
    lemma_axis_lands(c.z, e.z, v.z, n);
}

/// Tick determinism: interpolating a command in which every axis is on its
/// target or has a step toward it puts every foot exactly on its target after
/// `ticks_needed()` ticks (the most that any axis needs: its distance over its
/// step, rounded up), and not one tick earlier.
pub proof fn lemma_converges_in_ticks_needed(cmd: ServoCommand, n: nat)
    requires
        cmd.converging(),
    ensures
        cmd.after(n).done() <==> n >= cmd.ticks_needed(),
{
    lemma_after_per_leg(cmd, n);
    let a = cmd.after(n);
    let c = cmd.current_pos;
    let e = cmd.expected_pos;
    let v = cmd.velocity;
    assert(point_converging(c.at(Leg::FrontLeft), e.at(Leg::FrontLeft), v.at(Leg::FrontLeft)));
    assert(point_converging(c.at(Leg::BottomLeft), e.at(Leg::BottomLeft), v.at(Leg::BottomLeft)));
    assert(point_converging(c.at(Leg::FrontRight), e.at(Leg::FrontRight), v.at(Leg::FrontRight)));
    assert(point_converging(
        c.at(Leg::BottomRight),
        e.at(Leg::BottomRight),
        v.at(Leg::BottomRight),
    ));
    lemma_point_lands(c.front_left, e.front_left, v.front_left, n);
    lemma_point_lands(c.bottom_left, e.bottom_left, v.bottom_left, n);
    lemma_point_lands(c.front_right, e.front_right, v.front_right, n);
    lemma_point_lands(c.bottom_right, e.bottom_right, v.bottom_right, n);
    assert(a.leg_done(Leg::FrontLeft) <==> n >= point_ticks(c.front_left, e.front_left, v.front_left));
    assert(a.leg_done(Leg::BottomLeft) <==> n >= point_ticks(c.bottom_left, e.bottom_left, v.bottom_left));
    assert(a.leg_done(Leg::FrontRight) <==> n >= point_ticks(c.front_right, e.front_right, v.front_right));
    assert(a.leg_done(Leg::BottomRight) <==> n >= point_ticks(c.bottom_right, e.bottom_right, v.bottom_right));
    if n >= cmd.ticks_needed() {
        assert forall|leg: Leg| #[trigger] a.leg_done(leg) by {
            match leg {
                Leg::FrontLeft => {},
                Leg::BottomLeft => {},
                Leg::FrontRight => {},
                Leg::BottomRight => {},
            }
        }
    }
}

fn axis_tick_exec(c: i32, e: i32, v: i32) -> (r: i32)
    requires
        -MAX_COORD <= c <= MAX_COORD,
        -MAX_COORD <= e <= MAX_COORD,
        -MAX_STEP <= v <= MAX_STEP,
        heading(c, e, v),
    ensures
        r == axis_tick(c, e, v),
        -MAX_COORD <= r <= MAX_COORD,
        heading(r, e, v),
{
    let diff: i32 = if c >= e {
        c - e
    } else {
        e - c
    };
    let step: i32 = if v >= 0 {
        v
    } else {
        -v
    };
    if diff >= step {
        c + v
    } else {
        e
    }
}

fn point_tick_exec(c: Point, e: Point, v: Point) -> (r: Point)
    requires
        c.within(MAX_COORD as int),
        e.within(MAX_COORD as int),
        v.within(MAX_STEP as int),
        point_heading(c, e, v),
    ensures
        r == point_tick(c, e, v),
        r.within(MAX_COORD as int),
        point_heading(r, e, v),
{
    Point {
        x: axis_tick_exec(c.x, e.x, v.x),
        y: axis_tick_exec(c.y, e.y, v.y),
        z: axis_tick_exec(c.z, e.z, v.z),
    }
}

/// Advances every axis of every leg by one interpolation tick: by its step
/// while at least a step remains, else exactly onto its target.
pub fn tick(cmd: &mut ServoCommand)
    requires
        old(cmd).wf(),
    ensures
        final(cmd).wf(),
        *final(cmd) == old(cmd).ticked(),
{
    let c = cmd.current_pos;
    let e = cmd.expected_pos;
    let v = cmd.velocity;
    assert(cmd.wf());
    assert(point_heading(c.at(Leg::FrontLeft), e.at(Leg::FrontLeft), v.at(Leg::FrontLeft)));
    assert(point_heading(c.at(Leg::BottomLeft), e.at(Leg::BottomLeft), v.at(Leg::BottomLeft)));
    assert(point_heading(c.at(Leg::FrontRight), e.at(Leg::FrontRight), v.at(Leg::FrontRight)));
    assert(point_heading(
        c.at(Leg::BottomRight),
        e.at(Leg::BottomRight),
        v.at(Leg::BottomRight),
    ));
    assert(c.at(Leg::FrontLeft).within(MAX_COORD as int) && e.at(Leg::FrontLeft).within(
        MAX_COORD as int,
    ) && v.at(Leg::FrontLeft).within(MAX_STEP as int));
    assert(c.at(Leg::BottomLeft).within(MAX_COORD as int) && e.at(Leg::BottomLeft).within(
        MAX_COORD as int,
    ) && v.at(Leg::BottomLeft).within(MAX_STEP as int));
    assert(c.at(Leg::FrontRight).within(MAX_COORD as int) && e.at(Leg::FrontRight).within(
        MAX_COORD as int,
    ) && v.at(Leg::FrontRight).within(MAX_STEP as int));
    assert(c.at(Leg::BottomRight).within(MAX_COORD as int) && e.at(Leg::BottomRight).within(
        MAX_COORD as int,
    ) && v.at(Leg::BottomRight).within(MAX_STEP as int));
    cmd.current_pos = LegPositions {
        front_left: point_tick_exec(c.front_left, e.front_left, v.front_left),
        bottom_left: point_tick_exec(c.bottom_left, e.bottom_left, v.bottom_left),
        front_right: point_tick_exec(c.front_right, e.front_right, v.front_right),
        bottom_right: point_tick_exec(c.bottom_right, e.bottom_right, v.bottom_right),
    };
    proof {
        let n = *cmd;
        assert forall|leg: Leg|
            #![trigger n.current_pos.at(leg)]
            point_heading(n.current_pos.at(leg), n.expected_pos.at(leg), n.velocity.at(leg))
                && n.current_pos.at(leg).within(MAX_COORD as int) by {
            match leg {
                Leg::FrontLeft => {},
                Leg::BottomLeft => {},
                Leg::FrontRight => {},
                Leg::BottomRight => {},
            }
        }
    }
}

/// Whether the foot of `leg` is on its target.
pub fn leg_movement_is_done(cmd: &ServoCommand, leg: Leg) -> (r: bool)
    ensures
        r == cmd.leg_done(leg),
{
    let c = cmd.current_pos.get(leg);
    let e = cmd.expected_pos.get(leg);
    c.x == e.x && c.y == e.y && c.z == e.z
}

/// Whether all twelve coordinates are exactly on their targets.
pub fn movement_is_done(cmd: &ServoCommand) -> (r: bool)
    ensures
        r == cmd.done(),
{
    let all = leg_movement_is_done(cmd, Leg::FrontLeft) && leg_movement_is_done(
        cmd,
        Leg::BottomLeft,
    ) && leg_movement_is_done(cmd, Leg::FrontRight) && leg_movement_is_done(
        cmd,
        Leg::BottomRight,
    );
    proof {
        if all {
            assert forall|leg: Leg| #[trigger] cmd.leg_done(leg) by {
                match leg {
                    Leg::FrontLeft => {},
                    Leg::BottomLeft => {},
                    Leg::FrontRight => {},
                    Leg::BottomRight => {},
                }
            }
        }
    }
    all
}

} // verus!
