//! The gait sequencer: owns the robot's commanded and assumed foot positions
//! and turns each locomotion primitive into a sequence of waypoint sets.
use vstd::prelude::*;
use crate::commands::{point_converging, point_heading, ServoCommand, TcpCommand};
use crate::config::{
    valid_speed, RobotConfig, BODY_SHIFT, KEEP, MAX_COORD, MAX_MULTIPLE, MAX_SPEED, MAX_STEP, X_DEFAULT,
    X_OFFSET, Y_START, Y_STEP, Z_BOOT, Z_DEFAULT,
};
use crate::gait_plan::{
    calibrate_sites, calibrate_sites_vec, posture_sites, posture_sites_vec, sites_valid,
    step_forward_sites, step_forward_sites_vec, turn_left_sites, turn_left_sites_vec,
    turn_right_sites, turn_right_sites_vec, sites_distinct, valid_arg, wave_leg, wave_sites, wave_sites_vec, Site, Y_MID,
    body_shift_sites, shifted,
};
use crate::leg::Leg;
use crate::math::{floor_sqrt, is_floor_sqrt, isqrt};
use crate::position::{LegPositions, Point};

verus! {

/// Distance to cover on one axis; none where the axis is kept.
pub open spec fn axis_delta(target: i32, cur: i32) -> int {
    if target == KEEP {
        0
    } else {
        target - cur
    }
}

/// New target on one axis.
pub open spec fn axis_target(target: i32, prev: i32) -> i32 {
    if target == KEEP {
        prev
    } else {
        target
    }
}

/// Step per tick on one axis: the axis's share `d / len` of `speed`,
/// rounded toward zero, but at least one unit where there is distance to
/// cover. No distance gives no step.
pub open spec fn axis_step(d: int, len: int, speed: int) -> int {
    if d == 0 {
        0
    } else if d > 0 {
        if d * speed / len == 0 {
            1
        } else {
            d * speed / len
        }
    } else {
        if (-d) * speed / len == 0 {
            -1
        } else {
            -((-d) * speed / len)
        }
    }
}

/// Per-tick step toward the target `(x, y, z)` from `cur`: the straight
/// line scaled to `speed`, the zero vector when there is nowhere to go.
pub open spec fn site_velocity(cur: Point, x: i32, y: i32, z: i32, speed: int) -> Point {
    let dx = axis_delta(x, cur.x);
    let dy = axis_delta(y, cur.y);
    let dz = axis_delta(z, cur.z);
    let len = floor_sqrt(dx * dx + dy * dy + dz * dz);
    Point {
        x: axis_step(dx, len, speed) as i32,
        y: axis_step(dy, len, speed) as i32,
        z: axis_step(dz, len, speed) as i32,
    }
}

pub open spec fn site_target(prev: Point, x: i32, y: i32, z: i32) -> Point {
    Point { x: axis_target(x, prev.x), y: axis_target(y, prev.y), z: axis_target(z, prev.z) }
}

/// Where the feet rest at power-up: the left pair half a stride ahead.
pub open spec fn boot_pose() -> LegPositions {
    LegPositions {
        front_left: Point {
            x: (X_DEFAULT - X_OFFSET) as i32,
            y: (Y_START + Y_STEP) as i32,
            z: Z_BOOT,
        },
        bottom_left: Point {
            x: (X_DEFAULT - X_OFFSET) as i32,
            y: (Y_START + Y_STEP) as i32,
            z: Z_BOOT,
        },
        front_right: Point { x: (X_DEFAULT + X_OFFSET) as i32, y: Y_START, z: Z_BOOT },
        bottom_right: Point { x: (X_DEFAULT + X_OFFSET) as i32, y: Y_START, z: Z_BOOT },
    }
}

proof fn lemma_square_bound(d: int, len: int)
    requires
        d * d < (len + 1) * (len + 1),
        0 <= len,
    ensures
        -len <= d <= len,
{
    if d > len {
        assert(d * d >= (len + 1) * (len + 1)) by (nonlinear_arith)
            requires
                d >= len + 1,
                len >= 0,
        ;
    }
    if d < -len {
        assert(d * d >= (len + 1) * (len + 1)) by (nonlinear_arith)
            requires
                -d >= len + 1,
                len >= 0,
        ;
    }
}

proof fn lemma_delta_within_len(dx: int, dy: int, dz: int, len: int)
    requires
        is_floor_sqrt(dx * dx + dy * dy + dz * dz, len),
    ensures
        -len <= dx <= len,
        -len <= dy <= len,
        -len <= dz <= len,
        (dx != 0 || dy != 0 || dz != 0) ==> len >= 1,
{
    assert(dx * dx + dy * dy + dz * dz >= dx * dx && dx * dx + dy * dy + dz * dz >= dy * dy
        && dx * dx + dy * dy + dz * dz >= dz * dz) by (nonlinear_arith);
    lemma_square_bound(dx, len);
    lemma_square_bound(dy, len);
    lemma_square_bound(dz, len);
    if dx != 0 || dy != 0 || dz != 0 {
        assert(dx * dx + dy * dy + dz * dz >= 1) by (nonlinear_arith)
            requires
                dx != 0 || dy != 0 || dz != 0,
        ;
    }
}

/// `axis_step`, for distances no longer than `len`.
fn step_for(d: i64, len: i64, speed: i64) -> (r: i32)
    requires
        -len <= d <= len,
        d != 0 ==> len >= 1,
        0 <= speed <= MAX_SPEED * MAX_MULTIPLE,
        len <= 1_000_000,
    ensures
        r == axis_step(d as int, len as int, speed as int),
        -MAX_STEP <= r <= MAX_STEP,
        d > 0 ==> r > 0,
        d < 0 ==> r < 0,
        d == 0 ==> r == 0,
{
    if d == 0 {
        return 0;
    }
    let mag: i64 = if d > 0 {
        d
    } else {
        -d
    };
    assert(0 <= mag * speed <= 1_000_000 * 1_600_000) by (nonlinear_arith)
        requires
            0 <= mag <= 1_000_000,
            0 <= speed <= 1_600_000,
    ;
    let q: i64 = mag * speed / len;
    assert(0 <= q <= speed) by (nonlinear_arith)
        requires
            q as int == (mag as int * speed as int) / len as int,
            mag <= len,
            len >= 1,
            speed >= 0,
            mag >= 0,
    ;
    let m: i64 = if q == 0 {
        1
    } else {
        q
    };
    if d > 0 {
        m as i32
    } else {
        -(m as i32)
    }
}

/// The locomotion primitive being run, or none.
#[derive(Debug, Clone, Copy, PartialEq, Eq, Structural)]
pub enum Motion {
    Idle,
    Sit,
    Stand,
    Calibrate,
    StepForward,
    TurnLeft,
    TurnRight,
    Wave,
}

/// Number of waypoint sets in one cycle of `motion`.
pub open spec fn phases_per_cycle(motion: Motion, swings: u32) -> nat {
    match motion {
        Motion::StepForward => 7,
        Motion::TurnLeft => 7,
        Motion::TurnRight => 7,
        Motion::Wave => (2 * swings + 3) as nat,
        _ => 1,
    }
}

/// The gait sequencer. `current_pos` is where the feet are assumed to be,
/// `expected_pos` where they are commanded to go and `velocity` the
/// per-tick step toward it.
#[derive(Debug, Clone, Copy, PartialEq, Eq, Structural)]
pub struct GaitEngine {
    pub current_pos: LegPositions,
    pub expected_pos: LegPositions,
    pub velocity: LegPositions,
    pub config: RobotConfig,
    /// Primitive being run.
    pub motion: Motion,
    /// Cycles of the primitive not yet finished, the current one included.
    pub remaining: u32,
    /// Next waypoint set within the current cycle.
    pub phase: u32,
    /// Swings of a wave.
    pub swings: u32,
    /// Which leg pair leads the current cycle, chosen as it starts.
    pub lead: bool,
    /// Position of the waving leg before the wave.
    pub saved: Point,
}

/// The leg whose forward coordinate, compared with `Y_START` as a cycle
/// starts, decides which leg pair leads it.
pub open spec fn reference_leg(motion: Motion) -> Leg {
    match motion {
        Motion::TurnLeft => Leg::BottomRight,
        Motion::Wave => Leg::BottomRight,
        _ => Leg::FrontRight,
    }
}

impl GaitEngine {
    /// Nothing is left to hand to the executor.
    pub open spec fn finished(self) -> bool {
        self.motion == Motion::Idle || self.remaining == 0
    }

    /// At the start of a cycle, the lead chosen from the reference leg; for
    /// a wave, once the body has shifted, the waving leg's position
    /// remembered.
    pub open spec fn starting(self) -> GaitEngine {
        if self.phase == 0 {
            GaitEngine {
                lead: self.current_pos.at(reference_leg(self.motion)).y == Y_START,
                ..self
            }
        } else if self.phase == 1 && self.motion == Motion::Wave {
            GaitEngine { saved: self.current_pos.at(wave_leg(self.lead)), ..self }
        } else {
            self
        }
    }

    /// The `set_site` calls of the next waypoint set.
    pub open spec fn phase_sites(self) -> Seq<Site> {
        let c = self.config;
        match self.motion {
            Motion::Sit => posture_sites(Z_BOOT, c.stand_seat_speed),
            Motion::Stand => posture_sites(Z_DEFAULT, c.stand_seat_speed),
            Motion::Calibrate => calibrate_sites(c.move_speed),
            Motion::StepForward => step_forward_sites(c, self.lead, self.phase as int),
            Motion::TurnLeft => turn_left_sites(c, self.lead, self.phase as int),
            Motion::TurnRight => turn_right_sites(c, self.lead, self.phase as int),
            Motion::Wave => wave_sites(
                c,
                self.lead,
                self.phase as int,
                self.swings as int,
                self.saved,
                self.current_pos,
            ),
            Motion::Idle => seq![],
        }
    }

    /// Moves on to the next waypoint set, the next cycle, or rest.
    pub open spec fn advanced(self) -> GaitEngine {
        if self.phase + 1 < phases_per_cycle(self.motion, self.swings) {
            GaitEngine { phase: (self.phase + 1) as u32, ..self }
        } else if self.remaining <= 1 {
            GaitEngine { phase: 0, remaining: 0, motion: Motion::Idle, ..self }
        } else {
            GaitEngine { phase: 0, remaining: (self.remaining - 1) as u32, ..self }
        }
    }

    /// The engine after the `set_site` calls `s`, in order.
    pub open spec fn with_sites(self, s: Seq<Site>) -> GaitEngine
        decreases s.len(),
    {
        if s.len() == 0 {
            self
        } else {
            let last = s.last();
            self.with_sites(s.drop_last()).with_site(last.leg, last.x, last.y, last.z, last.speed)
        }
    }

    /// The engine after `next_waypoint` has issued the next waypoint set.
    pub open spec fn stepped(self) -> GaitEngine {
        let s = self.starting();
        s.with_sites(s.phase_sites()).advanced()
    }

    /// The engine once the executor has reported the issued waypoint set
    /// reached.
    pub open spec fn reached(self) -> GaitEngine {
        GaitEngine { current_pos: self.expected_pos, ..self }
    }

    /// The engine after `n` waypoint sets, each issued and then reached.
    pub open spec fn run_reached(self, n: nat) -> GaitEngine
        decreases n,
    {
        if n == 0 {
            self
        } else {
            self.stepped().reached().run_reached((n - 1) as nat)
        }
    }

    /// The engine after one waypoint set per entry of `outcomes` is issued,
    /// each then reported reached (`true`, its positions adopted) or timed
    /// out (`false`, nothing adopted).
    pub open spec fn run_with(self, outcomes: Seq<bool>) -> GaitEngine
        decreases outcomes.len(),
    {
        if outcomes.len() == 0 {
            self
        } else {
            let s = self.stepped();
            let next = if outcomes[0] {
                s.reached()
            } else {
                s
            };
            next.run_with(outcomes.drop_first())
        }
    }

    /// The engine once the running primitive is started with `motion`.
    pub open spec fn started(self, motion: Motion, cycles: int, swings: int) -> GaitEngine {
        GaitEngine {
            motion,
            remaining: cycles as u32,
            phase: 0,
            swings: swings as u32,
            ..self
        }
    }

    pub open spec fn message(self) -> ServoCommand {
        ServoCommand {
            current_pos: self.current_pos,
            expected_pos: self.expected_pos,
            velocity: self.velocity,
        }
    }

    pub open spec fn wf(self) -> bool {
        &&& self.config.wf()
        &&& self.message().wf()
        &&& self.saved.within(MAX_COORD as int)
        &&& self.swings <= 255
        &&& self.phase < phases_per_cycle(self.motion, self.swings)
    }

    /// The engine after `set_site(leg, x, y, z, speed)`.
    pub open spec fn with_site(self, leg: Leg, x: i32, y: i32, z: i32, speed: i32) -> GaitEngine {
        GaitEngine {
            expected_pos: self.expected_pos.with(
                leg,
                site_target(self.expected_pos.at(leg), x, y, z),
            ),
            velocity: self.velocity.with(
                leg,
                site_velocity(
                    self.current_pos.at(leg),
                    x,
                    y,
                    z,
                    speed * self.config.speed_multiple,
                ),
            ),
            ..self
        }
    }

    /// A sequencer with the given configuration, all feet at the origin and
    /// nothing to do.
    pub fn new(config: RobotConfig) -> (r: GaitEngine)
        requires
            config.wf(),
        ensures
            r.wf(),
            r.config == config,
            r.motion == Motion::Idle,
            r.current_pos == LegPositions::all_spec(Point::zero_spec()),
            r.expected_pos == LegPositions::all_spec(Point::zero_spec()),
            r.velocity == LegPositions::all_spec(Point::zero_spec()),
    {
        let zero = LegPositions::all(Point::zero());
        GaitEngine {
            current_pos: zero,
            expected_pos: zero,
            velocity: zero,
            config,
            motion: Motion::Idle,
            remaining: 0,
            phase: 0,
            swings: 0,
            lead: true,
            saved: Point::zero(),
        }
    }

    /// The configuration the sequencer was built with.
    pub fn config(&self) -> (r: &RobotConfig)
        ensures
            *r == self.config,
    {
        &self.config
    }

    /// Commands `leg` toward `(x, y, z)`, leaving each axis given as `KEEP`
    /// where it was, and sets its step per tick to the straight line toward
    /// the target at `speed` times the speed multiplier (no step when there
    /// is nowhere to go). Where the feet are assumed to be does not change.
    pub fn set_site(&mut self, leg: Leg, x: i32, y: i32, z: i32, speed: i32)
        requires
            old(self).wf(),
            valid_arg(x),
            valid_arg(y),
            valid_arg(z),
            valid_speed(speed),
        ensures
            final(self).wf(),
            *final(self) == old(self).with_site(leg, x, y, z, speed),
            x == KEEP ==> final(self).expected_pos.at(leg).x == old(self).expected_pos.at(leg).x,
            y == KEEP ==> final(self).expected_pos.at(leg).y == old(self).expected_pos.at(leg).y,
            z == KEEP ==> final(self).expected_pos.at(leg).z == old(self).expected_pos.at(leg).z,
            x != KEEP ==> final(self).expected_pos.at(leg).x == x,
            y != KEEP ==> final(self).expected_pos.at(leg).y == y,
            z != KEEP ==> final(self).expected_pos.at(leg).z == z,
            forall|l: Leg|
                l != leg ==> #[trigger] final(self).expected_pos.at(l) == old(self).expected_pos.at(
                    l,
                ) && final(self).velocity.at(l) == old(self).velocity.at(l),
            ({
                let cur = old(self).current_pos.at(leg);
                axis_delta(x, cur.x) == 0 && axis_delta(y, cur.y) == 0 && axis_delta(z, cur.z)
                    == 0
            }) ==> final(self).velocity.at(leg) == Point::zero_spec(),
            old(self).current_pos.at(leg) == old(self).expected_pos.at(leg) ==> point_converging(
                final(self).current_pos.at(leg),
                final(self).expected_pos.at(leg),
                final(self).velocity.at(leg),
            ),
    {
        let cur = self.current_pos.get(leg);
        let prev = self.expected_pos.get(leg);
        assert(cur.within(MAX_COORD as int));
        assert(prev.within(MAX_COORD as int));
        let dx: i64 = if x == KEEP {
            0
        } else {
            x as i64 - cur.x as i64
        };
        let dy: i64 = if y == KEEP {
            0
        } else {
            y as i64 - cur.y as i64
        };
        let dz: i64 = if z == KEEP {
            0
        } else {
            z as i64 - cur.z as i64
        };
        assert(0 <= dx * dx <= 250_000_000_000 && 0 <= dy * dy <= 250_000_000_000 && 0 <= dz * dz
            <= 250_000_000_000) by (nonlinear_arith)
            requires
                -500_000 <= dx <= 500_000,
                -500_000 <= dy <= 500_000,
                -500_000 <= dz <= 500_000,
        ;
        let sq: i64 = dx * dx + dy * dy + dz * dz;
        let len = isqrt(sq as u64) as i64;
        proof {
            lemma_delta_within_len(dx as int, dy as int, dz as int, len as int);
            assert(len * len <= 750_000_000_000 ==> len <= 1_000_000) by (nonlinear_arith)
                requires
                    len >= 0,
            ;
        }
        assert(0 <= speed as i64 * self.config.speed_multiple as i64 <= 1_600_000)
            by (nonlinear_arith)
            requires
                0 <= speed <= 100_000,
                1 <= self.config.speed_multiple <= 16,
        ;
        let speed_total: i64 = speed as i64 * self.config.speed_multiple as i64;
        let vel = Point {
            x: step_for(dx, len, speed_total),
            y: step_for(dy, len, speed_total),
            z: step_for(dz, len, speed_total),
        };
        let target = Point {
            x: if x == KEEP {
                prev.x
            } else {
                x
            },
            y: if y == KEEP {
                prev.y
            } else {
                y
            },
            z: if z == KEEP {
                prev.z
            } else {
                z
            },
        };
        self.velocity.set(leg, vel);
        self.expected_pos.set(leg, target);
        proof {
            let new = *self;
            assert forall|l: Leg|
                #![trigger new.current_pos.at(l)]
                #![trigger new.expected_pos.at(l)]
                #![trigger new.velocity.at(l)]
                point_heading(
                    new.current_pos.at(l),
                    new.expected_pos.at(l),
                    new.velocity.at(l),
                ) && new.expected_pos.at(l).within(MAX_COORD as int) && new.velocity.at(
                    l,
                ).within(MAX_STEP as int) by {
                if l != leg {
                    assert(old(self).message().wf());
                    assert(point_heading(
                        old(self).current_pos.at(l),
                        old(self).expected_pos.at(l),
                        old(self).velocity.at(l),
                    ));
                    assert(old(self).expected_pos.at(l).within(MAX_COORD as int));
                    assert(old(self).velocity.at(l).within(MAX_STEP as int));
                }
            }
            assert forall|l: Leg| l != leg implies #[trigger] new.expected_pos.at(l)
                == old(self).expected_pos.at(l) && new.velocity.at(l) == old(self).velocity.at(
                l,
            ) by {
                match l {
                    Leg::FrontLeft => {},
                    Leg::BottomLeft => {},
                    Leg::FrontRight => {},
                    Leg::BottomRight => {},
                }
            }
        }
    }

    /// Adopts the commanded positions as the actual ones once the executor
    /// has reported them reached; after a timeout nothing changes.
    pub fn complete(&mut self, reached: bool)
        requires
            old(self).wf(),
        ensures
            final(self).wf(),
            reached ==> *final(self) == (GaitEngine {
                current_pos: old(self).expected_pos,
                ..*old(self)
            }),
            !reached ==> *final(self) == *old(self),
    {
        if reached {
            self.current_pos = self.expected_pos;
        }
    }

    /// The waypoint set to hand to the executor.
    pub fn servo_command(&self) -> (r: ServoCommand)
        requires
            self.wf(),
        ensures
            r == self.message(),
            r.wf(),
    {
        ServoCommand::new(self.current_pos, self.expected_pos, self.velocity)
    }

    /// Commands every leg to the boot pose and takes it as reached.
    pub fn init_positions(&mut self)
        requires
            old(self).wf(),
        ensures
            final(self).wf(),
            final(self).current_pos == boot_pose(),
            final(self).expected_pos == boot_pose(),
            final(self).config == old(self).config,
            final(self).motion == old(self).motion,
    {
        let speed = self.config.move_speed;
        self.set_site(Leg::FrontLeft, X_DEFAULT - X_OFFSET, Y_START + Y_STEP, Z_BOOT, speed);
        self.set_site(Leg::BottomLeft, X_DEFAULT - X_OFFSET, Y_START + Y_STEP, Z_BOOT, speed);
        self.set_site(Leg::FrontRight, X_DEFAULT + X_OFFSET, Y_START, Z_BOOT, speed);
        self.set_site(Leg::BottomRight, X_DEFAULT + X_OFFSET, Y_START, Z_BOOT, speed);
        self.complete(true);
        assert(self.expected_pos =~= boot_pose());
    }
}

impl GaitEngine {
    fn apply_sites(&mut self, sites: &Vec<Site>)
        requires
            old(self).wf(),
            sites_valid(sites@),
            sites_distinct(sites@),
        ensures
            final(self).wf(),
            *final(self) == old(self).with_sites(sites@),
            forall|leg: Leg|
                old(self).current_pos.at(leg) == old(self).expected_pos.at(leg) ==> point_converging(
                    #[trigger] final(self).current_pos.at(leg),
                    final(self).expected_pos.at(leg),
                    final(self).velocity.at(leg),
                ),
    {
        let mut i: usize = 0;
        while i < sites.len()
            invariant
                0 <= i <= sites@.len(),
                self.wf(),
                sites_valid(sites@),
                sites_distinct(sites@),
                *self == old(self).with_sites(sites@.take(i as int)),
                self.current_pos == old(self).current_pos,
                forall|j: int|
                    i <= j < sites@.len() ==> self.expected_pos.at((#[trigger] sites@[j]).leg)
                        == old(self).expected_pos.at(sites@[j].leg),
                forall|leg: Leg|
                    old(self).current_pos.at(leg) == old(self).expected_pos.at(leg)
                        ==> point_converging(
                        #[trigger] self.current_pos.at(leg),
                        self.expected_pos.at(leg),
                        self.velocity.at(leg),
                    ),
            decreases sites@.len() - i,
        {
            let s = sites[i];
            assert(crate::gait_plan::site_valid(sites@[i as int]));
            let ghost before = *self;
            self.set_site(s.leg, s.x, s.y, s.z, s.speed);
            assert forall|j: int| i + 1 <= j < sites@.len() implies self.expected_pos.at(
                (#[trigger] sites@[j]).leg,
            ) == old(self).expected_pos.at(sites@[j].leg) by {
                assert(sites@[i as int].leg != sites@[j].leg);
                assert(before.expected_pos.at(sites@[j].leg) == old(self).expected_pos.at(
                    sites@[j].leg,
                ));
            }
            assert forall|leg: Leg|
                old(self).current_pos.at(leg) == old(self).expected_pos.at(leg)
                    implies point_converging(
                    #[trigger] self.current_pos.at(leg),
                    self.expected_pos.at(leg),
                    self.velocity.at(leg),
                ) by {
                if leg != s.leg {
                    assert(point_converging(
                        before.current_pos.at(leg),
                        before.expected_pos.at(leg),
                        before.velocity.at(leg),
                    ));
                }
            }
            assert(sites@.take(i as int + 1).drop_last() =~= sites@.take(i as int));
            i = i + 1;
        }
        assert(sites@.take(sites@.len() as int) =~= sites@);
    }

    fn phase_sites_vec(&self) -> (r: Vec<Site>)
        requires
            self.wf(),
        ensures
            r@ == self.phase_sites(),
            sites_valid(r@),
            sites_distinct(r@),
    {
        let c = &self.config;
        match self.motion {
            Motion::Sit => posture_sites_vec(Z_BOOT, c.stand_seat_speed),
            Motion::Stand => posture_sites_vec(Z_DEFAULT, c.stand_seat_speed),
            Motion::Calibrate => calibrate_sites_vec(c.move_speed),
            Motion::StepForward => step_forward_sites_vec(c, self.lead, self.phase),
            Motion::TurnLeft => turn_left_sites_vec(c, self.lead, self.phase),
            Motion::TurnRight => turn_right_sites_vec(c, self.lead, self.phase),
            Motion::Wave => wave_sites_vec(
                c,
                self.lead,
                self.phase,
                self.swings,
                self.saved,
                &self.current_pos,
            ),
            Motion::Idle => Vec::new(),
        }
    }

    /// Issues the next waypoint set of the running primitive: chooses the
    /// leading leg pair if a cycle starts, performs its `set_site` calls and
    /// returns the command for the executor. `None` once the primitive is
    /// done.
    pub fn next_waypoint(&mut self) -> (r: Option<ServoCommand>)
        requires
            old(self).wf(),
        ensures
            final(self).wf(),
            old(self).finished() ==> r.is_none() && *final(self) == *old(self),
            !old(self).finished() ==> *final(self) == old(self).stepped() && r == Some(
                final(self).message(),
            ),
            !old(self).finished() && old(self).current_pos == old(self).expected_pos
                ==> final(self).message().converging(),
    {
        if self.motion == Motion::Idle || self.remaining == 0 {
            return None;
        }
        if self.phase == 0 {
            let lead = match self.motion {
                Motion::TurnLeft => self.current_pos.bottom_right.y == Y_START,
                Motion::Wave => self.current_pos.bottom_right.y == Y_START,
                _ => self.current_pos.front_right.y == Y_START,
            };
            self.lead = lead;
        } else if self.phase == 1 && self.motion == Motion::Wave {
            self.saved = if self.lead {
                self.current_pos.front_right
            } else {
                self.current_pos.front_left
            };
            assert(self.current_pos.at(wave_leg(self.lead)).within(MAX_COORD as int));
        }
        let sites = self.phase_sites_vec();
        self.apply_sites(&sites);
        if self.phase + 1 < self.phases_per_cycle_exec() {
            self.phase = self.phase + 1;
        } else if self.remaining <= 1 {
            self.phase = 0;
            self.remaining = 0;
            self.motion = Motion::Idle;
        } else {
            self.phase = 0;
            self.remaining = self.remaining - 1;
        }
        Some(self.servo_command())
    }

    fn phases_per_cycle_exec(&self) -> (r: u32)
        requires
            self.swings <= 255,
        ensures
            r == phases_per_cycle(self.motion, self.swings),
    {
        match self.motion {
            Motion::StepForward => 7,
            Motion::TurnLeft => 7,
            Motion::TurnRight => 7,
            Motion::Wave => 2 * self.swings + 3,
            _ => 1,
        }
    }

    /// Starts seating: every foot lowered to the boot height.
    pub fn sit(&mut self)
        requires
            old(self).wf(),
        ensures
            final(self).wf(),
            *final(self) == old(self).started(Motion::Sit, 1, 0),
    {
        self.start(Motion::Sit, 1, 0);
    }

    /// Starts standing up: every foot to the standing height.
    pub fn stand(&mut self)
        requires
            old(self).wf(),
        ensures
            final(self).wf(),
            *final(self) == old(self).started(Motion::Stand, 1, 0),
    {
        self.start(Motion::Stand, 1, 0);
    }

    /// Starts driving every foot to the coordinate origin.
    pub fn calibrate(&mut self)
        requires
            old(self).wf(),
        ensures
            final(self).wf(),
            *final(self) == old(self).started(Motion::Calibrate, 1, 0),
    {
        self.start(Motion::Calibrate, 1, 0);
    }

    /// Starts `times` step cycles.
    pub fn step_forward(&mut self, times: u8)
        requires
            old(self).wf(),
        ensures
            final(self).wf(),
            *final(self) == old(self).started(Motion::StepForward, times as int, 0),
    {
        self.start(Motion::StepForward, times as u32, 0);
    }

    /// Starts `times` cycles of turning left; none if `times` is not positive.
    pub fn turn_left(&mut self, times: i32)
        requires
            old(self).wf(),
        ensures
            final(self).wf(),
            *final(self) == old(self).started(
                Motion::TurnLeft,
                if times > 0 {
                    times as int
                } else {
                    0
                },
                0,
            ),
    {
        let cycles: u32 = if times > 0 {
            times as u32
        } else {
            0
        };
        self.start(Motion::TurnLeft, cycles, 0);
    }

    /// Starts `times` cycles of turning right; none if `times` is not positive.
    pub fn turn_right(&mut self, times: i32)
        requires
            old(self).wf(),
        ensures
            final(self).wf(),
            *final(self) == old(self).started(
                Motion::TurnRight,
                if times > 0 {
                    times as int
                } else {
                    0
                },
                0,
            ),
    {
        let cycles: u32 = if times > 0 {
            times as u32
        } else {
            0
        };
        self.start(Motion::TurnRight, cycles, 0);
    }

    /// Starts a wave of `times` swings.
    pub fn wave(&mut self, times: u8)
        requires
            old(self).wf(),
        ensures
            final(self).wf(),
            *final(self) == old(self).started(Motion::Wave, 1, times as int),
    {
        self.start(Motion::Wave, 1, times as u32);
    }

    /// Starts the primitive that `cmd` names. The demonstration and raw
    /// angles name none: nothing starts and the result is `false`.
    pub fn start_command(&mut self, cmd: TcpCommand) -> (started: bool)
        requires
            old(self).wf(),
        ensures
            final(self).wf(),
            started == !(cmd is Test || cmd is SetAngles),
            !started ==> *final(self) == *old(self),
            cmd is Sit ==> *final(self) == old(self).started(Motion::Sit, 1, 0),
            cmd is Stand ==> *final(self) == old(self).started(Motion::Stand, 1, 0),
            cmd is Calibrate ==> *final(self) == old(self).started(Motion::Calibrate, 1, 0),
            cmd matches TcpCommand::StepForward(n) ==> *final(self) == old(self).started(
                Motion::StepForward,
                n as int,
                0,
            ),
            cmd matches TcpCommand::TurnLeft(n) ==> *final(self) == old(self).started(
                Motion::TurnLeft,
                n as int,
                0,
            ),
            cmd matches TcpCommand::TurnRight(n) ==> *final(self) == old(self).started(
                Motion::TurnRight,
                n as int,
                0,
            ),
            cmd matches TcpCommand::Wave(n) ==> *final(self) == old(self).started(
                Motion::Wave,
                1,
                n as int,
            ),
    {
        match cmd {
            TcpCommand::Sit => self.sit(),
            TcpCommand::Stand => self.stand(),
            TcpCommand::Calibrate => self.calibrate(),
            TcpCommand::StepForward(n) => self.step_forward(n),
            TcpCommand::TurnLeft(n) => self.turn_left(n as i32),
            TcpCommand::TurnRight(n) => self.turn_right(n as i32),
            TcpCommand::Wave(n) => self.wave(n),
            TcpCommand::Test => {
                return false;
            },
            TcpCommand::SetAngles(_) => {
                return false;
            },
        }
        true
    }

    /// The demonstration: stand, five steps, five turns to the left and five
    /// to the right, five waves, sit; to be run in this order with pauses.
    pub fn do_test(&self) -> (r: Vec<TcpCommand>)
        ensures
            r@ == seq![
                TcpCommand::Stand,
                TcpCommand::StepForward(5),
                TcpCommand::TurnLeft(5),
                TcpCommand::TurnRight(5),
                TcpCommand::Wave(5),
                TcpCommand::Sit,
            ],
    {
        vec![
            TcpCommand::Stand,
            TcpCommand::StepForward(5),
            TcpCommand::TurnLeft(5),
            TcpCommand::TurnRight(5),
            TcpCommand::Wave(5),
            TcpCommand::Sit,
        ]
    }

    fn start(&mut self, motion: Motion, cycles: u32, swings: u32)
        requires
            old(self).wf(),
            swings <= 255,
        ensures
            final(self).wf(),
            *final(self) == old(self).started(motion, cycles as int, swings as int),
    {
        self.motion = motion;
        self.remaining = cycles;
        self.phase = 0;
        self.swings = swings;
    }
}

proof fn lemma_with_sites_frame(e: GaitEngine, s: Seq<Site>)
    ensures
        e.with_sites(s) == (GaitEngine {
            expected_pos: e.with_sites(s).expected_pos,
            velocity: e.with_sites(s).velocity,
            ..e
        }),
    decreases s.len(),
{
    if s.len() > 0 {
        lemma_with_sites_frame(e, s.drop_last());
    }
}

/// Sites for other legs leave the target of `leg` alone.
proof fn lemma_untouched_leg(e: GaitEngine, s: Seq<Site>, leg: Leg)
    requires
        forall|j: int| 0 <= j < s.len() ==> (#[trigger] s[j]).leg != leg,
    ensures
        e.with_sites(s).expected_pos.at(leg) == e.expected_pos.at(leg),
    decreases s.len(),
{
    if s.len() > 0 {
        lemma_untouched_leg(e, s.drop_last(), leg);
        let last = s.last();
        assert(last == s[s.len() - 1]);
        let prev = e.with_sites(s.drop_last());
        assert(prev.with_site(last.leg, last.x, last.y, last.z, last.speed).expected_pos.at(leg)
            == prev.expected_pos.at(leg)) by {
            match leg {
                Leg::FrontLeft => {},
                Leg::BottomLeft => {},
                Leg::FrontRight => {},
                Leg::BottomRight => {},
            }
        }
    }
}

/// The forward target of `leg` is the one its last site gives.
proof fn lemma_last_forward_target(e: GaitEngine, s: Seq<Site>, i: int, leg: Leg)
    requires
        0 <= i < s.len(),
        s[i].leg == leg,
        s[i].y != KEEP,
        forall|j: int| i < j < s.len() ==> (#[trigger] s[j]).leg != leg,
    ensures
        e.with_sites(s).expected_pos.at(leg).y == s[i].y,
    decreases s.len(),
{
    let last = s.last();
    assert(last == s[s.len() - 1]);
    let prev = e.with_sites(s.drop_last());
    if i < s.len() - 1 {
        lemma_last_forward_target(e, s.drop_last(), i, leg);
        assert(prev.with_site(last.leg, last.x, last.y, last.z, last.speed).expected_pos.at(leg)
            == prev.expected_pos.at(leg)) by {
            match leg {
                Leg::FrontLeft => {},
                Leg::BottomLeft => {},
                Leg::FrontRight => {},
                Leg::BottomRight => {},
            }
        }
    } else {
        assert(prev.with_site(last.leg, last.x, last.y, last.z, last.speed).expected_pos.at(leg).y
            == last.y) by {
            match leg {
                Leg::FrontLeft => {},
                Leg::BottomLeft => {},
                Leg::FrontRight => {},
                Leg::BottomRight => {},
            }
        }
    }
}

/// One waypoint set of a single step, issued and reached.
proof fn lemma_step_phase(e: GaitEngine)
    requires
        e.motion == Motion::StepForward,
        e.remaining == 1,
        e.phase < 7,
        e.phase > 0 ==> e.current_pos == e.expected_pos,
    ensures
        ({
            let r = e.stepped().reached();
            &&& e.phase < 6 ==> r.motion == Motion::StepForward && r.remaining == 1 && r.phase
                == e.phase + 1
            &&& e.phase == 6 ==> r.finished()
            &&& r.current_pos == r.expected_pos
            &&& e.phase > 0 ==> r.lead == e.lead
            &&& e.phase == 0 ==> r.lead == (e.current_pos.front_right.y == Y_START)
            &&& e.phase == 3 ==> r.current_pos.front_right.y == if r.lead {
                Y_MID
            } else {
                Y_START
            }
            &&& e.phase > 3 ==> r.current_pos.front_right.y == e.current_pos.front_right.y
        }),
{
    let st = e.starting();
    let sites = st.phase_sites();
    lemma_with_sites_frame(st, sites);
    if e.phase == 3 {
        lemma_last_forward_target(st, sites, 2, Leg::FrontRight);
    } else if e.phase > 3 {
        assert forall|j: int| 0 <= j < sites.len() implies (#[trigger] sites[j]).leg
            != Leg::FrontRight by {}
        lemma_untouched_leg(st, sites, Leg::FrontRight);
    }
}

/// Phase alternation: when every waypoint set of one step is reached, the
/// next step is led by the other leg pair. The step is seven waypoint sets
/// long and ends the primitive; the front right foot, whose forward
/// coordinate picks the lead, ends off the baseline if it started on it,
/// and on it otherwise.
pub proof fn lemma_step_alternates(e: GaitEngine)
    requires
        e.wf(),
        e.motion == Motion::StepForward,
        e.remaining == 1,
        e.phase == 0,
    ensures
        e.run_reached(7).finished(),
        (e.run_reached(7).current_pos.front_right.y == Y_START) != (e.current_pos.front_right.y
            == Y_START),
{
    reveal_with_fuel(GaitEngine::run_reached, 8);
    let e1 = e.stepped().reached();
    lemma_step_phase(e);
    let e2 = e1.stepped().reached();
    lemma_step_phase(e1);
    let e3 = e2.stepped().reached();
    lemma_step_phase(e2);
    let e4 = e3.stepped().reached();
    lemma_step_phase(e3);
    let e5 = e4.stepped().reached();
    lemma_step_phase(e4);
    let e6 = e5.stepped().reached();
    lemma_step_phase(e5);
    let e7 = e6.stepped().reached();
    lemma_step_phase(e6);
    assert(e.run_reached(7) == e7);
}

/// The target a waypoint set with distinct legs gives `leg`: what its site
/// for that leg makes of the target before.
proof fn lemma_site_target(e: GaitEngine, s: Seq<Site>, i: int, leg: Leg)
    requires
        0 <= i < s.len(),
        s[i].leg == leg,
        sites_distinct(s),
    ensures
        e.with_sites(s).expected_pos.at(leg) == site_target(
            e.expected_pos.at(leg),
            s[i].x,
            s[i].y,
            s[i].z,
        ),
    decreases s.len(),
{
    let last = s.last();
    assert(last == s[s.len() - 1]);
    let rest = s.drop_last();
    let prev = e.with_sites(rest);
    if i == s.len() - 1 {
        assert forall|j: int| 0 <= j < rest.len() implies (#[trigger] rest[j]).leg != leg by {
            assert(rest[j] == s[j]);
        }
        lemma_untouched_leg(e, rest, leg);
        assert(prev.with_site(last.leg, last.x, last.y, last.z, last.speed).expected_pos.at(leg)
            == site_target(prev.expected_pos.at(leg), last.x, last.y, last.z)) by {
            match leg {
                Leg::FrontLeft => {},
                Leg::BottomLeft => {},
                Leg::FrontRight => {},
                Leg::BottomRight => {},
            }
        }
    } else {
        assert(sites_distinct(rest)) by {
            assert forall|a: int, b: int| 0 <= a < b < rest.len() implies (#[trigger] rest[a]).leg
                != (#[trigger] rest[b]).leg by {
                assert(rest[a] == s[a] && rest[b] == s[b]);
            }
        }
        assert(rest[i] == s[i]);
        lemma_site_target(e, rest, i, leg);
        assert(s[i].leg != last.leg);
        assert(prev.with_site(last.leg, last.x, last.y, last.z, last.speed).expected_pos.at(leg)
            == prev.expected_pos.at(leg)) by {
            match leg {
                Leg::FrontLeft => {},
                Leg::BottomLeft => {},
                Leg::FrontRight => {},
                Leg::BottomRight => {},
            }
        }
    }
}

/// `p` moved by `d` along x, held within the legal coordinates.
pub open spec fn shifted_point(p: Point, d: i32) -> Point {
    Point { x: shifted(p.x, d), ..p }
}

/// The feet after a sideways body shift by `d`: the left feet by `d` along
/// x, the right feet by `-d`.
pub open spec fn body_shifted(p: LegPositions, d: i32) -> LegPositions {
    LegPositions {
        front_left: shifted_point(p.front_left, d),
        bottom_left: shifted_point(p.bottom_left, d),
        front_right: shifted_point(p.front_right, (0 - d) as i32),
        bottom_right: shifted_point(p.bottom_right, (0 - d) as i32),
    }
}

/// A body shift from where the feet are, reached.
proof fn lemma_body_shift_reached(e: GaitEngine, d: i32, speed: i32)
    requires
        e.current_pos == e.expected_pos,
    ensures
        e.with_sites(body_shift_sites(e.current_pos, d, speed)).reached().current_pos
            == body_shifted(e.current_pos, d),
{
    let sites = body_shift_sites(e.current_pos, d, speed);
    let r = e.with_sites(sites);
    assert(sites_distinct(sites));
    lemma_site_target(e, sites, 0, Leg::FrontLeft);
    lemma_site_target(e, sites, 1, Leg::BottomLeft);
    lemma_site_target(e, sites, 2, Leg::FrontRight);
    lemma_site_target(e, sites, 3, Leg::BottomRight);
    assert(r.expected_pos.at(Leg::FrontLeft) == body_shifted(e.current_pos, d).front_left);
    assert(r.expected_pos.at(Leg::BottomLeft) == body_shifted(e.current_pos, d).bottom_left);
    assert(r.expected_pos.at(Leg::FrontRight) == body_shifted(e.current_pos, d).front_right);
    assert(r.expected_pos.at(Leg::BottomRight) == body_shifted(e.current_pos, d).bottom_right);
}

/// How far a wave shifts the left feet along x while the waving leg is up.
pub open spec fn wave_away(lead: bool) -> i32 {
    if lead {
        (-BODY_SHIFT) as i32
    } else {
        BODY_SHIFT
    }
}

/// One waypoint set of a wave, issued and reached.
proof fn lemma_wave_phase(e: GaitEngine)
    requires
        e.motion == Motion::Wave,
        e.remaining == 1,
        e.swings <= 255,
        e.phase < 2 * e.swings + 3,
        e.current_pos == e.expected_pos,
        e.phase == 2 * e.swings + 1 ==> e.starting().saved.within(MAX_COORD as int),
    ensures
        ({
            let st = e.starting();
            let r = e.stepped().reached();
            let wl = wave_leg(st.lead);
            &&& r.current_pos == r.expected_pos
            &&& r.swings == e.swings && r.config == e.config
            &&& r.lead == st.lead && r.saved == st.saved
            &&& e.phase + 1 < 2 * e.swings + 3 ==> r.motion == Motion::Wave && r.remaining == 1
                && r.phase == e.phase + 1
            &&& e.phase + 1 == 2 * e.swings + 3 ==> r.finished()
            &&& e.phase == 0 ==> r.current_pos == body_shifted(e.current_pos, wave_away(st.lead))
            &&& 1 <= e.phase <= 2 * e.swings + 1 ==> forall|l: Leg|
                l != wl ==> #[trigger] r.current_pos.at(l) == e.current_pos.at(l)
            &&& e.phase == 2 * e.swings + 1 ==> r.current_pos.at(wl) == st.saved
            &&& e.phase == 2 * e.swings + 2 ==> r.current_pos == body_shifted(
                e.current_pos,
                (-wave_away(st.lead)) as i32,
            )
        }),
{
    let st = e.starting();
    let sites = st.phase_sites();
    let wl = wave_leg(st.lead);
    lemma_with_sites_frame(st, sites);
    let r = e.stepped().reached();
    assert(r.current_pos == st.with_sites(sites).reached().current_pos);
    if e.phase == 0 {
        assert(sites == body_shift_sites(st.current_pos, wave_away(st.lead), st.config.move_speed));
        lemma_body_shift_reached(st, wave_away(st.lead), st.config.move_speed);
    } else if e.phase == 2 * e.swings + 2 {
        assert(st == e);
        assert(sites == body_shift_sites(
            st.current_pos,
            (-wave_away(st.lead)) as i32,
            st.config.move_speed,
        ));
        lemma_body_shift_reached(st, (-wave_away(st.lead)) as i32, st.config.move_speed);
    } else {
        assert(sites.len() == 1 && sites[0].leg == wl);
        assert forall|l: Leg| l != wl implies #[trigger] st.with_sites(sites).reached().current_pos.at(
            l,
        ) == e.current_pos.at(l) by {
            assert forall|j: int| 0 <= j < sites.len() implies (#[trigger] sites[j]).leg != l by {}
            lemma_untouched_leg(st, sites, l);
        }
        if e.phase == 2 * e.swings + 1 {
            assert(sites_distinct(sites));
            lemma_site_target(st, sites, 0, wl);
        }
    }
}

proof fn lemma_run_reached_last(e: GaitEngine, n: nat)
    ensures
        e.run_reached(n + 1) == e.run_reached(n).stepped().reached(),
    decreases n,
{
    reveal_with_fuel(GaitEngine::run_reached, 2);
    if n > 0 {
        lemma_run_reached_last(e.stepped().reached(), (n - 1) as nat);
    }
}

/// The swings and the restore of a wave: every leg but the waving one
/// stays, and the waving one ends where it stood when they began.
proof fn lemma_wave_middle(m: GaitEngine, base: LegPositions, lead: bool, n: nat)
    requires
        m.motion == Motion::Wave,
        m.remaining == 1,
        m.lead == lead,
        m.swings <= 255,
        m.current_pos == m.expected_pos,
        1 <= m.phase,
        m.phase + n == 2 * m.swings + 2,
        forall|l: Leg| l != wave_leg(lead) ==> #[trigger] m.current_pos.at(l) == base.at(l),
        m.phase == 1 ==> m.current_pos.at(wave_leg(lead)) == base.at(wave_leg(lead)),
        m.phase >= 2 ==> m.saved == base.at(wave_leg(lead)),
        n == 0 ==> m.current_pos.at(wave_leg(lead)) == base.at(wave_leg(lead)),
        base.at(wave_leg(lead)).within(MAX_COORD as int),
    ensures
        ({
            let f = m.run_reached(n);
            &&& f.motion == Motion::Wave && f.remaining == 1 && f.lead == lead
            &&& f.phase == 2 * m.swings + 2 && f.swings == m.swings && f.config == m.config
            &&& f.current_pos == f.expected_pos
            &&& f.current_pos == base
        }),
    decreases n,
{
    let wl = wave_leg(lead);
    if n == 0 {
        assert(m.current_pos.at(Leg::FrontLeft) == base.at(Leg::FrontLeft));
        assert(m.current_pos.at(Leg::BottomLeft) == base.at(Leg::BottomLeft));
        assert(m.current_pos.at(Leg::FrontRight) == base.at(Leg::FrontRight));
        assert(m.current_pos.at(Leg::BottomRight) == base.at(Leg::BottomRight));
    } else {
        lemma_wave_phase(m);
        let r = m.stepped().reached();
        assert(m.starting().lead == lead);
        assert forall|l: Leg| l != wl implies #[trigger] r.current_pos.at(l) == base.at(l) by {
            assert(m.current_pos.at(l) == base.at(l));
        }
        lemma_wave_middle(r, base, lead, (n - 1) as nat);
        assert(m.run_reached(n) == r.run_reached((n - 1) as nat));
    }
}

/// A wave leaves the stance it started from: when every waypoint set is
/// reached, after its `2 * swings + 3` sets the primitive is done and every
/// foot is back where it was. This holds where the body shifts need no
/// clamping, every foot's x being at least the shift inside the legal range.
pub proof fn lemma_wave_returns(e: GaitEngine)
    requires
        e.wf(),
        e.motion == Motion::Wave,
        e.remaining == 1,
        e.phase == 0,
        e.current_pos == e.expected_pos,
        forall|l: Leg|
            -(MAX_COORD - BODY_SHIFT) <= #[trigger] e.current_pos.at(l).x <= MAX_COORD
                - BODY_SHIFT,
    ensures
        e.run_reached((2 * e.swings + 3) as nat).finished(),
        e.run_reached((2 * e.swings + 3) as nat).current_pos == e.current_pos,
{
    let n = (2 * e.swings + 2) as nat;
    lemma_wave_phase(e);
    let lead = e.starting().lead;
    let wl = wave_leg(lead);
    let e1 = e.stepped().reached();
    let base = e1.current_pos;
    assert(base == body_shifted(e.current_pos, wave_away(lead)));
    assert(e.current_pos.at(wl).within(MAX_COORD as int));
    assert(base.at(wl).within(MAX_COORD as int));
    lemma_wave_middle(e1, base, lead, (n - 1) as nat);
    let f = e1.run_reached((n - 1) as nat);
    lemma_run_reached_last(e1, (n - 1) as nat);
    assert(e.run_reached(n + 1) == e1.run_reached(n));
    lemma_wave_phase(f);
    let g = f.stepped().reached();
    assert(f.starting() == f);
    assert(g.current_pos == body_shifted(base, (-wave_away(lead)) as i32));
    assert(e.current_pos.at(Leg::FrontLeft).x == e.current_pos.front_left.x);
    assert(e.current_pos.at(Leg::BottomLeft).x == e.current_pos.bottom_left.x);
    assert(e.current_pos.at(Leg::FrontRight).x == e.current_pos.front_right.x);
    assert(e.current_pos.at(Leg::BottomRight).x == e.current_pos.bottom_right.x);
    assert(g.current_pos == e.current_pos);
}

/// Waypoint sets a walking or turning primitive still has to issue.
pub open spec fn sets_left(e: GaitEngine) -> int {
    7 * e.remaining - e.phase
}

proof fn lemma_cycle_sets(e: GaitEngine, outcomes: Seq<bool>)
    requires
        e.motion == Motion::StepForward,
        e.phase < 7,
        e.remaining >= 1,
        outcomes.len() <= sets_left(e),
    ensures
        e.run_with(outcomes).finished() <==> outcomes.len() == sets_left(e),
    decreases outcomes.len(),
{
    if outcomes.len() > 0 {
        let st = e.starting();
        lemma_with_sites_frame(st, st.phase_sites());
        let s = e.stepped();
        let next = if outcomes[0] {
            s.reached()
        } else {
            s
        };
        assert(e.run_with(outcomes) == next.run_with(outcomes.drop_first()));
        assert(st.motion == e.motion && st.phase == e.phase && st.remaining == e.remaining);
        if sets_left(e) == 1 {
            assert(next.finished());
            assert(outcomes.drop_first().len() == 0);
        } else {
            assert(next.motion == Motion::StepForward && sets_left(next) == sets_left(e) - 1);
            lemma_cycle_sets(next, outcomes.drop_first());
        }
    }
}

/// A step of `times` cycles issues exactly `7 * times` waypoint sets, one
/// after the other, whether each is then reached or times out: it is done
/// after that many outcomes and not before. A set that times out is not
/// adopted; the next set is issued from the positions assumed before it.
pub proof fn lemma_step_forward_sets(e: GaitEngine, times: u8, outcomes: Seq<bool>)
    requires
        e.wf(),
        outcomes.len() <= 7 * times,
    ensures
        ({
            let s = e.started(Motion::StepForward, times as int, 0);
            &&& s.run_with(outcomes).finished() <==> outcomes.len() == 7 * times
            &&& outcomes.len() > 0 && !outcomes[0] ==> s.run_with(outcomes.take(1)).current_pos
                == e.current_pos
        }),
{
    let s = e.started(Motion::StepForward, times as int, 0);
    if times > 0 {
        lemma_cycle_sets(s, outcomes);
    }
    if outcomes.len() > 0 && !outcomes[0] {
        let st = s.starting();
        lemma_with_sites_frame(st, st.phase_sites());
        let one = outcomes.take(1);
        assert(one[0] == outcomes[0]);
        assert(one.drop_first().len() == 0);
        assert(s.run_with(one) == s.stepped().run_with(one.drop_first()));
        assert(s.stepped().current_pos == e.current_pos);
    }
}

} // verus!
