use spider_robot::commands::{parse_command, ParseCommandError, ServoCommand, TcpCommand};
use spider_robot::config::{RobotConfig, KEEP, X_DEFAULT, Y_START, Y_STEP, Z_BOOT, Z_DEFAULT, Z_UP};
use spider_robot::executor::{leg_movement_is_done, movement_is_done, tick};
use spider_robot::gait::{GaitEngine, Motion};
use spider_robot::kinematics::{angle_to_ticks, polar_to_servo, LegAngles};
use spider_robot::leg::{Joint, Leg};
use spider_robot::math::isqrt;
use spider_robot::position::{LegPositions, Point};
use spider_robot::servo::Servo;

fn booted() -> GaitEngine {
    let mut e = GaitEngine::new(RobotConfig::new());
    e.init_positions();
    e
}

/// Issues every waypoint set of the running primitive, each reached.
fn run_reached(e: &mut GaitEngine) -> usize {
    let mut sets = 0;
    while let Some(cmd) = e.next_waypoint() {
        assert_eq!(cmd.current_pos, e.current_pos);
        assert_eq!(cmd.expected_pos, e.expected_pos);
        e.complete(true);
        sets += 1;
    }
    sets
}

fn pt(x: i32, y: i32, z: i32) -> Point {
    Point { x, y, z }
}

fn single_axis(current: i32, expected: i32, velocity: i32) -> ServoCommand {
    let zero = LegPositions::all(Point::zero());
    let mut c = zero;
    let mut e = zero;
    let mut v = zero;
    c.front_left.x = current;
    e.front_left.x = expected;
    v.front_left.x = velocity;
    ServoCommand::new(c, e, v)
}

fn ticks_until_done(mut cmd: ServoCommand) -> u32 {
    let mut n = 0;
    while !movement_is_done(&cmd) {
        tick(&mut cmd);
        n += 1;
        assert!(n < 10_000);
    }
    n
}

#[test]
fn leg_indices_and_names() {
    assert_eq!(Leg::FrontLeft.index(), 0);
    assert_eq!(Leg::BottomLeft.index(), 1);
    assert_eq!(Leg::FrontRight.index(), 2);
    assert_eq!(Leg::BottomRight.index(), 3);
    assert_eq!(Leg::from(2usize), Leg::FrontRight);
    assert_eq!(Leg::from(9usize), Leg::BottomRight);
    assert_eq!(Leg::FrontRight.name(), "Front right");
    assert_eq!(Leg::BottomLeft.name(), "Bottom left");
}

#[test]
fn joint_indices_and_names() {
    assert_eq!(Joint::from_index(0), Joint::Coxa);
    assert_eq!(Joint::from_index(1), Joint::Tibia);
    assert_eq!(Joint::from_index(2), Joint::Femur);
    assert_eq!(Joint::Femur.index(), 2);
    assert_eq!(Joint::Coxa.name(), "coxa");
    assert_eq!(Joint::Tibia.name(), "tibia");
}

#[test]
fn parses_commands_with_counts() {
    assert_eq!(TcpCommand::try_from("d 3"), Ok(TcpCommand::StepForward(3)));
    assert_eq!(TcpCommand::try_from("  tl  "), Ok(TcpCommand::TurnLeft(1)));
    assert_eq!(TcpCommand::try_from("tr 2 extra"), Ok(TcpCommand::TurnRight(2)));
    assert_eq!(TcpCommand::try_from("w +7"), Ok(TcpCommand::Wave(7)));
    assert_eq!(TcpCommand::try_from("t"), Ok(TcpCommand::Test));
    assert_eq!(TcpCommand::try_from("r\n"), Ok(TcpCommand::Sit));
    assert_eq!(TcpCommand::try_from("\ts"), Ok(TcpCommand::Stand));
    assert_eq!(TcpCommand::try_from("c"), Ok(TcpCommand::Calibrate));
    assert_eq!(TcpCommand::try_from("d 255"), Ok(TcpCommand::StepForward(255)));
}

#[test]
fn unreadable_counts_become_one() {
    assert_eq!(TcpCommand::try_from("d 256"), Ok(TcpCommand::StepForward(1)));
    assert_eq!(TcpCommand::try_from("w abc"), Ok(TcpCommand::Wave(1)));
    assert_eq!(TcpCommand::try_from("w -2"), Ok(TcpCommand::Wave(1)));
    assert_eq!(TcpCommand::try_from("w +"), Ok(TcpCommand::Wave(1)));
    assert_eq!(parse_command(b"d 0007"), Ok(TcpCommand::StepForward(7)));
}

#[test]
fn rejects_unknown_commands() {
    assert_eq!(TcpCommand::try_from(""), Err(ParseCommandError));
    assert_eq!(TcpCommand::try_from("   "), Err(ParseCommandError));
    assert_eq!(TcpCommand::try_from("x 3"), Err(ParseCommandError));
    assert_eq!(TcpCommand::try_from("dd"), Err(ParseCommandError));
    assert_eq!(TcpCommand::try_from("tx"), Err(ParseCommandError));
    assert_eq!(TcpCommand::try_from("tlr"), Err(ParseCommandError));
}

#[test]
fn integer_square_root() {
    assert_eq!(isqrt(0), 0);
    assert_eq!(isqrt(24), 4);
    assert_eq!(isqrt(25), 5);
    assert_eq!(isqrt(u64::MAX), 0xffff_ffff);
}

#[test]
fn derives_turning_pivots() {
    let c = RobotConfig::new();
    assert_eq!(c.temp_a, 199_060);
    assert_eq!(c.temp_b, 151_000);
    assert_eq!(c.temp_c, 224_379);
    assert_eq!(c.temp_b_cos_alpha, 30_342);
    assert_eq!(c.turn_x1, 64_030);
    assert_eq!(c.turn_y1, 20_000);
    assert_eq!(c.turn_x0, 33_688);
    assert_eq!(c.turn_y0, 56_920);
    assert_eq!(c.leg_move_speed, 8_000);
}

#[test]
fn boot_pose_is_adopted() {
    let e = booted();
    assert_eq!(e.current_pos, e.expected_pos);
    assert_eq!(e.current_pos.front_left, pt(X_DEFAULT, Y_START + Y_STEP, Z_BOOT));
    assert_eq!(e.current_pos.bottom_left, pt(X_DEFAULT, Y_START + Y_STEP, Z_BOOT));
    assert_eq!(e.current_pos.front_right, pt(X_DEFAULT, Y_START, Z_BOOT));
    assert_eq!(e.current_pos.bottom_right, pt(X_DEFAULT, Y_START, Z_BOOT));
}

#[test]
fn keep_leaves_the_axis_alone() {
    let mut e = booted();
    let before = e.expected_pos.front_left;
    e.set_site(Leg::FrontLeft, KEEP, 10_000, -40_000, 1_000);
    assert_eq!(e.expected_pos.front_left, pt(before.x, 10_000, -40_000));
    assert_eq!(e.expected_pos.bottom_left, e.current_pos.bottom_left);
    assert_eq!(e.current_pos.front_left, before);
}

#[test]
fn velocity_follows_the_straight_line() {
    let mut e = GaitEngine::new(RobotConfig::new());
    e.set_site(Leg::BottomRight, 3_000, 4_000, 0, 1_000);
    assert_eq!(e.velocity.bottom_right, pt(600, 800, 0));
    e.set_site(Leg::BottomRight, -3_000, KEEP, KEEP, 1_000);
    assert_eq!(e.velocity.bottom_right, pt(-1_000, 0, 0));
    assert_eq!(e.expected_pos.bottom_right, pt(-3_000, 4_000, 0));
}

#[test]
fn small_shares_still_move() {
    let mut e = GaitEngine::new(RobotConfig::new());
    e.set_site(Leg::FrontLeft, 100_000, 1, 0, 1_000);
    assert_eq!(e.velocity.front_left, pt(1_000, 1, 0));
}

#[test]
fn zero_distance_gives_zero_velocity() {
    let mut e = booted();
    let here = e.current_pos.front_right;
    e.set_site(Leg::FrontRight, here.x, here.y, here.z, 8_000);
    assert_eq!(e.velocity.front_right, Point::zero());
    e.set_site(Leg::FrontRight, KEEP, KEEP, KEEP, 8_000);
    assert_eq!(e.velocity.front_right, Point::zero());
}

#[test]
fn tick_snaps_onto_the_target() {
    let mut cmd = single_axis(10, 13, 5);
    tick(&mut cmd);
    assert_eq!(cmd.current_pos.front_left.x, 13);
    assert!(movement_is_done(&cmd));
}

#[test]
fn tick_advances_by_the_step() {
    let mut cmd = single_axis(10, 30, 5);
    tick(&mut cmd);
    assert_eq!(cmd.current_pos.front_left.x, 15);
    assert!(!movement_is_done(&cmd));
    assert!(!leg_movement_is_done(&cmd, Leg::FrontLeft));
    assert!(leg_movement_is_done(&cmd, Leg::BottomLeft));
}

#[test]
fn ticks_needed_is_distance_over_step_rounded_up() {
    assert_eq!(ticks_until_done(single_axis(10, 13, 5)), 1);
    assert_eq!(ticks_until_done(single_axis(0, 15, 5)), 3);
    assert_eq!(ticks_until_done(single_axis(0, 13, 5)), 3);
    assert_eq!(ticks_until_done(single_axis(13, 0, -5)), 3);
    let mut cmd = single_axis(0, 13, 5);
    cmd.expected_pos.bottom_right.z = -40;
    cmd.velocity.bottom_right.z = -3;
    assert_eq!(ticks_until_done(cmd), 14);
    assert_eq!(ticks_until_done(cmd), 14);
}

#[test]
fn stand_then_step_crosses_a_full_stride() {
    let mut e = booted();
    e.stand();
    assert_eq!(run_reached(&mut e), 1);
    assert_eq!(e.current_pos.front_left.z, Z_DEFAULT);
    assert_eq!(e.current_pos.bottom_right.z, Z_DEFAULT);
    e.step_forward(1);
    let fr = |e: &GaitEngine| e.current_pos.front_right;
    assert_eq!(fr(&e).y, Y_START);
    assert!(e.next_waypoint().is_some());
    e.complete(true);
    assert_eq!(fr(&e), pt(X_DEFAULT, Y_START, Z_UP));
    assert!(e.next_waypoint().is_some());
    e.complete(true);
    assert_eq!(fr(&e), pt(X_DEFAULT, Y_START + 2 * Y_STEP, Z_UP));
    assert_eq!(run_reached(&mut e), 5);
    assert_eq!(fr(&e).y, Y_START + Y_STEP);
    assert_eq!(e.motion, Motion::Idle);
}

#[test]
fn timeout_keeps_the_old_position() {
    let mut e = booted();
    e.stand();
    let before = e.current_pos;
    let cmd = e.next_waypoint().unwrap();
    assert_eq!(cmd.current_pos, before);
    assert_eq!(cmd.expected_pos.front_left.z, Z_DEFAULT);
    e.complete(false);
    assert_eq!(e.current_pos, before);
    assert_eq!(e.expected_pos.front_left.z, Z_DEFAULT);
    assert!(e.next_waypoint().is_none());
}

#[test]
fn consecutive_steps_alternate_the_lead() {
    let mut e = booted();
    e.stand();
    run_reached(&mut e);
    e.step_forward(1);
    assert_eq!(run_reached(&mut e), 7);
    let first = e.current_pos.front_right.y;
    assert!(first != Y_START);
    assert_eq!(e.current_pos.front_left.y, Y_START);
    e.step_forward(1);
    assert_eq!(run_reached(&mut e), 7);
    assert_eq!(e.current_pos.front_right.y, Y_START);
    assert_eq!(e.current_pos.bottom_right.y, Y_START);
    assert_eq!(e.current_pos.front_left.y, Y_START + Y_STEP);
}

#[test]
fn repeated_steps_run_each_cycle() {
    let mut e = booted();
    e.step_forward(3);
    assert_eq!(run_reached(&mut e), 21);
    assert_eq!(e.current_pos.front_right.y, Y_START + Y_STEP);
}

#[test]
fn turns_return_to_the_stance() {
    let mut e = booted();
    e.stand();
    run_reached(&mut e);
    e.turn_left(1);
    assert_eq!(run_reached(&mut e), 7);
    assert_eq!(e.current_pos.bottom_left, pt(X_DEFAULT, Y_START, Z_DEFAULT));
    assert_eq!(e.current_pos.front_right.y, Y_START + Y_STEP);
    e.turn_right(2);
    assert_eq!(run_reached(&mut e), 14);
    e.turn_left(-3);
    assert_eq!(run_reached(&mut e), 0);
}

#[test]
fn wave_returns_to_the_stance() {
    let mut e = booted();
    e.stand();
    run_reached(&mut e);
    let start = e.current_pos;
    e.wave(2);
    let first = e.next_waypoint().unwrap();
    assert_eq!(first.expected_pos.front_left.x, start.front_left.x - 15_000);
    assert_eq!(first.expected_pos.front_right.x, start.front_right.x + 15_000);
    e.complete(true);
    let swing = e.next_waypoint().unwrap();
    assert_eq!(swing.expected_pos.front_right.z, 50_000);
    assert_eq!(swing.expected_pos.front_right.x, e.config.turn_x1);
    e.complete(true);
    for _ in 0..4 {
        assert!(e.next_waypoint().is_some());
        e.complete(true);
    }
    assert_eq!(e.current_pos.front_right.x, start.front_right.x + 15_000);
    assert_eq!(e.current_pos.front_right.y, start.front_right.y);
    assert_eq!(run_reached(&mut e), 1);
    assert_eq!(e.current_pos, start);
}

#[test]
fn wave_without_swings_returns_to_the_stance() {
    let mut e = booted();
    e.stand();
    run_reached(&mut e);
    let start = e.current_pos;
    e.wave(0);
    assert_eq!(run_reached(&mut e), 3);
    assert_eq!(e.current_pos, start);
}

#[test]
fn sit_and_calibrate() {
    let mut e = booted();
    e.stand();
    run_reached(&mut e);
    e.sit();
    run_reached(&mut e);
    assert_eq!(e.current_pos.front_right.z, Z_BOOT);
    e.calibrate();
    assert_eq!(run_reached(&mut e), 1);
    assert_eq!(e.current_pos, LegPositions::all(Point::zero()));
}

#[test]
fn commands_start_primitives() {
    let mut e = booted();
    assert!(e.start_command(TcpCommand::TurnRight(4)));
    assert_eq!(e.motion, Motion::TurnRight);
    assert_eq!(e.remaining, 4);
    assert!(!e.start_command(TcpCommand::Test));
    assert!(!e.start_command(TcpCommand::SetAngles([90; 12])));
    assert_eq!(e.motion, Motion::TurnRight);
    assert_eq!(
        e.do_test(),
        vec![
            TcpCommand::Stand,
            TcpCommand::StepForward(5),
            TcpCommand::TurnLeft(5),
            TcpCommand::TurnRight(5),
            TcpCommand::Wave(5),
            TcpCommand::Sit,
        ]
    );
}

#[test]
fn servo_correction_per_leg() {
    let a = polar_to_servo(Leg::FrontLeft, 30_000, 100_000, 20_000);
    assert_eq!(a, LegAngles { alpha: 60_000, beta: 100_000, gamma: 110_000 });
    let b = polar_to_servo(Leg::BottomLeft, 30_000, 100_000, 20_000);
    assert_eq!(b, LegAngles { alpha: 120_000, beta: 80_000, gamma: 70_000 });
    let c = polar_to_servo(Leg::FrontRight, 30_000, 100_000, 20_000);
    assert_eq!(c, b);
    let d = polar_to_servo(Leg::BottomRight, 30_000, 100_000, 20_000);
    assert_eq!(d, a);
}

#[test]
fn servo_angles_are_clamped() {
    let a = polar_to_servo(Leg::FrontLeft, 120_000, 200_000, 100_000);
    assert_eq!(a, LegAngles { alpha: 0, beta: 180_000, gamma: 180_000 });
}

#[test]
fn angle_to_controller_ticks() {
    assert_eq!(angle_to_ticks(0), 111);
    assert_eq!(angle_to_ticks(90_000), 301);
    assert_eq!(angle_to_ticks(180_000), 492);
}

#[test]
fn servo_writes_only_new_angles() {
    let mut s = Servo::new(2047, 50, Leg::FrontLeft, Joint::Femur);
    assert_eq!(s.angle(), 0);
    assert_eq!(s.set_angle(0), None);
    assert_eq!(s.set_angle(90), Some(150));
    s.confirm_written(90);
    assert_eq!(s.set_angle(90), None);
    assert_eq!(s.set_angle(200), Some(245));
    s.confirm_written(200);
    assert_eq!(s.angle(), 180);
}

#[test]
fn unconfirmed_servo_write_is_retried() {
    let mut s = Servo::new(2047, 50, Leg::BottomRight, Joint::Tibia);
    assert_eq!(s.set_angle(90), Some(150));
    assert_eq!(s.set_angle(90), Some(150));
    assert_eq!(s.angle(), 0);
    s.confirm_written(90);
    assert_eq!(s.set_angle(90), None);
}

#[test]
fn unicode_whitespace_separates_words() {
    assert_eq!(TcpCommand::try_from("d\u{a0}3"), Ok(TcpCommand::StepForward(3)));
    assert_eq!(TcpCommand::try_from("\u{3000}tl\u{2003}4\u{85}"), Ok(TcpCommand::TurnLeft(4)));
    assert_eq!(TcpCommand::try_from("w\u{1680}2"), Ok(TcpCommand::Wave(2)));
    assert_eq!(TcpCommand::try_from("tr\u{2028}5\u{205f}x"), Ok(TcpCommand::TurnRight(5)));
    assert_eq!(TcpCommand::try_from("\u{202f}\u{2029}"), Err(ParseCommandError));
    assert_eq!(TcpCommand::try_from("d\u{e9}"), Err(ParseCommandError));
    assert_eq!(TcpCommand::try_from("d \u{663}"), Ok(TcpCommand::StepForward(1)));
}

#[test]
fn steps_issue_seven_sets_per_cycle_whatever_the_outcome() {
    let mut e = booted();
    e.step_forward(2);
    let mut sets = 0;
    while let Some(_) = e.next_waypoint() {
        let before = e.current_pos;
        let reached = sets % 3 != 1;
        e.complete(reached);
        if !reached {
            assert_eq!(e.current_pos, before);
        }
        sets += 1;
    }
    assert_eq!(sets, 14);
    assert_eq!(e.motion, Motion::Idle);
}
