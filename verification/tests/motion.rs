use std::collections::VecDeque;

use benilla::move_flags::{
    BACKWARD, FALLING, FORWARD, STRAFE_LEFT, STRAFE_RIGHT, SWIMMING, TURN_LEFT, TURN_RIGHT, WALK_MODE,
};
use benilla::net::motion::remote::{
    apply_move, base_speed, course, fall_arc_step, grounded_seed, is_worth_turning, misses,
    reconciles, renders_pitched, shuffle, Course, JumpSeed, Landing, PendingMove, RemoteMotion,
    RemotePose, Shuffle,
};
use benilla::net::motion::spline::monster_move_spline;
use benilla::net::{MoveSpeeds, TransportPose};
use benilla::single::{Double, Point, Single};

fn s(x: f32) -> Single {
    Single::from_bits(x.to_bits())
}

fn f(x: Single) -> f32 {
    f32::from_bits(x.bits)
}

fn d(x: f64) -> Double {
    Double::from_bits(x.to_bits())
}

fn at(x: f32, y: f32, z: f32) -> Point {
    Point { x: s(x), y: s(y), z: s(z) }
}

fn speeds() -> MoveSpeeds {
    MoveSpeeds {
        walk: s(2.5),
        run: s(7.0),
        run_back: s(4.5),
        swim: s(4.0),
        swim_back: s(0.0),
        turn_rate: s(std::f32::consts::PI),
    }
}

/// One step of dead reckoning along the course that the flags call for, level and on the ground.
fn advance(flags: u32, orientation: f32, speeds: &MoveSpeeds, dt: f32) -> ([f32; 2], f32, f32) {
    match course(flags) {
        Course::Ballistic => panic!("on the ground"),
        Course::Driven { turn, along, left, .. } => {
            let heading = orientation + turn as f32 * f(speeds.turn_rate) * dt;
            let (a, l) = (along as f32, left as f32);
            let len = (a * a + l * l).sqrt();
            if len == 0.0 {
                return ([0.0, 0.0], heading, 0.0);
            }
            let speed = f(base_speed(speeds, flags));
            let (c, n) = (heading.cos(), heading.sin());
            let step = speed * dt / len;
            ([(a * c - l * n) * step, (a * n + l * c) * step], heading, speed)
        }
    }
}

#[test]
fn remote_fall_arc_reports_height_only_on_the_landing_edge() {
    // The height of a fall is where it took off less where it landed.
    let step = |was, now, start: Option<f32>, z: f32| {
        let (start, landing) = fall_arc_step(was, now, start.map(s), s(z));
        (start.map(f), landing.map(|l: Landing| f(l.takeoff_z) - f(l.ground_z)))
    };
    assert_eq!(step(false, true, None, 100.0), (Some(100.0), None));
    assert_eq!(step(true, true, Some(100.0), 80.0), (Some(100.0), None));
    assert_eq!(step(true, false, Some(100.0), 70.0), (None, Some(30.0)));
    assert_eq!(step(true, false, None, 70.0), (None, None));
    assert_eq!(step(false, false, None, 70.0), (None, None));
}

#[test]
fn remote_motion_runs_forward_along_facing() {
    let (pos, o, speed) = advance(FORWARD, 0.0, &speeds(), 1.0);
    assert!((pos[0] - 7.0).abs() < 1e-3, "forward advances +X: {pos:?}");
    assert!(pos[1].abs() < 1e-3, "no lateral drift: {pos:?}");
    assert_eq!(o, 0.0, "forward doesn't turn");
    assert_eq!(speed, 7.0, "uses run speed");
}

#[test]
fn remote_motion_backpedal_uses_run_back_speed() {
    let (pos, _, speed) = advance(BACKWARD, 0.0, &speeds(), 1.0);
    assert!((pos[0] + 4.5).abs() < 1e-3, "backpedal advances -X by run_back: {pos:?}");
    assert_eq!(speed, 4.5);
}

#[test]
fn remote_motion_swim_backpedal_takes_min_of_the_swim_pair() {
    let mut speeds = speeds();
    speeds.swim_back = s(2.5);
    let (pos, _, speed) = advance(SWIMMING | BACKWARD, 0.0, &speeds, 1.0);
    assert!((pos[0] + 2.5).abs() < 1e-3, "swim backpedal advances -X by swim_back: {pos:?}");
    assert_eq!(speed, 2.5);
    speeds.swim_back = s(9.0);
    let (_, _, speed) = advance(SWIMMING | BACKWARD, 0.0, &speeds, 1.0);
    assert_eq!(speed, 4.0, "swimBack above swim clamps to swim (the min law)");
}

#[test]
fn remote_motion_strafe_left_moves_90deg_left() {
    let (pos, o, _) = advance(STRAFE_LEFT, 0.0, &speeds(), 1.0);
    assert!((pos[1] - 7.0).abs() < 1e-3, "strafe-left advances +Y: {pos:?}");
    assert!(pos[0].abs() < 1e-3, "no forward drift: {pos:?}");
    assert_eq!(o, 0.0, "strafe doesn't turn the facing");
}

#[test]
fn remote_motion_turn_in_place_rotates_facing_only() {
    let (pos, o, speed) = advance(TURN_LEFT, 0.0, &speeds(), 0.5);
    assert!(
        (o - std::f32::consts::FRAC_PI_2).abs() < 1e-3,
        "turn-left raises facing by turn_rate·dt: {o}"
    );
    assert_eq!(pos, [0.0, 0.0], "no translation while turning in place");
    assert_eq!(speed, 0.0);
}

#[test]
fn remote_motion_stationary_when_no_move_flags() {
    let (pos, o, speed) = advance(0, 1.0, &speeds(), 1.0);
    assert_eq!(pos, [0.0, 0.0]);
    assert_eq!(o, 1.0);
    assert_eq!(speed, 0.0);
}

#[test]
fn a_jump_is_an_arc_whatever_the_keys_say() {
    assert_eq!(course(FALLING | FORWARD), Course::Ballistic);
    assert_eq!(course(FALLING | TURN_LEFT), Course::Ballistic);
}

#[test]
fn opposite_keys_cancel_or_the_first_wins() {
    let Course::Driven { along, left, turn, pitched } = course(STRAFE_RIGHT | TURN_RIGHT) else {
        panic!("on the ground");
    };
    assert_eq!((along, left, turn, pitched), (0, -1, -1, false));
    let Course::Driven { pitched, .. } = course(SWIMMING | FORWARD) else {
        panic!("in the water");
    };
    assert!(pitched);
    assert!(renders_pitched(SWIMMING | FORWARD));
    assert!(!renders_pitched(SWIMMING));
    assert!(!renders_pitched(FORWARD));
}

#[test]
fn walking_is_slower_than_running_and_swimming_is_its_own() {
    assert_eq!(f(base_speed(&speeds(), FORWARD)), 7.0);
    assert_eq!(f(base_speed(&speeds(), FORWARD | WALK_MODE)), 2.5);
    assert_eq!(f(base_speed(&speeds(), FORWARD | SWIMMING)), 4.0);
}

#[test]
fn monster_move_carries_every_waypoint() {
    let path = vec![
        [0.0, 0.0, 0.0],
        [10.0, 0.0, 0.0],
        [10.0, 10.0, 0.0],
        [10.0, 10.0, 5.0],
    ];
    let spline = monster_move_spline(path.clone(), 42, false, 2000, false)
        .expect("a moving monster-move yields a spline");
    assert_eq!(spline.points, path, "every waypoint survives, not just the endpoint");
    assert_eq!(spline.id, 42, "the spline id rides through (for the SPLINE_DONE ack)");
    assert_eq!(spline.duration_ms, 2000);
    assert!(spline.grounded, "a non-flying spline is a ground walk (terrain-clamped)");
}

#[test]
fn monster_move_flying_spline_is_not_grounded() {
    let spline =
        monster_move_spline(vec![[0.0, 0.0, 0.0], [10.0, 0.0, 50.0]], 0, false, 2000, true)
            .expect("a flying monster-move still yields a spline");
    assert!(!spline.grounded, "a flying spline keeps its own Z, never terrain-clamped");
}

#[test]
fn monster_move_stop_clears_the_spline() {
    assert!(
        monster_move_spline(vec![[1.0, 2.0, 3.0], [4.0, 5.0, 6.0]], 0, true, 2000, false).is_none(),
        "a Stop move snaps and clears, never builds a path"
    );
}

#[test]
fn monster_move_zero_duration_clears_the_spline() {
    assert!(
        monster_move_spline(vec![[1.0, 2.0, 3.0], [4.0, 5.0, 6.0]], 0, false, 0, false).is_none(),
        "a zero-duration move would divide by ~0 when sampled; treat as stationary"
    );
}

#[test]
fn monster_move_without_a_travelable_path_clears_the_spline() {
    assert!(
        monster_move_spline(vec![[1.0, 2.0, 3.0]], 0, false, 2000, false).is_none(),
        "a single point is nowhere to travel — no spline"
    );
}

fn pose() -> RemotePose {
    RemotePose {
        position: at(0.0, 0.0, 0.0),
        orientation: s(0.0),
        flags: 0,
        pitch: s(0.0),
        speed: s(0.0),
        jump: grounded_seed(),
        fall_start_z: None,
    }
}

fn pending(fire_ms: f64, flags: u32, z: f32) -> PendingMove {
    PendingMove {
        fire_ms: d(fire_ms),
        position: at(1.0, 2.0, z),
        orientation: s(0.5),
        flags,
        pitch: s(0.0),
        jump: None,
        transport: None,
        heartbeat: false,
    }
}

#[test]
fn a_report_snaps_the_pose_to_it() {
    let mut p = pose();
    let mut ev = pending(0.0, FORWARD, 3.0);
    ev.transport = Some(TransportPose { guid: 9, pos: at(1.0, 1.0, 1.0), orientation: s(0.0) });
    let effect = apply_move(&mut p, &ev);
    assert_eq!(p.position, at(1.0, 2.0, 3.0));
    assert_eq!(p.orientation, s(0.5));
    assert_eq!(p.flags, FORWARD);
    assert_eq!(effect.rider.map(|t| t.guid), Some(9));
    assert_eq!(effect.landing, None);
}

#[test]
fn what_is_due_is_fired_in_order_and_the_rest_waits() {
    let mut motion = RemoteMotion { pose: pose(), pending: VecDeque::new() };
    motion.pending.push_back(pending(10.0, FALLING, 100.0));
    motion.pending.push_back(pending(20.0, 0, 70.0));
    motion.pending.push_back(pending(30.0, FORWARD, 70.0));
    let effects = motion.drain_pending_moves(d(20.0));
    assert_eq!(effects.len(), 2);
    assert_eq!(effects[0].landing, None);
    assert_eq!(
        effects[1].landing,
        Some(Landing { takeoff_z: s(100.0), ground_z: s(70.0) })
    );
    assert_eq!(motion.pending.len(), 1);
    assert_eq!(motion.pose.flags, 0);
    assert_eq!(motion.pose.fall_start_z, None);
    assert_eq!(motion.drain_pending_moves(d(29.0)).len(), 0);
    assert_eq!(motion.drain_pending_moves(d(30.0)).len(), 1);
    assert_eq!(motion.pose.flags, FORWARD);
}

#[test]
fn a_jump_seeds_its_arc() {
    let mut p = pose();
    let mut ev = pending(0.0, FALLING, 5.0);
    ev.jump = Some(JumpSeed { vertical: s(7.9), x: s(7.0), y: s(0.0) });
    apply_move(&mut p, &ev);
    assert_eq!(p.jump, JumpSeed { vertical: s(7.9), x: s(7.0), y: s(0.0) });
    assert_eq!(p.fall_start_z, Some(s(5.0)));
}

#[test]
fn reconciliation_waits_for_a_miss_and_for_time() {
    let ev = pending(10.0, FORWARD, 0.0);
    assert!(reconciles(Some(&ev), s(0.5)));
    assert!(!reconciles(None, s(0.5)));
    // The tolerance is 1/36 of a yard, squared.
    assert!(!misses(s(0.01 * 0.01)));
    assert!(misses(s(0.03 * 0.03)));
    assert!(!is_worth_turning(s(1.0e-8)));
    assert!(is_worth_turning(s(-0.1)));
}

#[test]
fn a_standing_turn_shuffles_the_feet() {
    assert_eq!(shuffle(FORWARD, Some(s(0.3)), s(0.0), false), Shuffle::Keep);
    assert_eq!(shuffle(0, Some(s(0.3)), s(0.1), false), Shuffle::Step(s(0.3)));
    assert_eq!(shuffle(0, Some(s(-0.3)), s(0.1), true), Shuffle::Step(s(-0.3)));
    assert_eq!(shuffle(0, Some(s(0.05)), s(0.1), true), Shuffle::Settle);
    assert_eq!(shuffle(0, None, s(0.1), true), Shuffle::Settle);
    assert_eq!(shuffle(0, None, s(0.1), false), Shuffle::Keep);
}
