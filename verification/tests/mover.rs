use benilla::player::mover::{
    calls_for_step, contact, finish_step, ground_reach, has_headroom, is_notable, snap_onto, snaps,
    steep_wall, step_up_verdict, take_stance, walkable_ride, Contact, Descent, Face, Footing, Motion,
    Probe, Verdict, Wish, GROUND_PROBE, JUMP_SPEED, LAND_PROBE,
};
use benilla::player::state::Player;
use benilla::single::{origin, Point, Single};

fn s(x: f32) -> Single {
    Single::from_bits(x.to_bits())
}

fn at(x: f32, y: f32, z: f32) -> Point {
    Point { x: s(x), y: s(y), z: s(z) }
}

/// The outward normal of a face that rises toward +x, tilted so many degrees from horizontal.
fn face(deg: f32) -> [f32; 3] {
    let r = deg.to_radians();
    [-r.sin(), r.cos(), 0.0]
}

fn dot(a: [f32; 3], b: [f32; 3]) -> f32 {
    a[0] * b[0] + a[1] * b[1] + a[2] * b[2]
}

/// The velocity that a contact rides at, where it rides.
fn ride(n: [f32; 3], v: [f32; 3]) -> Option<[f32; 3]> {
    if !walkable_ride(s(n[1]), s(dot(v, n))) {
        return None;
    }
    Some([v[0], -(v[0] * n[0] + v[2] * n[2]) / n[1], v[2]])
}

/// The flattened normal of a contact that clips as a wall.
fn wall(n: [f32; 3], v: [f32; 3]) -> Option<[f32; 3]> {
    let into = dot(v, n);
    if !steep_wall(s(n[1]), s(into), s(v[1] - into * n[1])) {
        return None;
    }
    let len = (n[0] * n[0] + n[2] * n[2]).sqrt();
    if len < 1e-6 {
        return None;
    }
    Some([n[0] / len, 0.0, n[2] / len])
}

#[test]
fn a_walkable_ramp_rides_at_full_horizontal_speed() {
    let n = face(45.0);
    let r = ride(n, [7.0, 0.0, 0.0]).expect("must ride");
    assert_eq!((r[0], r[2]), (7.0, 0.0));
    assert!(r[1] > 0.0);
    assert!(dot(r, n).abs() < 1e-6);
}

#[test]
fn a_diagonal_approach_is_not_deflected() {
    let r = ride(face(40.0), [5.0, 0.0, 5.0]).expect("must ride");
    assert_eq!((r[0], r[2]), (5.0, 5.0));
}

#[test]
fn a_prior_facet_ride_is_recomputed_not_stacked() {
    let n = face(45.0);
    let r = ride(n, [7.0, 3.0, 0.0]).expect("must ride");
    assert_eq!((r[0], r[2]), (7.0, 0.0));
    assert!(dot(r, n).abs() < 1e-6);
}

#[test]
fn steep_flat_and_receding_planes_never_ride() {
    assert!(ride(face(60.0), [7.0, 0.0, 0.0]).is_none());
    assert!(ride([0.0, 1.0, 0.0], [7.0, 0.0, 0.0]).is_none());
    assert!(ride(face(40.0), [-7.0, 0.0, 0.0]).is_none());
}

#[test]
fn the_ride_covers_the_walkable_range_up_to_the_gate() {
    let v = [7.0, 0.0, 0.0];
    let r = ride(face(49.9), v).expect("must ride");
    assert_eq!((r[0], r[2]), (7.0, 0.0));
    assert!(r[1] <= 7.0 * 50.0_f32.to_radians().tan() + 1e-3);
    assert!(ride(face(50.1), v).is_none());
    assert!(wall(face(50.1), v).is_some());
}

#[test]
fn walking_into_a_steep_face_clips_as_a_wall() {
    let w = wall(face(60.0), [7.0, 0.0, 0.0]).expect("must flatten");
    assert_eq!(w[1], 0.0);
    assert!(w[0] < 0.0 && (dot(w, w) - 1.0).abs() < 1e-6);
}

#[test]
fn the_wedge_misfire_window_flattens() {
    assert!(wall(face(60.0), [7.0, -1.3, 0.0]).is_some());
}

#[test]
fn a_real_fall_keeps_the_true_plane() {
    assert!(wall(face(60.0), [0.0, -10.0, 0.0]).is_none());
    assert!(wall(face(60.0), [7.0, -20.0, 0.0]).is_none());
}

#[test]
fn rising_contacts_flatten_but_a_wall_keeps_own_lift() {
    let v = [7.0, 8.0, 0.0];
    let w = wall(face(60.0), v).expect("boost must flatten");
    let into = dot(v, w);
    let clipped = v[1] - into * w[1];
    assert!((clipped - v[1]).abs() < 1e-6);
}

#[test]
fn walkable_overhanging_and_vertical_faces_are_untouched() {
    let push = [7.0, 0.0, 0.0];
    assert!(wall(face(40.0), push).is_none());
    let len = (0.25_f32 + 0.49).sqrt();
    assert!(wall([-0.5 / len, -0.7 / len, 0.0], push).is_none());
    assert!(wall(face(90.0), push).is_none());
    assert!(wall(face(60.0), [-7.0, 0.0, 0.0]).is_none());
}

fn floor(distance: f32) -> Option<Probe> {
    Some(Probe { entity: 11, normal_y: s(1.0), distance: s(distance) })
}

fn footing(below: Option<Probe>) -> Footing {
    Footing {
        below,
        settle: None,
        support: false,
        now: s(1.0),
        fallen: s(0.0),
        horizontal: s(0.0),
    }
}

fn wish(moving: bool, jump: bool) -> Wish {
    Wish { moving, jump, walk: at(7.0, 0.0, 0.0), nudge: at(1.0, 0.0, 0.0) }
}

#[test]
fn a_walker_stands_on_walkable_ground_and_may_leap() {
    let mut player = Player::new();
    let stance = take_stance(&mut player, footing(floor(0.0)), wish(true, false));
    assert!(stance.grounded && stance.on_walkable && !stance.jumped && stance.may_climb);
    assert_eq!(stance.motion, Motion::Walk);
    assert_eq!(stance.ground, Some(11));
    let leap = take_stance(&mut player, footing(floor(0.0)), wish(true, true));
    assert!(leap.jumped && !leap.may_climb);
    assert_eq!(leap.motion, Motion::Ballistic);
    assert_eq!(player.vel_y, Single::from_bits(JUMP_SPEED));
}

#[test]
fn a_settling_avatar_is_held_until_there_is_ground_or_time_is_up() {
    let mut player = Player::new();
    player.settling = true;
    player.settle_deadline = s(5.0);
    let held = take_stance(&mut player, footing(None), wish(true, true));
    assert!(held.held && !held.jumped);
    assert_eq!(held.motion, Motion::Still);
    assert!(player.settling);
    let late = Footing { now: s(5.0), ..footing(None) };
    let freed = take_stance(&mut player, late, wish(false, false));
    assert!(!freed.held);
    assert!(!player.settling);
}

#[test]
fn a_riser_probes_closer_than_a_walker() {
    let mut player = Player::new();
    assert_eq!(ground_reach(&player), Single::from_bits(GROUND_PROBE));
    player.airborne_since = Some(s(0.0));
    assert_eq!(ground_reach(&player), Single::from_bits(LAND_PROBE));
}

#[test]
fn contacts_go_by_the_stance() {
    let mut player = Player::new();
    let walk = take_stance(&mut player, footing(floor(0.0)), wish(true, false));
    assert_eq!(contact(&walk, s(0.9), s(-1.0), s(0.5)), Contact::Ride);
    assert_eq!(contact(&walk, s(0.3), s(-1.0), s(0.5)), Contact::Wall);
    assert_eq!(contact(&walk, s(0.3), s(-1.0), s(-0.5)), Contact::Plane);
}

#[test]
fn a_step_is_tried_before_a_wall_and_taken_onto_a_gained_floor() {
    assert!(!calls_for_step(None));
    assert!(calls_for_step(Some(Face { normal_y: s(0.1), along: s(-0.9) })));
    assert!(!calls_for_step(Some(Face { normal_y: s(0.9), along: s(-0.3) })));
    assert!(has_headroom(s(0.5)));
    assert!(!has_headroom(s(0.0005)));
    assert_eq!(step_up_verdict(None, s(1.0)), Verdict::NoFloor);
    let steep = Some(Probe { entity: 1, normal_y: s(0.3), distance: s(0.1) });
    assert_eq!(step_up_verdict(steep, s(1.0)), Verdict::SteepFloor);
    assert_eq!(step_up_verdict(floor(0.1), s(0.05)), Verdict::NetZero);
    assert_eq!(step_up_verdict(floor(0.1), s(0.06)), Verdict::Commit);
}

#[test]
fn only_a_walker_that_did_not_climb_snaps_down() {
    let mut player = Player::new();
    let walk = take_stance(&mut player, footing(floor(0.0)), wish(true, false));
    assert!(snaps(&walk, false));
    assert!(!snaps(&walk, true));
    assert_eq!(snap_onto(floor(0.2)).map(|p| p.entity), Some(11));
    let steep = Some(Probe { entity: 1, normal_y: s(0.3), distance: s(0.1) });
    assert_eq!(snap_onto(steep), None);
    assert_eq!(snap_onto(None), None);
}

#[test]
fn a_wedge_rests_after_three_stalled_frames() {
    let mut player = Player::new();
    player.vel_y = s(-5.0);
    let falling = Footing { fallen: s(-5.0), ..footing(None) };
    let fall = take_stance(&mut player, falling, wish(false, false));
    assert_eq!(fall.motion, Motion::Ballistic);
    let stalled = Descent { achieved: s(0.0), stall: s(1.0) };
    for n in 1..3 {
        finish_step(&mut player, &fall, None, stalled, origin());
        assert_eq!(player.wedge_still, n);
        assert!(!player.wedged);
    }
    finish_step(&mut player, &fall, None, stalled, origin());
    assert!(player.wedged);
}

#[test]
fn only_notable_frames_are_traced() {
    assert!(!is_notable(true, true, s(0.0), None, false));
    assert!(is_notable(true, false, s(0.0), None, false));
    assert!(is_notable(true, true, s(0.0), None, true));
}
