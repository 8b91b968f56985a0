use benilla::move_flags::{
    BACKWARD, FALLING, FALLING_FAR, FORWARD, ON_TRANSPORT, STRAFE_LEFT, STRAFE_RIGHT, SWIMMING,
    TURN_LEFT,
};
use benilla::net::MoveSpeeds;
use benilla::player::control::{
    attach, carry_on_platform, heard_keys, leap, no_keys, owning_transport, regime, report_frame,
    run_speed, snapshot_ride, steer, steer_swim, swim_speed, take_posture, toggle_detached,
    transport_tail, wire_fall_time, Arc, Body, Buttons, Fallback, Keys, Link, Regime, SheathRequest,
};
use benilla::player::mover::Outcome;
use benilla::player::state::{ahead, Player};
use benilla::player::wire_in::{Camera, Carried, Mover};
use benilla::single::{origin, Point, Single};

fn s(x: f32) -> Single {
    Single::from_bits(x.to_bits())
}

fn buttons() -> Buttons {
    Buttons {
        left: false,
        right: false,
        left_down: false,
        right_down: false,
        autorun_down: false,
        look_right: false,
    }
}

fn active() -> Player {
    Player { active: true, ..Player::new() }
}

const STANDING: Outcome =
    Outcome { held: false, grounded: true, jumped: false, air_nudged: false, ground: None };

const NO_ARC: Arc = Arc { new_arc: false, landed: false, started_falling: false };

#[test]
fn typing_takes_the_keys_away() {
    let keys = Keys { forward: true, jump_down: true, ..no_keys() };
    assert_eq!(heard_keys(keys, false), keys);
    assert_eq!(heard_keys(keys, true), no_keys());
}

#[test]
fn free_flight_and_server_rides_take_the_avatar() {
    let mut player = active();
    assert_eq!(regime(&player), Regime::Drive);
    player.server_riding = true;
    assert_eq!(regime(&player), Regime::ServerRide);
    toggle_detached(&mut player, Keys { detach_down: true, ..no_keys() });
    assert_eq!(regime(&player), Regime::Fly);
    toggle_detached(&mut player, no_keys());
    assert!(player.detached);
    assert_eq!(regime(&Player::new()), Regime::Fly);
}

#[test]
fn keys_add_up_to_steps() {
    let mut player = active();
    let keys = Keys { forward: true, left: true, ..no_keys() };
    let turn = steer(&mut player, keys, buttons());
    assert_eq!((turn.axis, turn.along, turn.side, turn.turn), (1, 1, 0, 1));
    assert!(turn.turning && turn.translating && turn.moving && !turn.mouselook);
    // Looking with the mouse the turn keys strafe.
    let look = steer(&mut player, keys, Buttons { look_right: true, ..buttons() });
    assert_eq!((look.side, look.turn), (-1, 0));
    assert!(look.mouselook && !look.turning);
    let both = steer(&mut player, no_keys(), Buttons { left: true, right: true, ..buttons() });
    assert_eq!(both.along, 1);
    assert!(both.mouselook);
}

#[test]
fn autorun_lasts_until_something_takes_it() {
    let mut player = active();
    let toggle = Buttons { autorun_down: true, ..buttons() };
    assert!(steer(&mut player, no_keys(), toggle).autorun_armed);
    assert!(player.autorun);
    assert_eq!(steer(&mut player, no_keys(), buttons()).along, 1);
    let held = Keys { back: true, ..no_keys() };
    assert_eq!(steer(&mut player, held, buttons()).along, 0);
    assert!(player.autorun, "a held key alone does not");
    let pressed = Keys { back: true, back_down: true, ..no_keys() };
    assert_eq!(steer(&mut player, pressed, buttons()).along, -1);
    assert!(!player.autorun);
}

#[test]
fn a_rooted_mover_turns_and_does_not_move() {
    let mut player = Player { rooted: true, ..active() };
    let keys = Keys { forward: true, left: true, ..no_keys() };
    let r = steer(&mut player, keys, buttons());
    assert_eq!((r.along, r.side, r.turn), (0, 0, 1));
    assert!(!r.moving);
}

const BODY: Body = Body {
    dead: false,
    mounted: false,
    engaged: false,
    drawn: true,
    ceremony: false,
    modelled: true,
};

#[test]
fn sitting_stows_and_moving_stands_up() {
    let mut player = active();
    let sit = Keys { sit_down: true, ..no_keys() };
    let down = take_posture(&mut player, sit, false, false, 0, Some(BODY));
    assert_eq!(down.volunteered, Some(1));
    assert_eq!(down.stow, Some(SheathRequest { state: 0, ceremony: false }));
    assert_eq!((down.stand_now, player.stand_pending), (1, Some(1)));
    // The echo has not come: nothing is asked for again.
    assert_eq!(take_posture(&mut player, no_keys(), false, false, 0, None).volunteered, None);
    let up = take_posture(&mut player, no_keys(), true, false, 1, None);
    assert_eq!(up.volunteered, Some(0));
    let echoed = take_posture(&mut player, no_keys(), true, false, 0, None);
    assert_eq!((echoed.volunteered, player.stand_pending), (None, None));
}

#[test]
fn the_sheath_key_is_refused_without_a_word() {
    let mut player = active();
    let key = Keys { sheath_down: true, ..no_keys() };
    let mut toggled = |body| take_posture(&mut player, key, false, false, 0, body).toggle;
    assert_eq!(toggled(Some(BODY)), Some(SheathRequest { state: 0, ceremony: true }));
    let stowed = Body { drawn: false, ..BODY };
    assert_eq!(toggled(Some(stowed)), Some(SheathRequest { state: 1, ceremony: true }));
    for refused in [
        Body { dead: true, ..BODY },
        Body { mounted: true, ..BODY },
        Body { engaged: true, ..BODY },
        Body { ceremony: true, ..BODY },
        Body { modelled: false, ..BODY },
    ] {
        assert_eq!(toggled(Some(refused)), None);
    }
    assert_eq!(toggled(None), None);
}

fn speeds() -> MoveSpeeds {
    MoveSpeeds {
        walk: s(2.5),
        run: s(7.0),
        run_back: s(4.5),
        swim: s(4.7),
        swim_back: s(2.5),
        turn_rate: s(3.1),
    }
}

fn fallback(forced: bool) -> Fallback {
    Fallback { forced, run: s(70.0), run_back: s(80.0), swim: s(47.0), swim_back: s(25.0) }
}

#[test]
fn backward_is_the_slower_of_the_pair() {
    assert_eq!(run_speed(Some(speeds()), fallback(false), 1), s(7.0));
    assert_eq!(run_speed(Some(speeds()), fallback(false), -1), s(4.5));
    assert_eq!(run_speed(Some(speeds()), fallback(true), -1), s(70.0));
    assert_eq!(run_speed(None, fallback(false), 0), s(70.0));
    assert_eq!(swim_speed(Some(speeds()), fallback(false), -1), s(2.5));
    assert_eq!(swim_speed(None, fallback(false), 1), s(47.0));
}

#[test]
fn a_jump_leaves_the_water_and_a_mount_rears() {
    let jump = Keys { jump_down: true, ..no_keys() };
    let mut player = Player { swimming: true, ..active() };
    let still = steer(&mut player, jump, buttons());
    let breach = leap(&mut player, true, false, jump, still);
    assert!(breach.breach && !breach.swimming && breach.want_jump);
    assert!(!player.swimming);
    let mut rider = active();
    let rear = leap(&mut rider, false, true, jump, still);
    assert!(rear.flourish && !rear.want_jump);
    let hop = leap(&mut rider, false, false, jump, still);
    assert!(!hop.flourish && hop.want_jump);
    let mut rooted = Player { rooted: true, ..active() };
    assert!(!leap(&mut rooted, false, false, jump, still).want_jump);
}

#[test]
fn a_stroke_follows_the_mouse() {
    let mut player = Player { swimming: true, ..active() };
    let keys = Keys { forward: true, ..no_keys() };
    let look = steer(&mut player, keys, Buttons { look_right: true, ..buttons() });
    let swim = leap(&mut player, true, false, keys, look);
    assert_eq!((swim.swim_fwd, swim.swim_side), (1, 0));
    steer_swim(&mut player, look, swim, s(3.0), s(4.7));
    assert_eq!(player.swim_stroke_speed, s(4.7));
    assert!(player.swim_pitch.is_below(s(1.57)), "clamped");
    let r = report_frame(&mut player, keys, look, swim, STANDING, NO_ARC);
    assert_eq!(r.flags, SWIMMING | FORWARD);
    assert!(r.pitched && r.breaks_cast && !r.airborne);
}

#[test]
fn flags_mirror_what_happened() {
    let mut player = active();
    let keys = Keys { back: true, strafe_left: true, left: true, ..no_keys() };
    let go = steer(&mut player, keys, buttons());
    let walk = leap(&mut player, false, false, keys, go);
    let r = report_frame(&mut player, keys, go, walk, STANDING, NO_ARC);
    assert_eq!(r.flags, BACKWARD | STRAFE_LEFT | TURN_LEFT);
    assert_eq!(r.pose_flags, r.flags);
    let held = Outcome { held: true, ..STANDING };
    assert_eq!(report_frame(&mut player, keys, go, walk, held, NO_ARC).flags, 0);
    // In the air the body shows the directions of the takeoff.
    player.fall_far = true;
    let jumped = Outcome { grounded: false, jumped: true, ..STANDING };
    let off = Arc { new_arc: true, ..NO_ARC };
    let up = report_frame(&mut player, keys, go, walk, jumped, off);
    assert_eq!(up.flags, BACKWARD | STRAFE_LEFT | TURN_LEFT | FALLING | FALLING_FAR);
    assert!(up.airborne && up.breaks_cast);
    let other = Keys { strafe_right: true, ..no_keys() };
    let side = steer(&mut player, other, buttons());
    let air = Outcome { grounded: false, ..STANDING };
    let drift = report_frame(&mut player, other, side, walk, air, NO_ARC);
    assert_eq!(drift.flags & (STRAFE_LEFT | STRAFE_RIGHT), STRAFE_RIGHT);
    assert_eq!(drift.pose_flags & (BACKWARD | STRAFE_LEFT | STRAFE_RIGHT), BACKWARD | STRAFE_LEFT);
}

#[test]
fn a_deck_is_ridden_through_the_air_and_left_on_land() {
    let mut player = active();
    let chain = vec![
        Link { entity: 1, transport: None },
        Link { entity: 2, transport: Some(77) },
        Link { entity: 3, transport: Some(78) },
    ];
    assert_eq!(owning_transport(&chain), Some((2, 77)));
    let deep: Vec<Link> = (0..5).map(|n| Link { entity: n, transport: if n == 4 { Some(9) } else { None } }).collect();
    assert_eq!(owning_transport(&deep), None);
    attach(&mut player, false, true, owning_transport(&chain));
    assert_eq!(player.riding(), Some(77));
    let local = Point { x: s(1.0), y: s(2.0), z: s(3.0) };
    snapshot_ride(&mut player, Some((local, s(0.5))));
    let tail = transport_tail(&player, s(0.25)).expect("aboard");
    assert_eq!((tail.guid, tail.pos, tail.orientation), (77, local, s(0.25)));
    let keys = no_keys();
    let still = steer(&mut player, keys, buttons());
    let walk = leap(&mut player, false, false, keys, still);
    assert_eq!(report_frame(&mut player, keys, still, walk, STANDING, NO_ARC).flags, ON_TRANSPORT);
    attach(&mut player, false, false, None);
    assert_eq!(player.riding(), Some(77), "a jump over the deck lands on it");
    attach(&mut player, false, true, None);
    assert_eq!(player.riding(), None);
    assert_eq!(transport_tail(&player, s(0.25)), None);
}

#[test]
fn a_platform_carries_the_whole_rider() {
    let mut player = active();
    attach(&mut player, false, true, Some((2, 77)));
    let mut mover =
        Mover { player, camera: Camera { yaw: s(0.0), pitch: s(0.1) }, current_map: None };
    let pos = Point { x: s(5.0), y: s(6.0), z: s(7.0) };
    let carried =
        Carried { boat_yaw: s(0.3), pos, face: ahead(), model_yaw: s(0.4), cam_yaw: s(0.2) };
    carry_on_platform(&mut mover, Some(carried));
    assert_eq!((mover.player.pos, mover.camera.yaw, mover.camera.pitch), (pos, s(0.2), s(0.1)));
    assert_eq!(mover.player.ride.map(|r| r.boat_yaw), Some(s(0.3)));
    carry_on_platform(&mut mover, None);
    assert_eq!(mover.player.ride, None);
    assert_eq!(mover.player.pos, pos);
    assert_eq!(origin(), Player::new().pos);
}

#[test]
fn the_fall_clock_starts_with_the_arc() {
    let mut player = active();
    assert_eq!(wire_fall_time(&player, false, 300), 0);
    player.airborne_since = Some(s(1.0));
    assert_eq!(wire_fall_time(&player, false, 300), 300);
    assert_eq!(wire_fall_time(&player, true, 300), 0);
}
