use benilla::move_flags::{
    FALLING, FALLING_FAR, FORWARD, ON_TRANSPORT, ROOT, STRAFE_LEFT, SWIMMING, TURN_LEFT,
};
use benilla::net::{ClientCommand, MoveKind, MoveReport, SpeedChange, TransportPose};
use benilla::player::movement_net::{
    move_kinds, park_mover, stream_self_movement, wire_facing, Frame, Launch,
};
use benilla::player::state::{Heading, Player};
use benilla::single::{origin, Single};
use std::f32::consts::TAU;

fn s(x: f32) -> Single {
    Single::from_bits(x.to_bits())
}

fn f(x: Single) -> f32 {
    f32::from_bits(x.bits)
}

fn facing(player: &mut Player, yaw: f32) {
    player.face = Heading { yaw: s(yaw), reduced: s(yaw.rem_euclid(TAU)) };
}

fn frame(flags: u32, now: f32, player: &Player) -> Frame {
    Frame {
        flags,
        pitch: s(0.0),
        jumped: false,
        landed: false,
        started_falling: false,
        fall_time: 0,
        launch: Launch { cos_angle: s(1.0), sin_angle: s(0.0), xy_speed: s(7.0) },
        transport: None,
        now: s(now),
        since_sent: s(now - f(player.last_heartbeat)),
        facing_change: s(f(wire_facing(player.face.reduced)) - f(player.last_sent_facing)),
    }
}

fn only_move(commands: &[ClientCommand]) -> (MoveKind, MoveReport) {
    assert_eq!(commands.len(), 1);
    let ClientCommand::Move { kind, report } = commands[0] else {
        panic!("expected a Move command");
    };
    (kind, report)
}

#[test]
fn wire_orientation_is_normalized_into_0_2pi() {
    let mut player = Player::new();
    facing(&mut player, 100.0);
    let go = frame(FORWARD, 0.0, &player);
    let sent = stream_self_movement(&mut player, go, &Vec::new());
    let (_, report) = only_move(&sent);
    let orientation = f(report.orientation);
    assert!(
        (0.0..TAU).contains(&orientation),
        "orientation must be normalized into [0, 2π), got {orientation}"
    );
    assert!(
        (orientation - 100.0_f32.rem_euclid(TAU)).abs() < 1e-4,
        "the wrap preserves the angle (100 mod 2π): got {orientation}"
    );
}

#[test]
fn fall_land_reports_the_accumulated_fall_time() {
    let mut player = Player::new();
    let land = Frame { landed: true, fall_time: 1700, ..frame(0, 0.0, &player) };
    let (kind, report) = only_move(&stream_self_movement(&mut player, land, &Vec::new()));
    assert_eq!(kind, MoveKind::FallLand);
    assert_eq!(
        report.fall_time, 1700,
        "the FALL_LAND carries the accumulated fall time, not a cleared clock"
    );
}

#[test]
fn airborne_direction_release_is_silent_and_the_landing_sends_only_fall_land() {
    let mut player = Player::new();
    player.move_flags = FORWARD | FALLING;
    let release = Frame { fall_time: 300, ..frame(FALLING, 0.2, &player) };
    assert!(
        stream_self_movement(&mut player, release, &Vec::new()).is_empty(),
        "a mid-air release sends nothing"
    );
    assert_eq!(player.move_flags, FALLING, "the flag state still updated silently");
    let land = Frame { landed: true, fall_time: 800, ..frame(0, 0.8, &player) };
    let (kind, report) = only_move(&stream_self_movement(&mut player, land, &Vec::new()));
    assert_eq!(kind, MoveKind::FallLand);
    assert_eq!(report.flags, 0, "the FALL_LAND carries the live (released) flags");
}

#[test]
fn airborne_turn_transitions_and_facing_still_stream() {
    let mut player = Player::new();
    player.move_flags = FORWARD | FALLING;
    let flags = FORWARD | TURN_LEFT | FALLING;
    let turn = Frame { fall_time: 200, ..frame(flags, 0.2, &player) };
    let (kind, report) = only_move(&stream_self_movement(&mut player, turn, &Vec::new()));
    assert_eq!(kind, MoveKind::StartTurnLeft);
    assert_ne!(report.flags & FALLING, 0, "the packet rides the arc");
    facing(&mut player, 1.0);
    let face = Frame { fall_time: 900, ..frame(flags, 1.5, &player) };
    let (kind, _) = only_move(&stream_self_movement(&mut player, face, &Vec::new()));
    assert_eq!(kind, MoveKind::SetFacing, "SET_FACING, not a heartbeat");
}

#[test]
fn park_mover_flushes_a_stop_and_clears_stale_flags() {
    let mut player = Player::new();
    player.move_flags = FORWARD;
    facing(&mut player, -3.0);
    let Some(ClientCommand::Move { kind, report }) = park_mover(&mut player) else {
        panic!("expected a Move command");
    };
    assert_eq!(kind, MoveKind::Stop);
    assert_eq!(report.flags, 0, "the parked Stop clears the move-flags");
    let orientation = f(report.orientation);
    assert!(
        (0.0..TAU).contains(&orientation),
        "the parked facing is normalized into [0, 2π), got {orientation}"
    );
    assert_eq!(player.move_flags, 0, "bookkeeping is zeroed after parking");
    assert_eq!(player.last_sent_facing, report.orientation);
}

#[test]
fn park_mover_is_a_noop_once_already_stopped() {
    let mut player = Player::new();
    assert!(
        park_mover(&mut player).is_none(),
        "no Stop is sent when we were already reported stopped"
    );
}

#[test]
fn a_reduction_that_rounds_to_the_full_turn_goes_out_as_zero() {
    assert_eq!(wire_facing(s(TAU)), s(0.0));
    assert_eq!(wire_facing(s(f32::NAN)), s(0.0));
    assert_eq!(wire_facing(s(6.28)), s(6.28));
    assert_eq!(wire_facing(s(0.0)), s(0.0));
}

#[test]
fn a_jump_brings_its_tail() {
    let mut player = Player::new();
    player.move_flags = FORWARD;
    player.jump_zspeed = s(7.955547);
    let jump = Frame { jumped: true, ..frame(FORWARD | FALLING, 1.0, &player) };
    let (kind, report) = only_move(&stream_self_movement(&mut player, jump, &Vec::new()));
    assert_eq!(kind, MoveKind::Jump);
    assert_eq!(report.jump.map(|j| f(j.xy_speed)), Some(7.0));
    assert_eq!(report.jump.map(|j| f(j.zspeed)), Some(-7.955547), "the wire counts downward");
    assert_eq!(player.last_heartbeat, s(1.0));
}

#[test]
fn a_press_and_a_turn_are_two_packets() {
    let player = Player::new();
    let both = frame(FORWARD | TURN_LEFT, 0.0, &player);
    assert_eq!(
        move_kinds(0, FORWARD | TURN_LEFT, both),
        vec![MoveKind::StartForward, MoveKind::StartTurnLeft]
    );
    assert_eq!(
        move_kinds(FORWARD | STRAFE_LEFT, FORWARD, frame(FORWARD, 0.0, &player)),
        vec![MoveKind::StopStrafe]
    );
    assert_eq!(
        move_kinds(0, SWIMMING, frame(SWIMMING, 0.0, &player)),
        vec![MoveKind::StartSwim]
    );
}

#[test]
fn heartbeats_come_every_half_second_while_moving() {
    let mut player = Player::new();
    player.move_flags = FORWARD;
    let early = frame(FORWARD, 0.4, &player);
    assert!(stream_self_movement(&mut player, early, &Vec::new()).is_empty());
    let due = frame(FORWARD, 0.5, &player);
    let (kind, _) = only_move(&stream_self_movement(&mut player, due, &Vec::new()));
    assert_eq!(kind, MoveKind::Heartbeat);
    let quiet = frame(FORWARD, 0.9, &player);
    assert!(stream_self_movement(&mut player, quiet, &Vec::new()).is_empty());
}

#[test]
fn boarding_a_transport_is_reported_and_roots_are_not() {
    let mut player = Player::new();
    let pose = TransportPose { guid: 3, pos: origin(), orientation: s(0.0) };
    let aboard = Frame { transport: Some(pose), ..frame(ON_TRANSPORT | ROOT, 0.1, &player) };
    let (kind, report) = only_move(&stream_self_movement(&mut player, aboard, &Vec::new()));
    assert_eq!(kind, MoveKind::Heartbeat);
    assert_eq!(report.flags, ON_TRANSPORT);
    assert_eq!(report.transport, Some(pose));
    let off = frame(0, 0.2, &player);
    assert_eq!(only_move(&stream_self_movement(&mut player, off, &Vec::new())).0, MoveKind::Heartbeat);
}

#[test]
fn speed_changes_are_acknowledged_with_the_frame() {
    let mut player = Player::new();
    let change = SpeedChange { kind: 1, guid: 5, counter: 9, speed: s(14.0) };
    let still = frame(0, 0.0, &player);
    let sent = stream_self_movement(&mut player, still, &vec![change]);
    assert_eq!(sent.len(), 1);
    let ClientCommand::ForceSpeedAck { change: echoed, report } = sent[0] else {
        panic!("expected an acknowledgement");
    };
    assert_eq!(echoed, change);
    assert_eq!(report.flags, 0);
    assert_eq!(FALLING_FAR & report.flags, 0);
}
