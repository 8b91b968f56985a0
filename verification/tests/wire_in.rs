use benilla::move_flags::{FORWARD, ROOT, WATER_WALKING};
use benilla::net::{ClientCommand, MoveKind, SpeedChange};
use benilla::player::state::{ahead, Heading, Player, PlayerRide};
use benilla::player::wire_in::{
    apply_root, apply_server_moves, apply_teleport, apply_worldport, release_on_logout, take_control,
    Camera, Carried, MoveRoot, Mover, ServerMoves, Teleport, WaterWalk, Worldport,
};
use benilla::single::{origin, Point, Single};

fn s(x: f32) -> Single {
    Single::from_bits(x.to_bits())
}

fn at(x: f32) -> Point {
    Point { x: s(x), y: s(0.0), z: s(0.0) }
}

fn heading(yaw: f32) -> Heading {
    Heading { yaw: s(yaw), reduced: s(yaw.rem_euclid(std::f32::consts::TAU)) }
}

fn mover() -> Mover {
    Mover {
        player: Player { active: true, move_flags: FORWARD, ..Player::new() },
        camera: Camera { yaw: s(0.0), pitch: s(0.1) },
        current_map: Some(0),
    }
}

fn port(transport_entry: Option<u32>, carried: Option<Carried>) -> Worldport {
    Worldport {
        map_id: 1,
        position: at(9.0),
        orientation: heading(2.0),
        transport_entry,
        needs_ack: true,
        carried,
    }
}

fn aboard(mut m: Mover) -> Mover {
    m.player.ride =
        Some(PlayerRide { entity: 4, guid: 77, local_pos: origin(), boat_yaw: s(0.0) });
    m
}

#[test]
fn a_transfer_stops_and_holds_the_mover() {
    let mut m = aboard(mover());
    assert_eq!(apply_worldport(&mut m, &port(None, None), s(30.0)), Some(ClientCommand::WorldportAck));
    assert_eq!((m.current_map, m.player.pos, m.player.move_flags), (Some(1), at(9.0), 0));
    assert!(m.player.settling && m.player.ride.is_none());
    assert_eq!((m.player.settle_deadline, m.camera.yaw, m.camera.pitch), (s(30.0), s(2.0), s(0.1)));
    let quiet = Worldport { needs_ack: false, ..port(None, None) };
    assert_eq!(apply_worldport(&mut m, &quiet, s(30.0)), None);
}

#[test]
fn a_ride_goes_through_a_transfer_with_its_deck() {
    let carried = Carried {
        boat_yaw: s(0.5),
        pos: at(50.0),
        face: heading(1.0),
        model_yaw: s(1.0),
        cam_yaw: s(1.5),
    };
    let mut m = aboard(mover());
    apply_worldport(&mut m, &port(Some(3), Some(carried)), s(30.0));
    assert_eq!(m.player.ride.map(|r| (r.guid, r.local_pos)), Some((77, at(9.0))));
    assert_eq!((m.player.pos, m.player.settling), (at(50.0), false));
    let mut lost = aboard(mover());
    apply_worldport(&mut lost, &port(Some(3), None), s(30.0));
    assert_eq!((lost.player.ride, lost.player.pos), (None, at(9.0)));
}

#[test]
fn a_teleport_is_acknowledged_and_reported() {
    let mut m = mover();
    let jump = Teleport { guid: 2, counter: 6, position: at(3.0), orientation: heading(-1.0) };
    let (ack, report) = apply_teleport(&mut m, &jump, s(30.0));
    assert_eq!(ack, ClientCommand::TeleportAck { guid: 2, counter: 6 });
    let ClientCommand::Move { kind, report } = report else {
        panic!("expected a Move command");
    };
    assert_eq!((kind, report.flags, report.pos), (MoveKind::Stop, 0, at(3.0)));
    assert_eq!(report.orientation, heading(-1.0).reduced);
    assert!(m.player.settling && m.player.ride_abort);
    assert_eq!(m.player.move_flags, 0);
}

#[test]
fn a_root_parks_first() {
    let mut player = mover().player;
    let mut sent = Vec::new();
    apply_root(&mut player, &MoveRoot { guid: 2, counter: 8, rooted: true }, &mut sent);
    assert_eq!(sent.len(), 2);
    assert!(matches!(sent[0], ClientCommand::Move { kind: MoveKind::Stop, .. }));
    assert!(matches!(
        sent[1],
        ClientCommand::MoveRootAck { guid: 2, counter: 8, rooted: true, flags: ROOT, .. }
    ));
    assert!(player.rooted && player.move_flags == 0);
    apply_root(&mut player, &MoveRoot { guid: 2, counter: 9, rooted: false }, &mut sent);
    assert_eq!(sent.len(), 3);
    assert!(matches!(sent[2], ClientCommand::MoveRootAck { rooted: false, flags: 0, .. }));
    assert!(!player.rooted);
}

#[test]
fn control_is_taken_once() {
    let mut m = Mover { player: Player::new(), ..mover() };
    take_control(&mut m, None, s(30.0));
    assert!(!m.player.active);
    take_control(&mut m, Some(at(4.0)), s(30.0));
    assert!(m.player.active && m.player.settling);
    assert_eq!((m.player.pos, m.player.face), (at(4.0), ahead()));
    take_control(&mut m, Some(at(5.0)), s(60.0));
    assert_eq!(m.player.pos, at(4.0));
    release_on_logout(&mut m.player);
    assert!(!m.player.active);
}

#[test]
fn a_frame_of_server_moves_is_answered_in_order() {
    let mut m = mover();
    let change = SpeedChange { kind: 0, guid: 2, counter: 3, speed: s(14.0) };
    let moves = ServerMoves {
        worldports: vec![port(None, None)],
        teleports: vec![Teleport {
            guid: 2,
            counter: 1,
            position: at(3.0),
            orientation: heading(0.0),
        }],
        roots: vec![MoveRoot { guid: 2, counter: 4, rooted: true }],
        water_walks: vec![WaterWalk { guid: 2, counter: 5, on: true }],
        speeds: vec![change],
        self_pos: Some(at(8.0)),
        settle_until: s(30.0),
    };
    let sent = apply_server_moves(&mut m, &moves);
    assert_eq!(sent[0], ClientCommand::WorldportAck);
    assert_eq!(sent[1], ClientCommand::TeleportAck { guid: 2, counter: 1 });
    assert!(matches!(sent[2], ClientCommand::Move { kind: MoveKind::Stop, .. }));
    assert!(matches!(sent[3], ClientCommand::MoveRootAck { counter: 4, .. }));
    assert!(matches!(
        sent[4],
        ClientCommand::WaterWalkAck { counter: 5, on: true, flags: WATER_WALKING, .. }
    ));
    assert_eq!(sent.len(), 5, "a driven mover answers its speeds with its own report");
    assert_eq!((m.current_map, m.player.pos), (Some(1), at(3.0)));
    let mut parked = mover();
    parked.player.detached = true;
    let speeds_only = ServerMoves {
        worldports: Vec::new(),
        teleports: Vec::new(),
        roots: Vec::new(),
        water_walks: Vec::new(),
        speeds: vec![change],
        self_pos: None,
        settle_until: s(30.0),
    };
    let acked = apply_server_moves(&mut parked, &speeds_only);
    assert!(acked.iter().any(|c| matches!(c, ClientCommand::ForceSpeedAck { .. })));
}
