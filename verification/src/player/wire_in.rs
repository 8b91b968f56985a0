//! Movement that the server authors for our mover, each piece with the acknowledgement it is owed:
//! transfers between maps, teleports, root and unroot, water-walk grants, the moment we take control,
//! and the forced speeds that nobody else answers.
//!
//! Places are in the engine's axes throughout: those that the server sent have been changed into them
//! on the way in, and those that we answer with are changed out of them on the way out.
use vstd::prelude::*;

use crate::move_flags::{bits_if, flag_if, ROOT, WATER_WALKING};
use crate::net::{ClientCommand, MoveKind, MoveReport, SpeedChange};
use crate::player::movement_net::{
    on_wire, park_mover, parked, parked_stop, speed_acks, wire_facing,
};
use crate::player::state::{ahead, Heading, Player, PlayerRide};
use crate::single::{zero, Point, Single};

verus! {

/// -0.45: the camera pitch on taking control.
pub const FIRST_PITCH: u32 = 0xbee6_6666;

/// Where the camera looks.
#[derive(Clone, Copy, Debug, PartialEq, Eq, Structural)]
pub struct Camera {
    pub yaw: Single,
    pub pitch: Single,
}

/// A transfer to another map, or to the first one at login.
#[derive(Clone, Copy, Debug, PartialEq, Eq, Structural)]
pub struct Worldport {
    pub map_id: u32,
    /// Where to, in the engine's axes.
    pub position: Point,
    pub orientation: Heading,
    /// The transport that the server carried through the transfer; the pose is then in its frame.
    pub transport_entry: Option<u32>,
    /// The server waits for an acknowledgement.
    pub needs_ack: bool,
    /// The world pose that the live platform composes from the transfer's local pose and the mover
    /// that the transfer meets, where the platform we ride still exists.
    pub carried: Option<Carried>,
}

/// A rider's pose composed through its platform: the whole rider turns with the deck.
#[derive(Clone, Copy, Debug, PartialEq, Eq, Structural)]
pub struct Carried {
    pub boat_yaw: Single,
    pub pos: Point,
    pub face: Heading,
    pub model_yaw: Single,
    pub cam_yaw: Single,
}

/// A relocation on the map we are on.
#[derive(Clone, Copy, Debug, PartialEq, Eq, Structural)]
pub struct Teleport {
    pub guid: u64,
    pub counter: u32,
    /// Where to, in the engine's axes.
    pub position: Point,
    pub orientation: Heading,
}

/// A root or an unroot.
#[derive(Clone, Copy, Debug, PartialEq, Eq, Structural)]
pub struct MoveRoot {
    pub guid: u64,
    pub counter: u32,
    pub rooted: bool,
}

/// A grant or removal of walking on water.
#[derive(Clone, Copy, Debug, PartialEq, Eq, Structural)]
pub struct WaterWalk {
    pub guid: u64,
    pub counter: u32,
    pub on: bool,
}

/// Everything that a server-authored edge can touch.
#[derive(Clone, Copy, Debug, PartialEq, Eq, Structural)]
pub struct Mover {
    pub player: Player,
    pub camera: Camera,
    /// The map whose terrain is wanted; `None` until the first transfer.
    pub current_map: Option<u32>,
}

/// Does this transfer carry the platform we ride?
pub open spec fn rides_through(player: Player, port: Worldport) -> bool {
    port.transport_entry is Some && player.ride is Some
}

/// The mover after one transfer. Riding through it, the pose is local to the platform and the deck
/// stays our support, so nothing is held; with the platform gone the local pose is read as a world
/// pose. Otherwise the pose is a world pose, any ride is stale, the body snaps, and we are held until
/// the ground loads. Either way the flags clear and any arc ends.
pub open spec fn after_worldport(mover: Mover, port: Worldport, settle_until: Single) -> Mover {
    let player = mover.player;
    let stopped = Player { move_flags: 0, airborne_since: None, ..player };
    if rides_through(player, port) {
        match port.carried {
            Some(carried) => Mover {
                player: Player {
                    ride: Some(
                        PlayerRide {
                            local_pos: port.position,
                            boat_yaw: carried.boat_yaw,
                            ..player.ride->0
                        },
                    ),
                    pos: carried.pos,
                    face: carried.face,
                    model_yaw: carried.model_yaw,
                    ..stopped
                },
                camera: Camera { yaw: carried.cam_yaw, ..mover.camera },
                current_map: Some(port.map_id),
            },
            None => Mover {
                player: Player { ride: None, pos: port.position, ..stopped },
                camera: mover.camera,
                current_map: Some(port.map_id),
            },
        }
    } else {
        Mover {
            player: Player {
                ride: None,
                pos: port.position,
                face: port.orientation,
                model_yaw: port.orientation.yaw,
                settling: true,
                settle_deadline: settle_until,
                ..stopped
            },
            camera: Camera { yaw: port.orientation.yaw, ..mover.camera },
            current_map: Some(port.map_id),
        }
    }
}

/// The acknowledgement of one transfer.
pub open spec fn worldport_acks(port: Worldport) -> Seq<ClientCommand> {
    if port.needs_ack {
        seq![ClientCommand::WorldportAck]
    } else {
        seq![]
    }
}

/// What one transfer is answered with.
pub open spec fn worldport_ack(port: Worldport) -> Option<ClientCommand> {
    if port.needs_ack {
        Some(ClientCommand::WorldportAck)
    } else {
        None
    }
}

/// Apply one transfer.
pub fn apply_worldport(mover: &mut Mover, port: &Worldport, settle_until: Single) -> (ack: Option<
    ClientCommand,
>)
    ensures
        *final(mover) == after_worldport(*old(mover), *port, settle_until),
        ack == worldport_ack(*port),
{
    let riding = port.transport_entry.is_some() && mover.player.ride.is_some();
    if riding {
        match port.carried {
            Some(carried) => {
                if let Some(ride) = mover.player.ride {
                    mover.player.ride = Some(
                        PlayerRide {
                            entity: ride.entity,
                            guid: ride.guid,
                            local_pos: port.position,
                            boat_yaw: carried.boat_yaw,
                        },
                    );
                }
                mover.player.pos = carried.pos;
                mover.player.face = carried.face;
                mover.player.model_yaw = carried.model_yaw;
                mover.camera.yaw = carried.cam_yaw;
            },
            None => {
                mover.player.pos = port.position;
                mover.player.ride = None;
            },
        }
    } else {
        mover.player.ride = None;
        mover.player.pos = port.position;
        mover.player.face = port.orientation;
        mover.player.model_yaw = port.orientation.yaw;
        mover.camera.yaw = port.orientation.yaw;
        mover.player.settling = true;
        mover.player.settle_deadline = settle_until;
    }
    mover.player.move_flags = 0;
    mover.player.airborne_since = None;
    mover.current_map = Some(port.map_id);
    if port.needs_ack {
        Some(ClientCommand::WorldportAck)
    } else {
        None
    }
}

/// The mover after one teleport: snapped, stopped, held until the ground loads, and any server ride
/// void.
pub open spec fn after_teleport(mover: Mover, port: Teleport, settle_until: Single) -> Mover {
    Mover {
        player: Player {
            pos: port.position,
            face: port.orientation,
            move_flags: 0,
            airborne_since: None,
            settling: true,
            settle_deadline: settle_until,
            ride_abort: true,
            ..mover.player
        },
        camera: Camera { yaw: port.orientation.yaw, ..mover.camera },
        current_map: mover.current_map,
    }
}

/// A report of standing still at a place.
pub open spec fn standing_report(pos: Point, orientation: Single) -> MoveReport {
    MoveReport {
        flags: 0,
        pos,
        orientation,
        pitch: zero(),
        fall_time: 0,
        jump: None,
        transport: None,
    }
}

fn standing(pos: Point, orientation: Single) -> (report: MoveReport)
    ensures
        report == standing_report(pos, orientation),
{
    MoveReport { flags: 0, pos, orientation, pitch: zero(), fall_time: 0, jump: None, transport: None }
}

/// The acknowledgement of one teleport, and then the position report that makes the server show what
/// stands at the destination.
pub open spec fn teleport_acks(port: Teleport) -> Seq<ClientCommand> {
    seq![
        ClientCommand::TeleportAck { guid: port.guid, counter: port.counter },
        ClientCommand::Move {
            kind: MoveKind::Stop,
            report: standing_report(port.position, on_wire(port.orientation.reduced)),
        },
    ]
}

/// Apply one teleport.
pub fn apply_teleport(mover: &mut Mover, port: &Teleport, settle_until: Single) -> (acks: (
    ClientCommand,
    ClientCommand,
))
    ensures
        *final(mover) == after_teleport(*old(mover), *port, settle_until),
        seq![acks.0, acks.1] == teleport_acks(*port),
{
    mover.player.pos = port.position;
    mover.player.face = port.orientation;
    mover.camera.yaw = port.orientation.yaw;
    mover.player.move_flags = 0;
    mover.player.airborne_since = None;
    mover.player.settling = true;
    mover.player.settle_deadline = settle_until;
    mover.player.ride_abort = true;
    let report = standing(port.position, wire_facing(port.orientation.reduced));
    (
        ClientCommand::TeleportAck { guid: port.guid, counter: port.counter },
        ClientCommand::Move { kind: MoveKind::Stop, report },
    )
}

/// The avatar after a root or an unroot; a root parks the mover first.
pub open spec fn after_root(player: Player, root: MoveRoot) -> Player {
    let told = Player { rooted: root.rooted, ..player };
    if root.rooted {
        parked(told)
    } else {
        told
    }
}

/// The commands of a root or an unroot: the parking stop, where there is something to stop, and then
/// the acknowledgement, which carries the root flag and no moving flag.
pub open spec fn root_acks(player: Player, root: MoveRoot) -> Seq<ClientCommand> {
    (if root.rooted && player.move_flags != 0 {
        seq![parked_stop(player)]
    } else {
        seq![]
    }).push(
        ClientCommand::MoveRootAck {
            guid: root.guid,
            counter: root.counter,
            rooted: root.rooted,
            flags: bits_if(root.rooted, ROOT),
            pos: player.pos,
            orientation: on_wire(player.face.reduced),
        },
    )
}

/// Apply one root or unroot, appending its commands.
pub fn apply_root(player: &mut Player, root: &MoveRoot, commands: &mut Vec<ClientCommand>)
    ensures
        *final(player) == after_root(*old(player), *root),
        final(commands)@ == old(commands)@ + root_acks(*old(player), *root),
{
    player.rooted = root.rooted;
    if root.rooted {
        if let Some(stop) = park_mover(player) {
            commands.push(stop);
        }
    }
    commands.push(
        ClientCommand::MoveRootAck {
            guid: root.guid,
            counter: root.counter,
            rooted: root.rooted,
            flags: flag_if(root.rooted, ROOT),
            pos: player.pos,
            orientation: wire_facing(player.face.reduced),
        },
    );
}

/// The acknowledgement of a water-walk change.
pub open spec fn water_walk_ack(player: Player, walk: WaterWalk) -> ClientCommand {
    ClientCommand::WaterWalkAck {
        guid: walk.guid,
        counter: walk.counter,
        on: walk.on,
        flags: bits_if(walk.on, WATER_WALKING),
        pos: player.pos,
        orientation: on_wire(player.face.reduced),
    }
}

/// The mover once the server has reported where we stand: the first report hands us control, facing
/// ahead and held until the ground loads; later ones change nothing.
pub open spec fn after_first_report(mover: Mover, self_pos: Option<Point>, settle_until: Single) -> Mover {
    if !mover.player.active && self_pos is Some {
        Mover {
            player: Player {
                pos: self_pos->0,
                active: true,
                settling: true,
                settle_deadline: settle_until,
                face: ahead(),
                model_yaw: zero(),
                ..mover.player
            },
            camera: Camera { yaw: zero(), pitch: Single::from_bits(FIRST_PITCH) },
            current_map: mover.current_map,
        }
    } else {
        mover
    }
}

/// Take control on the first report of our position.
pub fn take_control(mover: &mut Mover, self_pos: Option<Point>, settle_until: Single)
    ensures
        *final(mover) == after_first_report(*old(mover), self_pos, settle_until),
{
    if !mover.player.active {
        if let Some(pos) = self_pos {
            mover.player.pos = pos;
            mover.player.active = true;
            mover.player.settling = true;
            mover.player.settle_deadline = settle_until;
            mover.player.face = ahead();
            mover.player.model_yaw = zero();
            mover.camera = Camera { yaw: zero(), pitch: Single::from_bits(FIRST_PITCH) };
        }
    }
}

/// One frame's worth of server-authored movement.
pub struct ServerMoves {
    pub worldports: Vec<Worldport>,
    pub teleports: Vec<Teleport>,
    pub roots: Vec<MoveRoot>,
    pub water_walks: Vec<WaterWalk>,
    pub speeds: Vec<SpeedChange>,
    /// Where the server says we stand.
    pub self_pos: Option<Point>,
    /// When a hold that begins now gives up.
    pub settle_until: Single,
}

/// The mover after a run of transfers.
pub open spec fn after_worldports(mover: Mover, ports: Seq<Worldport>, settle_until: Single) -> Mover
    decreases ports.len(),
{
    if ports.len() == 0 {
        mover
    } else {
        after_worldport(
            after_worldports(mover, ports.drop_last(), settle_until),
            ports.last(),
            settle_until,
        )
    }
}

/// The acknowledgements of a run of transfers: one for each that waits for it.
pub open spec fn all_worldport_acks(ports: Seq<Worldport>) -> Seq<ClientCommand>
    decreases ports.len(),
{
    if ports.len() == 0 {
        seq![]
    } else {
        all_worldport_acks(ports.drop_last()) + worldport_acks(ports.last())
    }
}

/// The mover after a run of teleports.
pub open spec fn after_teleports(mover: Mover, ports: Seq<Teleport>, settle_until: Single) -> Mover
    decreases ports.len(),
{
    if ports.len() == 0 {
        mover
    } else {
        after_teleport(
            after_teleports(mover, ports.drop_last(), settle_until),
            ports.last(),
            settle_until,
        )
    }
}

/// The acknowledgements and position reports of a run of teleports.
pub open spec fn all_teleport_acks(ports: Seq<Teleport>) -> Seq<ClientCommand>
    decreases ports.len(),
{
    if ports.len() == 0 {
        seq![]
    } else {
        all_teleport_acks(ports.drop_last()) + teleport_acks(ports.last())
    }
}

/// The avatar after a run of roots and unroots.
pub open spec fn after_roots(player: Player, roots: Seq<MoveRoot>) -> Player
    decreases roots.len(),
{
    if roots.len() == 0 {
        player
    } else {
        after_root(after_roots(player, roots.drop_last()), roots.last())
    }
}

/// The commands of a run of roots and unroots.
pub open spec fn all_root_acks(player: Player, roots: Seq<MoveRoot>) -> Seq<ClientCommand>
    decreases roots.len(),
{
    if roots.len() == 0 {
        seq![]
    } else {
        all_root_acks(player, roots.drop_last()) + root_acks(
            after_roots(player, roots.drop_last()),
            roots.last(),
        )
    }
}

/// The acknowledgements of a run of water-walk changes.
pub open spec fn all_water_walk_acks(player: Player, walks: Seq<WaterWalk>) -> Seq<ClientCommand> {
    Seq::new(walks.len(), |i: int| water_walk_ack(player, walks[i]))
}

/// The mover after the transfers, the teleports and the roots of a frame.
pub open spec fn relocated(mover: Mover, moves: ServerMoves) -> Mover {
    let placed = after_teleports(
        after_worldports(mover, moves.worldports@, moves.settle_until),
        moves.teleports@,
        moves.settle_until,
    );
    Mover { player: after_roots(placed.player, moves.roots@), ..placed }
}

/// The mover after a frame's worth of server-authored movement.
pub open spec fn after_server_moves(mover: Mover, moves: ServerMoves) -> Mover {
    after_first_report(relocated(mover, moves), moves.self_pos, moves.settle_until)
}

/// The speed acknowledgements that are owed here: all of them while nobody streams our movement, none
/// while the movement stream answers them with its own payload.
pub open spec fn parked_speed_acks(player: Player, changes: Seq<SpeedChange>) -> Seq<ClientCommand> {
    if !player.active || player.detached {
        speed_acks(changes, standing_report(player.pos, on_wire(player.face.reduced)))
    } else {
        seq![]
    }
}

/// The commands of a frame's worth of server-authored movement, in order.
pub open spec fn server_move_acks(mover: Mover, moves: ServerMoves) -> Seq<ClientCommand> {
    let placed = after_teleports(
        after_worldports(mover, moves.worldports@, moves.settle_until),
        moves.teleports@,
        moves.settle_until,
    );
    let rooted = relocated(mover, moves);
    all_worldport_acks(moves.worldports@) + all_teleport_acks(moves.teleports@) + all_root_acks(
        placed.player,
        moves.roots@,
    ) + all_water_walk_acks(rooted.player, moves.water_walks@) + parked_speed_acks(
        after_server_moves(mover, moves).player,
        moves.speeds@,
    )
}

/// Apply a frame's worth of server-authored movement and answer it. The speed changes stay with the
/// caller, whose movement stream acknowledges them where they were not acknowledged here.
pub fn apply_server_moves(mover: &mut Mover, moves: &ServerMoves) -> (commands: Vec<ClientCommand>)
    ensures
        *final(mover) == after_server_moves(*old(mover), *moves),
        commands@ == server_move_acks(*old(mover), *moves),
{
    let mut commands: Vec<ClientCommand> = Vec::new();
    for i in 0..moves.worldports.len()
        invariant
            *mover == after_worldports(
                *old(mover),
                moves.worldports@.take(i as int),
                moves.settle_until,
            ),
            commands@ == all_worldport_acks(moves.worldports@.take(i as int)),
    {
        let ghost next = moves.worldports@.take(i + 1);
        assert(next.drop_last() == moves.worldports@.take(i as int));
        if let Some(ack) = apply_worldport(mover, &moves.worldports[i], moves.settle_until) {
            commands.push(ack);
        }
    }
    assert(moves.worldports@.take(moves.worldports.len() as int) == moves.worldports@);
    let ghost crossed = *mover;
    let ghost sent = commands@;
    for i in 0..moves.teleports.len()
        invariant
            *mover == after_teleports(crossed, moves.teleports@.take(i as int), moves.settle_until),
            commands@ == sent + all_teleport_acks(moves.teleports@.take(i as int)),
    {
        let ghost next = moves.teleports@.take(i + 1);
        assert(next.drop_last() == moves.teleports@.take(i as int));
        let (ack, report) = apply_teleport(mover, &moves.teleports[i], moves.settle_until);
        commands.push(ack);
        commands.push(report);
        assert(commands@ == sent + all_teleport_acks(moves.teleports@.take(i as int))
            + teleport_acks(moves.teleports@[i as int]));
    }
    assert(moves.teleports@.take(moves.teleports.len() as int) == moves.teleports@);
    let ghost placed = *mover;
    let ghost sent = commands@;
    for i in 0..moves.roots.len()
        invariant
            *mover == (Mover {
                player: after_roots(placed.player, moves.roots@.take(i as int)),
                ..placed
            }),
            commands@ == sent + all_root_acks(placed.player, moves.roots@.take(i as int)),
    {
        let ghost next = moves.roots@.take(i + 1);
        assert(next.drop_last() == moves.roots@.take(i as int));
        apply_root(&mut mover.player, &moves.roots[i], &mut commands);
    }
    assert(moves.roots@.take(moves.roots.len() as int) == moves.roots@);
    let ghost sent = commands@;
    let player = mover.player;
    for i in 0..moves.water_walks.len()
        invariant
            commands@ == sent + all_water_walk_acks(player, moves.water_walks@.take(i as int)),
    {
        let walk = moves.water_walks[i];
        commands.push(
            ClientCommand::WaterWalkAck {
                guid: walk.guid,
                counter: walk.counter,
                on: walk.on,
                flags: flag_if(walk.on, WATER_WALKING),
                pos: player.pos,
                orientation: wire_facing(player.face.reduced),
            },
        );
    }
    assert(moves.water_walks@.take(moves.water_walks.len() as int) == moves.water_walks@);
    take_control(mover, moves.self_pos, moves.settle_until);
    let ghost sent = commands@;
    if !mover.player.active || mover.player.detached {
        let report = standing(mover.player.pos, wire_facing(mover.player.face.reduced));
        for i in 0..moves.speeds.len()
            invariant
                commands@ == sent + speed_acks(moves.speeds@.take(i as int), report),
        {
            commands.push(ClientCommand::ForceSpeedAck { change: moves.speeds[i], report });
        }
        assert(moves.speeds@.take(moves.speeds.len() as int) == moves.speeds@);
    }
    commands
}

/// The avatar after a confirmed logout.
pub open spec fn after_logout(player: Player) -> Player {
    Player {
        active: false,
        move_flags: 0,
        airborne_since: None,
        wedged: false,
        wedge_still: 0,
        ..player
    }
}

/// A confirmed logout drops control, so that the next login takes it from its own report.
pub fn release_on_logout(player: &mut Player)
    ensures
        *final(player) == after_logout(*old(player)),
{
    player.active = false;
    player.move_flags = 0;
    player.airborne_since = None;
    player.wedged = false;
    player.wedge_still = 0;
}

/// Every relocation leaves the mover reported as stopped, with no arc in progress: the snap never
/// lands.
pub proof fn relocations_stop_the_mover(
    mover: Mover,
    port: Worldport,
    teleport: Teleport,
    settle_until: Single,
)
    ensures
        after_worldport(mover, port, settle_until).player.move_flags == 0,
        after_worldport(mover, port, settle_until).player.airborne_since is None,
        after_teleport(mover, teleport, settle_until).player.move_flags == 0,
        after_teleport(mover, teleport, settle_until).player.airborne_since is None,
{
}

/// A transfer that the server did not carry a transport through leaves no ride behind, and holds us
/// until the ground loads; one that it did carry through, on a platform that still exists, keeps the
/// ride on the same platform and holds nothing.
pub proof fn a_ride_survives_only_a_carried_transfer(
    mover: Mover,
    port: Worldport,
    settle_until: Single,
)
    ensures
        !rides_through(mover.player, port) ==> after_worldport(
            mover,
            port,
            settle_until,
        ).player.ride is None && after_worldport(mover, port, settle_until).player.settling,
        rides_through(mover.player, port) && port.carried is Some ==> {
            let after = after_worldport(mover, port, settle_until).player;
            &&& after.ride is Some
            &&& (after.ride->0).entity == (mover.player.ride->0).entity
            &&& after.settling == mover.player.settling
        },
{
}

/// A root is acknowledged with the root flag alone, and only after every moving flag was reported as
/// cleared.
pub proof fn a_root_ack_carries_no_moving_flag(player: Player, root: MoveRoot)
    requires
        root.rooted,
    ensures
        after_root(player, root).move_flags == 0,
        after_root(player, root).rooted,
        root_acks(player, root).last() matches ClientCommand::MoveRootAck { flags, .. } && flags
            == ROOT,
        player.move_flags != 0 ==> root_acks(player, root)[0] == parked_stop(player),
{
}

/// Every teleport is acknowledged, in order, and its position report follows.
pub proof fn every_teleport_is_acknowledged(ports: Seq<Teleport>, i: int)
    requires
        0 <= i < ports.len(),
    ensures
        all_teleport_acks(ports).len() == 2 * ports.len(),
        all_teleport_acks(ports)[2 * i] == (ClientCommand::TeleportAck {
            guid: ports[i].guid,
            counter: ports[i].counter,
        }),
        all_teleport_acks(ports)[2 * i + 1] matches ClientCommand::Move { kind: MoveKind::Stop, report }
            && report.pos == ports[i].position,
    decreases ports.len(),
{
    let before = ports.drop_last();
    if before.len() > 0 {
        every_teleport_is_acknowledged(before, if i < before.len() { i } else { 0 });
    } else {
        assert(all_teleport_acks(before) == Seq::<ClientCommand>::empty());
    }
}

/// The transfers that wait for an acknowledgement get exactly one each.
pub proof fn every_waiting_transfer_is_acknowledged(ports: Seq<Worldport>)
    ensures
        all_worldport_acks(ports).len() == ports.filter(|p: Worldport| p.needs_ack).len(),
    decreases ports.len(),
{
    reveal(Seq::filter);
    if ports.len() > 0 {
        every_waiting_transfer_is_acknowledged(ports.drop_last());
    }
}

/// Every speed change is acknowledged by exactly one of the two streams: here while the mover is
/// parked, and by the movement stream while it is driven.
pub proof fn speeds_are_acknowledged_here_only_while_parked(
    player: Player,
    changes: Seq<SpeedChange>,
)
    ensures
        parked_speed_acks(player, changes).len() == (if player.active && !player.detached {
            0
        } else {
            changes.len()
        }),
{
}

/// A transfer that carries no transport puts us where it says, facing the way it says with body and
/// camera, on the map it says, and holds us until the given time; nothing else changes.
pub proof fn a_transfer_puts_us_where_it_says(mover: Mover, port: Worldport, settle_until: Single)
    requires
        port.transport_entry is None || mover.player.ride is None,
    ensures
        ({
            let after = after_worldport(mover, port, settle_until);
            &&& after.current_map == Some(port.map_id)
            &&& after.player.pos == port.position
            &&& after.player.face == port.orientation
            &&& after.player.model_yaw == port.orientation.yaw
            &&& after.player.ride is None
            &&& after.player.settling && after.player.settle_deadline == settle_until
            &&& after.camera.yaw == port.orientation.yaw
            &&& after.camera.pitch == mover.camera.pitch
            &&& after.player.horiz_vel == mover.player.horiz_vel
            &&& after.player.vel_y == mover.player.vel_y
            &&& after.player.active == mover.player.active
            &&& after.player.rooted == mover.player.rooted
        }),
{
}

/// A transfer that carries the transport we ride keeps us on it: at the place on its deck that the
/// transfer says, and in the world where the platform puts that. With the platform gone the place is
/// taken as one in the world, and the ride is over.
pub proof fn a_carried_transfer_keeps_us_aboard(
    mover: Mover,
    ride: PlayerRide,
    port: Worldport,
    settle_until: Single,
)
    requires
        mover.player.ride == Some(ride),
        port.transport_entry is Some,
    ensures
        ({
            let after = after_worldport(mover, port, settle_until);
            &&& after.current_map == Some(port.map_id)
            &&& port.carried matches Some(c) ==> {
                &&& after.player.ride matches Some(r) && r.entity == ride.entity && r.guid
                    == ride.guid && r.local_pos == port.position && r.boat_yaw == c.boat_yaw
                &&& after.player.pos == c.pos
                &&& after.player.face == c.face
                &&& after.player.model_yaw == c.model_yaw
                &&& after.camera.yaw == c.cam_yaw
                &&& after.player.settling == mover.player.settling
            }
            &&& port.carried is None ==> after.player.ride is None && after.player.pos
                == port.position && after.player.face == mover.player.face && after.camera
                == mover.camera && after.player.settling == mover.player.settling
            &&& after.camera.pitch == mover.camera.pitch
        }),
{
}

/// A transfer is acknowledged exactly where the server waits for it.
pub proof fn a_transfer_is_acknowledged_where_it_waits(port: Worldport)
    ensures
        port.needs_ack ==> worldport_ack(port) == Some(ClientCommand::WorldportAck)
            && worldport_acks(port) == seq![ClientCommand::WorldportAck],
        !port.needs_ack ==> worldport_ack(port) is None && worldport_acks(port).len() == 0,
{
}

/// A teleport puts us where it says, facing the way it says with the camera; it holds us until the
/// given time and voids a ride of the server's. Body, map and everything else stay.
pub proof fn a_teleport_puts_us_where_it_says(mover: Mover, port: Teleport, settle_until: Single)
    ensures
        ({
            let after = after_teleport(mover, port, settle_until);
            &&& after.player.pos == port.position
            &&& after.player.face == port.orientation
            &&& after.camera.yaw == port.orientation.yaw
            &&& after.camera.pitch == mover.camera.pitch
            &&& after.current_map == mover.current_map
            &&& after.player.settling && after.player.settle_deadline == settle_until
            &&& after.player.ride_abort
            &&& after.player.move_flags == 0 && after.player.airborne_since is None
            &&& after.player == (Player {
                pos: port.position,
                face: port.orientation,
                move_flags: 0,
                airborne_since: None,
                settling: true,
                settle_deadline: settle_until,
                ride_abort: true,
                ..mover.player
            })
        }),
{
}

/// A teleport is answered with its own acknowledgement, and then with a stop at the place it put us,
/// facing the way it put us, in which nothing moves.
pub proof fn a_teleport_is_answered_from_its_destination(port: Teleport)
    ensures
        teleport_acks(port).len() == 2,
        teleport_acks(port)[0] == (ClientCommand::TeleportAck {
            guid: port.guid,
            counter: port.counter,
        }),
        teleport_acks(port)[1] matches ClientCommand::Move { kind, report } && kind == MoveKind::Stop
            && report.pos == port.position && report.flags == 0 && report.fall_time == 0
            && report.jump is None && report.transport is None && report.pitch == zero() && (
        zero().at_most(port.orientation.reduced) && port.orientation.reduced.below(
            Single::from_bits(crate::player::movement_net::FULL_TURN),
        ) ==> report.orientation == port.orientation.reduced),
{
}

/// A root roots and an unroot frees; both are acknowledged with their own guid and counter, from where
/// we stand and the way we face. An unroot stops nothing and its acknowledgement carries no flag.
pub proof fn a_root_holds_until_it_is_lifted(player: Player, root: MoveRoot)
    ensures
        after_root(player, root).rooted == root.rooted,
        !root.rooted ==> after_root(player, root) == (Player { rooted: false, ..player })
            && root_acks(player, root).len() == 1,
        root.rooted ==> root_acks(player, root).len() == (if player.move_flags != 0 {
            2int
        } else {
            1
        }),
        root_acks(player, root).last() matches ClientCommand::MoveRootAck {
            guid,
            counter,
            rooted,
            flags,
            pos,
            orientation,
        } && guid == root.guid && counter == root.counter && rooted == root.rooted && flags == (
        if root.rooted {
            0x1000u32
        } else {
            0
        }) && pos == player.pos && orientation == on_wire(player.face.reduced),
        after_root(player, root).pos == player.pos,
        after_root(player, root).face == player.face,
{
}

/// A water-walk change is acknowledged with its own guid and counter, from where we stand and the way
/// we face, and with the flag exactly where it is granted.
pub proof fn a_water_walk_is_acknowledged(player: Player, walk: WaterWalk)
    ensures
        water_walk_ack(player, walk) matches ClientCommand::WaterWalkAck {
            guid,
            counter,
            on,
            flags,
            pos,
            orientation,
        } && guid == walk.guid && counter == walk.counter && on == walk.on && flags == (if walk.on {
            0x1000_0000u32
        } else {
            0
        }) && pos == player.pos && orientation == on_wire(player.face.reduced),
{
}

/// The first report of where we stand hands us control there, facing ahead, with the camera behind and
/// a little above, and held until the given time; a later one, or none, changes nothing.
pub proof fn the_first_report_hands_us_control(mover: Mover, pos: Point, settle_until: Single)
    ensures
        ({
            let after = after_first_report(mover, Some(pos), settle_until);
            &&& !mover.player.active ==> {
                &&& after.player.active
                &&& after.player.pos == pos
                &&& after.player.face == ahead()
                &&& after.player.model_yaw == zero()
                &&& after.player.settling && after.player.settle_deadline == settle_until
                &&& after.camera.yaw == zero()
                &&& after.camera.pitch == Single::from_bits(FIRST_PITCH)
                &&& after.current_map == mover.current_map
                &&& after.player.rooted == mover.player.rooted
                &&& after.player.ride == mover.player.ride
            }
            &&& mover.player.active ==> after == mover
        }),
        after_first_report(mover, None, settle_until) == mover,
{
}

/// While nobody streams our movement, a speed change is acknowledged with its own change, in order,
/// and a report of standing where we are.
pub proof fn a_parked_mover_acknowledges_standing(
    player: Player,
    changes: Seq<SpeedChange>,
    i: int,
)
    requires
        !player.active || player.detached,
        0 <= i < changes.len(),
    ensures
        parked_speed_acks(player, changes)[i] matches ClientCommand::ForceSpeedAck { change, report }
            && change == changes[i] && report.pos == player.pos && report.flags == 0
            && report.orientation == on_wire(player.face.reduced) && report.jump is None
            && report.transport is None && report.fall_time == 0 && report.pitch == zero(),
{
}

/// Of several relocations in a frame the last one stands: a teleport after a transfer puts us where the
/// teleport says, on the map of the transfer.
pub proof fn the_last_relocation_stands(
    mover: Mover,
    moves: ServerMoves,
    port: Worldport,
    teleport: Teleport,
)
    requires
        moves.worldports@ == seq![port],
        moves.teleports@ == seq![teleport],
        moves.roots@.len() == 0,
        mover.player.active,
    ensures
        ({
            let after = after_server_moves(mover, moves);
            &&& after.current_map == Some(port.map_id)
            &&& after.player.pos == teleport.position
            &&& after.player.face == teleport.orientation
            &&& after.player.settle_deadline == moves.settle_until
        }),
{
    assert(moves.worldports@.drop_last() == Seq::<Worldport>::empty());
    assert(moves.teleports@.drop_last() == Seq::<Teleport>::empty());
    reveal_with_fuel(after_worldports, 2);
    reveal_with_fuel(after_teleports, 2);
}

/// A frame's answers come in the order of what they answer: transfers, teleports, roots, water walks
/// and then the speeds; and every one of them is answered.
pub proof fn a_frame_answers_in_order(mover: Mover, moves: ServerMoves)
    ensures
        ({
            let acks = server_move_acks(mover, moves);
            let ports = all_worldport_acks(moves.worldports@);
            let teleports = all_teleport_acks(moves.teleports@);
            let player = after_server_moves(mover, moves).player;
            let walks = moves.water_walks@;
            let speeds = parked_speed_acks(player, moves.speeds@);
            &&& acks.len() >= ports.len() + teleports.len() + walks.len() + speeds.len()
            &&& acks.take(ports.len() as int) == ports
            &&& acks.subrange(ports.len() as int, (ports.len() + teleports.len()) as int) == teleports
            &&& acks.skip(acks.len() - speeds.len()) == speeds
            &&& forall|i: int|
                0 <= i < walks.len() ==> (acks[acks.len() - speeds.len() - walks.len() + i]
                    matches ClientCommand::WaterWalkAck { counter, .. } && counter == (
                #[trigger] walks[i]).counter)
        }),
{
    let acks = server_move_acks(mover, moves);
    let ports = all_worldport_acks(moves.worldports@);
    let teleports = all_teleport_acks(moves.teleports@);
    assert(acks.take(ports.len() as int) =~= ports);
    assert(acks.subrange(ports.len() as int, (ports.len() + teleports.len()) as int) =~= teleports);
    let speeds = parked_speed_acks(after_server_moves(mover, moves).player, moves.speeds@);
    assert(acks.skip(acks.len() - speeds.len()) =~= speeds);
}

/// A logout drops control and whatever the mover was in the middle of; the avatar stays where it is,
/// so that the next login takes control from its own report.
pub proof fn a_logout_drops_control(mover: Mover, pos: Point, settle_until: Single)
    ensures
        ({
            let out = after_logout(mover.player);
            &&& !out.active
            &&& out.move_flags == 0
            &&& out.airborne_since is None
            &&& !out.wedged && out.wedge_still == 0
            &&& out.pos == mover.player.pos
            &&& out.face == mover.player.face
            &&& after_first_report(
                Mover { player: out, ..mover },
                Some(pos),
                settle_until,
            ).player.pos == pos
        }),
{
}

/// Runs are taken one by one and in order: the last of a run meets the mover that those before it left,
/// and its answer comes behind theirs. An empty run does nothing and is answered by nothing.
pub proof fn runs_are_taken_one_by_one(
    mover: Mover,
    ports: Seq<Worldport>,
    port: Worldport,
    teleports: Seq<Teleport>,
    teleport: Teleport,
    roots: Seq<MoveRoot>,
    root: MoveRoot,
    settle_until: Single,
)
    ensures
        after_worldports(mover, ports.push(port), settle_until) == after_worldport(
            after_worldports(mover, ports, settle_until),
            port,
            settle_until,
        ),
        after_worldports(mover, seq![], settle_until) == mover,
        all_worldport_acks(ports.push(port)) == all_worldport_acks(ports) + worldport_acks(port),
        all_worldport_acks(seq![]).len() == 0,
        after_teleports(mover, teleports.push(teleport), settle_until) == after_teleport(
            after_teleports(mover, teleports, settle_until),
            teleport,
            settle_until,
        ),
        after_teleports(mover, seq![], settle_until) == mover,
        all_teleport_acks(teleports.push(teleport)) == all_teleport_acks(teleports)
            + teleport_acks(teleport),
        all_teleport_acks(seq![]).len() == 0,
        after_roots(mover.player, roots.push(root)) == after_root(
            after_roots(mover.player, roots),
            root,
        ),
        after_roots(mover.player, seq![]) == mover.player,
        all_root_acks(mover.player, roots.push(root)) == all_root_acks(mover.player, roots)
            + root_acks(after_roots(mover.player, roots), root),
        all_root_acks(mover.player, seq![]).len() == 0,
{
    assert(ports.push(port).drop_last() =~= ports);
    assert(teleports.push(teleport).drop_last() =~= teleports);
    assert(roots.push(root).drop_last() =~= roots);
}

/// A frame moves the mover by its transfers, then by its teleports, then roots it, and then hands over
/// control where that is due; each water walk is answered from where the mover stands by then, for whom
/// and as it was ordered.
pub proof fn a_frame_is_taken_in_order(mover: Mover, moves: ServerMoves)
    ensures
        ({
            let until = moves.settle_until;
            let crossed = after_worldports(mover, moves.worldports@, until);
            let placed = after_teleports(crossed, moves.teleports@, until);
            let rooted = after_roots(placed.player, moves.roots@);
            let stood = Mover { player: rooted, ..placed };
            let walks = moves.water_walks@;
            let answers = all_water_walk_acks(rooted, walks);
            &&& after_server_moves(mover, moves) == after_first_report(stood, moves.self_pos, until)
            &&& server_move_acks(mover, moves) == all_worldport_acks(moves.worldports@)
                + all_teleport_acks(moves.teleports@) + all_root_acks(placed.player, moves.roots@)
                + answers + parked_speed_acks(
                after_server_moves(mover, moves).player,
                moves.speeds@,
            )
            &&& answers.len() == walks.len()
            &&& forall|i: int|
                0 <= i < walks.len() ==> (#[trigger] answers[i] matches ClientCommand::WaterWalkAck {
                    guid,
                    counter,
                    on,
                    flags,
                    pos,
                    orientation,
                } && {
                    &&& guid == walks[i].guid && counter == walks[i].counter && on == walks[i].on
                    &&& on ==> flags == WATER_WALKING
                    &&& !on ==> flags == 0
                    &&& pos == rooted.pos
                    &&& orientation == on_wire(rooted.face.reduced)
                })
        }),
{
}

} // verus!
