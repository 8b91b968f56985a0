//! Outbound self-movement. [`stream_self_movement`] holds this frame's flags against the flags last
//! reported and says which packets go out: one per axis transition, the jump and fall lifecycle, a
//! heartbeat while moving, and a facing report when nothing else carries the turn.
//!
//! What observers see is extrapolated from what was last reported, so the report mirrors the actual
//! motion. Every orientation that leaves is within one turn, and a mover that nobody drives any more
//! is parked: one stop, with its flags cleared. The places in a report are the avatar's own, in the
//! engine's axes; the change into the wire's comes when the command is sent.
use vstd::prelude::*;

use crate::move_flags::{
    any_of, holds, BACKWARD, FALLING, FALLING_FAR, FORWARD, FORWARD_BACK, ON_TRANSPORT, STRAFE,
    STRAFE_LEFT, STRAFE_RIGHT, SWIMMING, TURN, TURN_LEFT, TURN_RIGHT,
};
use crate::net::{ClientCommand, JumpInfo, MoveKind, MoveReport, SpeedChange, TransportPose};
use crate::player::state::Player;
use crate::single::{zero, Single};

verus! {

/// 0.5: seconds between heartbeats while moving.
pub const HEARTBEAT_INTERVAL: u32 = 0x3f00_0000;

/// 0.1: the least seconds between facing reports.
pub const FACING_INTERVAL: u32 = 0x3dcc_cccd;

/// 0.02: the facing change, in radians, below which no facing report goes out.
pub const FACING_EPSILON: u32 = 0x3ca3_d70a;

/// A full turn, in radians.
pub const FULL_TURN: u32 = 0x40c9_0fdb;

/// The flags that go on the wire: the four directions, the two turns, walk mode, the two airborne
/// flags, swimming, and standing on a transport.
pub const OUTBOUND_FLAG_MASK: u32 = 0x220_613f;

/// Within one turn: `[0, 2π)`.
pub open spec fn within_turn(s: Single) -> bool {
    zero().at_most(s) && s.below(Single::from_bits(FULL_TURN))
}

/// A reduced heading as the wire carries it. Reduction can round up to the full turn itself; that is
/// the zero heading.
pub open spec fn on_wire(reduced: Single) -> Single {
    if within_turn(reduced) {
        reduced
    } else {
        zero()
    }
}

/// A reduced heading as the wire carries it, always within one turn.
pub fn wire_facing(reduced: Single) -> (s: Single)
    ensures
        s == on_wire(reduced),
        within_turn(s),
{
    if zero().is_at_most(reduced) && reduced.is_below(Single::from_bits(FULL_TURN)) {
        reduced
    } else {
        zero()
    }
}

/// The level part of a launch: the direction of the take-off velocity in the wire's plane, and its
/// length.
#[derive(Clone, Copy, Debug, PartialEq, Eq, Structural)]
pub struct Launch {
    pub cos_angle: Single,
    pub sin_angle: Single,
    pub xy_speed: Single,
}

/// The ballistic tail of an airborne packet. The avatar's take-off speed is positive upward, the
/// wire's downward.
pub open spec fn jump_tail(player: Player, launch: Launch) -> JumpInfo {
    JumpInfo {
        zspeed: player.jump_zspeed.negated(),
        cos_angle: launch.cos_angle,
        sin_angle: launch.sin_angle,
        xy_speed: launch.xy_speed,
    }
}

/// What one frame of movement has to report.
#[derive(Clone, Copy, Debug, PartialEq, Eq, Structural)]
pub struct Frame {
    /// The live movement flags.
    pub flags: u32,
    /// The swim pitch.
    pub pitch: Single,
    /// A jump launched this frame.
    pub jumped: bool,
    /// An arc ended on the ground this frame.
    pub landed: bool,
    /// A fall without a jump began this frame.
    pub started_falling: bool,
    /// Milliseconds airborne, taken before the arc's own clock was cleared.
    pub fall_time: u32,
    /// The level part of the current arc's launch.
    pub launch: Launch,
    /// The pose on the transport we stand on.
    pub transport: Option<TransportPose>,
    /// Now, in seconds.
    pub now: Single,
    /// Seconds since a movement packet last went out.
    pub since_sent: Single,
    /// The facing less the facing last sent.
    pub facing_change: Single,
}

/// The packets of one axis: a start where a direction was pressed, the first of the two winning, and
/// a stop where the axis came to rest.
pub open spec fn axis_kinds(
    prev: u32,
    now: u32,
    first: u32,
    start_first: MoveKind,
    second: u32,
    start_second: MoveKind,
    both: u32,
    stop: MoveKind,
) -> Seq<MoveKind> {
    if any_of(now & !prev, first) {
        seq![start_first]
    } else if any_of(now & !prev, second) {
        seq![start_second]
    } else if any_of(prev & !now, both) && !any_of(now, both) {
        seq![stop]
    } else {
        seq![]
    }
}

/// The packet of the jump and fall lifecycle.
pub open spec fn lifecycle_kinds(frame: Frame) -> Seq<MoveKind> {
    if frame.jumped {
        seq![MoveKind::Jump]
    } else if frame.landed {
        seq![MoveKind::FallLand]
    } else if frame.started_falling {
        seq![MoveKind::Heartbeat]
    } else {
        seq![]
    }
}

/// The packet of entering or leaving the water.
pub open spec fn swim_kinds(prev: u32, now: u32) -> Seq<MoveKind> {
    if any_of(now & !prev, SWIMMING) {
        seq![MoveKind::StartSwim]
    } else if any_of(prev & !now, SWIMMING) {
        seq![MoveKind::StopSwim]
    } else {
        seq![]
    }
}

/// The packets of the forward/back axis and of the strafe axis.
pub open spec fn travel_kinds(prev: u32, now: u32) -> Seq<MoveKind> {
    axis_kinds(
        prev,
        now,
        FORWARD,
        MoveKind::StartForward,
        BACKWARD,
        MoveKind::StartBackward,
        FORWARD_BACK,
        MoveKind::Stop,
    ) + axis_kinds(
        prev,
        now,
        STRAFE_LEFT,
        MoveKind::StartStrafeLeft,
        STRAFE_RIGHT,
        MoveKind::StartStrafeRight,
        STRAFE,
        MoveKind::StopStrafe,
    )
}

/// The packets of the keyboard turn axis.
pub open spec fn turn_kinds(prev: u32, now: u32) -> Seq<MoveKind> {
    axis_kinds(
        prev,
        now,
        TURN_LEFT,
        MoveKind::StartTurnLeft,
        TURN_RIGHT,
        MoveKind::StartTurnRight,
        TURN,
        MoveKind::StopTurn,
    )
}

/// The packets that a change calls for. The travel axes are silent in the air: there the keys move
/// nothing, and the flags ride the packets that do go out.
pub open spec fn edge_kinds(prev: u32, now: u32, frame: Frame) -> Seq<MoveKind> {
    lifecycle_kinds(frame) + swim_kinds(prev, now) + (if any_of(now, FALLING) {
        seq![]
    } else {
        travel_kinds(prev, now)
    }) + turn_kinds(prev, now)
}

/// The packet that goes out where no change called for one: boarding or leaving a transport, the
/// heartbeat of a mover on the ground, or the facing of one that stands or is in the air.
pub open spec fn quiet_kinds(prev: u32, now: u32, frame: Frame) -> Seq<MoveKind> {
    if any_of((now & !prev) | (prev & !now), ON_TRANSPORT) {
        seq![MoveKind::Heartbeat]
    } else if now != 0 && !any_of(now, FALLING) && Single::from_bits(HEARTBEAT_INTERVAL).at_most(
        frame.since_sent,
    ) {
        seq![MoveKind::Heartbeat]
    } else if (now == 0 || any_of(now, FALLING)) && Single::from_bits(FACING_EPSILON).below(
        frame.facing_change.absolute(),
    ) && Single::from_bits(FACING_INTERVAL).at_most(frame.since_sent) {
        seq![MoveKind::SetFacing]
    } else {
        seq![]
    }
}

/// The packets of one frame, in the order they go out.
pub open spec fn frame_kinds(prev: u32, now: u32, frame: Frame) -> Seq<MoveKind> {
    let edges = edge_kinds(prev, now, frame);
    if edges.len() > 0 {
        edges
    } else {
        quiet_kinds(prev, now, frame)
    }
}

/// The payload that every packet of the frame carries.
pub open spec fn frame_report(player: Player, frame: Frame) -> MoveReport {
    let flags = frame.flags & OUTBOUND_FLAG_MASK;
    MoveReport {
        flags,
        pos: player.pos,
        orientation: on_wire(player.face.reduced),
        pitch: frame.pitch,
        fall_time: frame.fall_time,
        jump: if any_of(flags, FALLING) {
            Some(jump_tail(player, frame.launch))
        } else {
            None
        },
        transport: frame.transport,
    }
}

/// One movement command per kind.
pub open spec fn moves(kinds: Seq<MoveKind>, report: MoveReport) -> Seq<ClientCommand> {
    Seq::new(kinds.len(), |i: int| ClientCommand::Move { kind: kinds[i], report })
}

/// One acknowledgement per speed change.
pub open spec fn speed_acks(changes: Seq<SpeedChange>, report: MoveReport) -> Seq<ClientCommand> {
    Seq::new(changes.len(), |i: int| ClientCommand::ForceSpeedAck { change: changes[i], report })
}

/// The commands of a frame: first the speed acknowledgements, then the movement packets, all with the
/// frame's own payload.
pub open spec fn streamed_commands(player: Player, frame: Frame, changes: Seq<SpeedChange>) -> Seq<
    ClientCommand,
> {
    speed_acks(changes, frame_report(player, frame)) + moves(
        frame_kinds(player.move_flags, frame.flags & OUTBOUND_FLAG_MASK, frame),
        frame_report(player, frame),
    )
}

/// What the avatar remembers of a frame: the flags reported, and where a packet went out, when and
/// with which facing.
pub open spec fn streamed(player: Player, frame: Frame) -> Player {
    let flags = frame.flags & OUTBOUND_FLAG_MASK;
    if frame_kinds(player.move_flags, flags, frame).len() > 0 {
        Player {
            move_flags: flags,
            last_heartbeat: frame.now,
            last_sent_facing: on_wire(player.face.reduced),
            ..player
        }
    } else {
        Player { move_flags: flags, ..player }
    }
}

fn push_axis(
    kinds: &mut Vec<MoveKind>,
    prev: u32,
    now: u32,
    first: u32,
    start_first: MoveKind,
    second: u32,
    start_second: MoveKind,
    both: u32,
    stop: MoveKind,
)
    ensures
        final(kinds)@ == old(kinds)@ + axis_kinds(
            prev,
            now,
            first,
            start_first,
            second,
            start_second,
            both,
            stop,
        ),
{
    if holds(now & !prev, first) {
        kinds.push(start_first);
    } else if holds(now & !prev, second) {
        kinds.push(start_second);
    } else if holds(prev & !now, both) && !holds(now, both) {
        kinds.push(stop);
    }
}

/// The packets of one frame, given the flags last reported and the flags to report.
pub fn move_kinds(prev: u32, now: u32, frame: Frame) -> (kinds: Vec<MoveKind>)
    ensures
        kinds@ == frame_kinds(prev, now, frame),
{
    let mut kinds: Vec<MoveKind> = Vec::new();
    let falling = holds(now, FALLING);
    if frame.jumped {
        kinds.push(MoveKind::Jump);
    } else if frame.landed {
        kinds.push(MoveKind::FallLand);
    } else if frame.started_falling {
        kinds.push(MoveKind::Heartbeat);
    }
    assert(kinds@ == lifecycle_kinds(frame));
    if holds(now & !prev, SWIMMING) {
        kinds.push(MoveKind::StartSwim);
    } else if holds(prev & !now, SWIMMING) {
        kinds.push(MoveKind::StopSwim);
    }
    assert(kinds@ == lifecycle_kinds(frame) + swim_kinds(prev, now));
    if !falling {
        push_axis(
            &mut kinds,
            prev,
            now,
            FORWARD,
            MoveKind::StartForward,
            BACKWARD,
            MoveKind::StartBackward,
            FORWARD_BACK,
            MoveKind::Stop,
        );
        push_axis(
            &mut kinds,
            prev,
            now,
            STRAFE_LEFT,
            MoveKind::StartStrafeLeft,
            STRAFE_RIGHT,
            MoveKind::StartStrafeRight,
            STRAFE,
            MoveKind::StopStrafe,
        );
    }
    push_axis(
        &mut kinds,
        prev,
        now,
        TURN_LEFT,
        MoveKind::StartTurnLeft,
        TURN_RIGHT,
        MoveKind::StartTurnRight,
        TURN,
        MoveKind::StopTurn,
    );
    assert(kinds@ == edge_kinds(prev, now, frame));
    if kinds.len() == 0 {
        if holds((now & !prev) | (prev & !now), ON_TRANSPORT) {
            kinds.push(MoveKind::Heartbeat);
        } else if now != 0 && !falling && Single::from_bits(HEARTBEAT_INTERVAL).is_at_most(
            frame.since_sent,
        ) {
            kinds.push(MoveKind::Heartbeat);
        } else if (now == 0 || falling) && Single::from_bits(FACING_EPSILON).is_below(
            frame.facing_change.abs(),
        ) && Single::from_bits(FACING_INTERVAL).is_at_most(frame.since_sent) {
            kinds.push(MoveKind::SetFacing);
        }
    }
    kinds
}

/// The commands of one frame: first the speed acknowledgements, then the movement packets, all with
/// the frame's own payload.
pub fn stream_self_movement(player: &mut Player, frame: Frame, changes: &Vec<SpeedChange>) -> (commands:
    Vec<ClientCommand>)
    ensures
        commands@ == streamed_commands(*old(player), frame, changes@),
        *final(player) == streamed(*old(player), frame),
{
    let flags: u32 = frame.flags & OUTBOUND_FLAG_MASK;
    let orientation = wire_facing(player.face.reduced);
    let report = MoveReport {
        flags,
        pos: player.pos,
        orientation,
        pitch: frame.pitch,
        fall_time: frame.fall_time,
        jump: if holds(flags, FALLING) {
            Some(
                JumpInfo {
                    zspeed: player.jump_zspeed.negate(),
                    cos_angle: frame.launch.cos_angle,
                    sin_angle: frame.launch.sin_angle,
                    xy_speed: frame.launch.xy_speed,
                },
            )
        } else {
            None
        },
        transport: frame.transport,
    };
    let mut commands: Vec<ClientCommand> = Vec::new();
    for i in 0..changes.len()
        invariant
            commands@ == speed_acks(changes@.take(i as int), report),
    {
        commands.push(ClientCommand::ForceSpeedAck { change: changes[i], report });
    }
    assert(changes@.take(changes.len() as int) == changes@);
    let kinds = move_kinds(player.move_flags, flags, frame);
    for i in 0..kinds.len()
        invariant
            commands@ == speed_acks(changes@, report) + moves(kinds@.take(i as int), report),
    {
        commands.push(ClientCommand::Move { kind: kinds[i], report });
    }
    assert(kinds@.take(kinds.len() as int) == kinds@);
    if kinds.len() > 0 {
        player.last_heartbeat = frame.now;
        player.last_sent_facing = orientation;
    }
    player.move_flags = flags;
    commands
}

/// The one packet that parking sends.
pub open spec fn parked_stop(player: Player) -> ClientCommand {
    ClientCommand::Move {
        kind: MoveKind::Stop,
        report: MoveReport {
            flags: 0,
            pos: player.pos,
            orientation: on_wire(player.face.reduced),
            pitch: zero(),
            fall_time: 0,
            jump: None,
            transport: None,
        },
    }
}

/// The avatar after parking.
pub open spec fn parked(player: Player) -> Player {
    if player.move_flags == 0 {
        player
    } else {
        Player {
            move_flags: 0,
            last_sent_facing: on_wire(player.face.reduced),
            ..player
        }
    }
}

/// What parking sends: one stop, or nothing where no flag was reported.
pub open spec fn park_sends(player: Player) -> Option<ClientCommand> {
    if player.move_flags == 0 {
        None
    } else {
        Some(parked_stop(player))
    }
}

/// Park the mover: a single stop that clears whatever flags were last reported, or nothing where
/// they are clear already.
pub fn park_mover(player: &mut Player) -> (stop: Option<ClientCommand>)
    ensures
        stop == park_sends(*old(player)),
        *final(player) == parked(*old(player)),
{
    if player.move_flags == 0 {
        return None;
    }
    let orientation = wire_facing(player.face.reduced);
    let stop = ClientCommand::Move {
        kind: MoveKind::Stop,
        report: MoveReport {
            flags: 0,
            pos: player.pos,
            orientation,
            pitch: zero(),
            fall_time: 0,
            jump: None,
            transport: None,
        },
    };
    player.move_flags = 0;
    player.last_sent_facing = orientation;
    Some(stop)
}

/// Whatever the heading, the orientation that a frame reports is within one turn, and the flags it
/// reports are among those that the wire carries.
pub proof fn reports_are_valid(player: Player, frame: Frame)
    ensures
        within_turn(frame_report(player, frame).orientation),
        frame_report(player, frame).flags & !OUTBOUND_FLAG_MASK == 0,
{
    let flags = frame.flags;
    assert((flags & OUTBOUND_FLAG_MASK) & !OUTBOUND_FLAG_MASK == 0) by (bit_vector);
}

/// The jump tail is there exactly while the report says the mover is in the air, and its vertical
/// speed is the take-off speed of the arc, turned over.
pub proof fn the_jump_tail_rides_the_arc(player: Player, frame: Frame)
    ensures
        frame_report(player, frame).jump is Some <==> any_of(
            frame_report(player, frame).flags,
            FALLING,
        ),
        frame_report(player, frame).jump matches Some(jump) ==> jump.zspeed
            == player.jump_zspeed.negated(),
{
}

/// In the air no travel packet goes out, whatever keys are pressed or released.
pub proof fn travel_is_silent_in_the_air(prev: u32, now: u32, frame: Frame)
    requires
        any_of(now, FALLING),
    ensures
        forall|i: int|
            0 <= i < frame_kinds(prev, now, frame).len() ==> !is_travel(
                #[trigger] frame_kinds(prev, now, frame)[i],
            ),
{
}

/// A packet of the forward/back axis or of the strafe axis.
pub open spec fn is_travel(kind: MoveKind) -> bool {
    match kind {
        MoveKind::StartForward
        | MoveKind::StartBackward
        | MoveKind::Stop
        | MoveKind::StartStrafeLeft
        | MoveKind::StartStrafeRight
        | MoveKind::StopStrafe => true,
        _ => false,
    }
}

/// A frame in which nothing changed since the last one sends at most the heartbeat or the facing
/// report, and neither before its interval has passed.
pub proof fn an_unchanged_frame_is_quiet(prev: u32, frame: Frame)
    requires
        !frame.jumped,
        !frame.landed,
        !frame.started_falling,
        frame.since_sent.below(Single::from_bits(FACING_INTERVAL)),
    ensures
        frame_kinds(prev, prev, frame) == Seq::<MoveKind>::empty(),
{
    assert(prev & !prev == 0) by (bit_vector);
    assert(0u32 & SWIMMING == 0 && 0u32 & FORWARD == 0 && 0u32 & BACKWARD == 0 && 0u32
        & FORWARD_BACK == 0 && 0u32 & STRAFE_LEFT == 0 && 0u32 & STRAFE_RIGHT == 0 && 0u32 & STRAFE
        == 0 && 0u32 & TURN_LEFT == 0 && 0u32 & TURN_RIGHT == 0 && 0u32 & TURN == 0 && (0u32 | 0u32)
        & ON_TRANSPORT == 0) by (bit_vector);
    assert(edge_kinds(prev, prev, frame) == Seq::<MoveKind>::empty());
}

/// A landing goes out alone: with the keys as they were last reported, mid-air, the frame that ends
/// the arc sends exactly the landing. No stop trails it for a key that was released on the way down,
/// because that release is in the flags last reported.
pub proof fn a_landing_goes_out_alone(prev: u32, frame: Frame)
    requires
        frame.landed,
        !frame.jumped,
    ensures
        frame_kinds(prev, prev & !(FALLING | FALLING_FAR), frame) == seq![MoveKind::FallLand],
{
    let now = prev & !(FALLING | FALLING_FAR);
    assert(now & !prev == 0 && now & FALLING == 0 && (prev & !now) & SWIMMING == 0 && (prev & !now)
        & FORWARD_BACK == 0 && (prev & !now) & STRAFE == 0 && (prev & !now) & TURN == 0)
        by (bit_vector)
        requires
            now == prev & !(FALLING | FALLING_FAR),
    ;
    assert(0u32 & SWIMMING == 0 && 0u32 & FORWARD == 0 && 0u32 & BACKWARD == 0 && 0u32 & STRAFE_LEFT
        == 0 && 0u32 & STRAFE_RIGHT == 0 && 0u32 & TURN_LEFT == 0 && 0u32 & TURN_RIGHT == 0)
        by (bit_vector);
    assert(edge_kinds(prev, now, frame) == seq![MoveKind::FallLand]);
}

/// On the ground no travel axis is ever left running for observers: where the forward/back axis came
/// to rest a stop goes out, and where the strafe axis did a strafe stop does.
pub proof fn an_axis_at_rest_is_reported(prev: u32, now: u32, frame: Frame)
    requires
        !any_of(now, FALLING),
    ensures
        any_of(prev, FORWARD_BACK) && !any_of(now, FORWARD_BACK) ==> frame_kinds(
            prev,
            now,
            frame,
        ).contains(MoveKind::Stop),
        any_of(prev, STRAFE) && !any_of(now, STRAFE) ==> frame_kinds(prev, now, frame).contains(
            MoveKind::StopStrafe,
        ),
        any_of(prev, TURN) && !any_of(now, TURN) ==> frame_kinds(prev, now, frame).contains(
            MoveKind::StopTurn,
        ),
{
    let fb = axis_kinds(
        prev,
        now,
        FORWARD,
        MoveKind::StartForward,
        BACKWARD,
        MoveKind::StartBackward,
        FORWARD_BACK,
        MoveKind::Stop,
    );
    let before = lifecycle_kinds(frame) + swim_kinds(prev, now);
    let edges = edge_kinds(prev, now, frame);
    if any_of(prev, FORWARD_BACK) && !any_of(now, FORWARD_BACK) {
        assert((now & !prev) & FORWARD == 0 && (now & !prev) & BACKWARD == 0 && (prev & !now)
            & FORWARD_BACK != 0) by (bit_vector)
            requires
                prev & FORWARD_BACK != 0,
                now & FORWARD_BACK == 0,
        ;
        assert(edges[before.len() as int] == MoveKind::Stop);
    }
    if any_of(prev, STRAFE) && !any_of(now, STRAFE) {
        assert((now & !prev) & STRAFE_LEFT == 0 && (now & !prev) & STRAFE_RIGHT == 0 && (prev
            & !now) & STRAFE != 0) by (bit_vector)
            requires
                prev & STRAFE != 0,
                now & STRAFE == 0,
        ;
        assert(edges[(before + fb).len() as int] == MoveKind::StopStrafe);
    }
    if any_of(prev, TURN) && !any_of(now, TURN) {
        assert((now & !prev) & TURN_LEFT == 0 && (now & !prev) & TURN_RIGHT == 0 && (prev & !now)
            & TURN != 0) by (bit_vector)
            requires
                prev & TURN != 0,
                now & TURN == 0,
        ;
        assert(edges[(before + travel_kinds(prev, now)).len() as int] == MoveKind::StopTurn);
    }
}

/// Parking leaves the mover reported as stopped, and parking again sends nothing and changes nothing.
pub proof fn parking_is_idempotent(player: Player)
    ensures
        parked(player).move_flags == 0,
        parked(parked(player)) == parked(player),
{
}

/// The group that a packet belongs to: the jump and fall lifecycle with what goes out when nothing
/// changed, the water, the forward/back axis, the strafe axis, the turn axis.
pub open spec fn group_of(kind: MoveKind) -> int {
    match kind {
        MoveKind::Jump | MoveKind::FallLand | MoveKind::Heartbeat | MoveKind::SetFacing => 0,
        MoveKind::StartSwim | MoveKind::StopSwim => 1,
        MoveKind::StartForward | MoveKind::StartBackward | MoveKind::Stop => 2,
        MoveKind::StartStrafeLeft | MoveKind::StartStrafeRight | MoveKind::StopStrafe => 3,
        MoveKind::StartTurnLeft | MoveKind::StartTurnRight | MoveKind::StopTurn => 4,
    }
}

proof fn joined_contains(a: Seq<MoveKind>, b: Seq<MoveKind>, kind: MoveKind)
    ensures
        (a + b).contains(kind) <==> a.contains(kind) || b.contains(kind),
{
    let all = a + b;
    if a.contains(kind) {
        let i = choose|i: int| 0 <= i < a.len() && a[i] == kind;
        assert(all[i] == kind);
    }
    if b.contains(kind) {
        let i = choose|i: int| 0 <= i < b.len() && b[i] == kind;
        assert(all[a.len() + i] == kind);
    }
    if all.contains(kind) {
        let i = choose|i: int| 0 <= i < all.len() && all[i] == kind;
        if i < a.len() {
            assert(a[i] == kind);
        } else {
            assert(b[i - a.len()] == kind);
        }
    }
}

proof fn edges_contain(prev: u32, now: u32, frame: Frame, kind: MoveKind)
    ensures
        edge_kinds(prev, now, frame).contains(kind) <==> {
            ||| lifecycle_kinds(frame).contains(kind)
            ||| swim_kinds(prev, now).contains(kind)
            ||| !any_of(now, FALLING) && travel_kinds(prev, now).contains(kind)
            ||| turn_kinds(prev, now).contains(kind)
        },
        edge_kinds(prev, now, frame).contains(kind) ==> frame_kinds(prev, now, frame).contains(
            kind,
        ),
        edge_kinds(prev, now, frame).len() > 0 ==> frame_kinds(prev, now, frame) == edge_kinds(
            prev,
            now,
            frame,
        ),
{
    let a = lifecycle_kinds(frame);
    let b = swim_kinds(prev, now);
    let c = if any_of(now, FALLING) {
        Seq::<MoveKind>::empty()
    } else {
        travel_kinds(prev, now)
    };
    let d = turn_kinds(prev, now);
    joined_contains(a, b, kind);
    joined_contains(a + b, c, kind);
    joined_contains(a + b + c, d, kind);
    assert(edge_kinds(prev, now, frame) == a + b + c + d);
}

proof fn frames_contain(prev: u32, now: u32, frame: Frame, kind: MoveKind)
    requires
        kind != MoveKind::Heartbeat,
        kind != MoveKind::SetFacing,
    ensures
        frame_kinds(prev, now, frame).contains(kind) <==> edge_kinds(prev, now, frame).contains(kind),
{
    edges_contain(prev, now, frame, kind);
    let quiet = quiet_kinds(prev, now, frame);
    if quiet.contains(kind) {
        let i = choose|i: int| 0 <= i < quiet.len() && quiet[i] == kind;
        assert(quiet[i] == kind);
    }
}

proof fn a_flag_is_new(prev: u32, now: u32, bit: u32)
    requires
        bit == FORWARD || bit == BACKWARD || bit == STRAFE_LEFT || bit == STRAFE_RIGHT || bit
            == TURN_LEFT || bit == TURN_RIGHT || bit == SWIMMING,
    ensures
        any_of(now & !prev, bit) <==> any_of(now, bit) && !any_of(prev, bit),
{
    assert((now & !prev) & bit != 0 <==> now & bit != 0 && prev & bit == 0) by (bit_vector)
        requires
            bit == 0x1 || bit == 0x2 || bit == 0x4 || bit == 0x8 || bit == 0x10 || bit == 0x20 || bit
                == 0x20_0000,
    ;
}

proof fn an_axis_came_to_rest(prev: u32, now: u32, both: u32)
    ensures
        any_of(prev & !now, both) && !any_of(now, both) <==> any_of(prev, both) && !any_of(
            now,
            both,
        ),
{
    assert((prev & !now) & both != 0 && now & both == 0 <==> prev & both != 0 && now & both == 0)
        by (bit_vector);
}

/// A direction was pressed: its flag is set now and was not last reported.
pub open spec fn pressed(prev: u32, now: u32, flag: u32) -> bool {
    any_of(now, flag) && !any_of(prev, flag)
}

proof fn one_holds(all: Seq<MoveKind>, one: MoveKind, kind: MoveKind)
    requires
        all == seq![one],
    ensures
        all.contains(kind) <==> kind == one,
{
    assert(all[0] == one);
}

proof fn axes_contain(
    prev: u32,
    now: u32,
    first: u32,
    start_first: MoveKind,
    second: u32,
    start_second: MoveKind,
    both: u32,
    stop: MoveKind,
    kind: MoveKind,
)
    requires
        start_first != start_second,
        start_first != stop,
        start_second != stop,
    ensures
        ({
            let kinds = axis_kinds(
                prev,
                now,
                first,
                start_first,
                second,
                start_second,
                both,
                stop,
            );
            let a = any_of(now & !prev, first);
            let b = any_of(now & !prev, second);
            &&& kinds.contains(start_first) <==> a
            &&& kinds.contains(start_second) <==> b && !a
            &&& kinds.contains(stop) <==> !a && !b && any_of(prev & !now, both) && !any_of(
                now,
                both,
            )
            &&& kinds.contains(kind) ==> kind == start_first || kind == start_second || kind == stop
        }),
{
    let kinds = axis_kinds(prev, now, first, start_first, second, start_second, both, stop);
    assert(kinds.len() <= 1);
    if kinds.len() == 1 {
        let one = kinds[0];
        assert(kinds == seq![one]);
        one_holds(kinds, one, start_first);
        one_holds(kinds, one, start_second);
        one_holds(kinds, one, stop);
        one_holds(kinds, one, kind);
    }
}

/// On the ground every direction that is pressed is reported by its own start, and a start goes out for
/// nothing else. Where both directions of an axis are pressed at once, forward and left are the ones
/// that go out. The turns are reported in the air too.
pub proof fn a_start_goes_out_for_its_own_key(prev: u32, now: u32, frame: Frame)
    ensures
        ({
            let kinds = frame_kinds(prev, now, frame);
            let grounded = !any_of(now, FALLING);
            &&& kinds.contains(MoveKind::StartForward) <==> grounded && pressed(prev, now, FORWARD)
            &&& kinds.contains(MoveKind::StartBackward) <==> grounded && pressed(
                prev,
                now,
                BACKWARD,
            ) && !pressed(prev, now, FORWARD)
            &&& kinds.contains(MoveKind::StartStrafeLeft) <==> grounded && pressed(
                prev,
                now,
                STRAFE_LEFT,
            )
            &&& kinds.contains(MoveKind::StartStrafeRight) <==> grounded && pressed(
                prev,
                now,
                STRAFE_RIGHT,
            ) && !pressed(prev, now, STRAFE_LEFT)
            &&& kinds.contains(MoveKind::StartTurnLeft) <==> pressed(prev, now, TURN_LEFT)
            &&& kinds.contains(MoveKind::StartTurnRight) <==> pressed(prev, now, TURN_RIGHT)
                && !pressed(prev, now, TURN_LEFT)
        }),
{
    kinds_of_axes(prev, now, frame);
}

/// On the ground an axis that was reported running and is released stops, and a stop goes out for
/// nothing else.
pub proof fn a_stop_goes_out_for_its_own_axis(prev: u32, now: u32, frame: Frame)
    ensures
        ({
            let kinds = frame_kinds(prev, now, frame);
            let grounded = !any_of(now, FALLING);
            &&& kinds.contains(MoveKind::Stop) <==> grounded && any_of(prev, FORWARD | BACKWARD)
                && !any_of(now, FORWARD | BACKWARD)
            &&& kinds.contains(MoveKind::StopStrafe) <==> grounded && any_of(
                prev,
                STRAFE_LEFT | STRAFE_RIGHT,
            ) && !any_of(now, STRAFE_LEFT | STRAFE_RIGHT)
            &&& kinds.contains(MoveKind::StopTurn) <==> any_of(prev, TURN_LEFT | TURN_RIGHT)
                && !any_of(now, TURN_LEFT | TURN_RIGHT)
        }),
{
    kinds_of_axes(prev, now, frame);
    assert(0x1u32 | 0x2u32 == 0x3 && 0x4u32 | 0x8u32 == 0xc && 0x10u32 | 0x20u32 == 0x30)
        by (bit_vector);
}

proof fn kinds_of_axes(prev: u32, now: u32, frame: Frame)
    ensures
        ({
            let kinds = frame_kinds(prev, now, frame);
            let g = !any_of(now, FALLING);
            &&& kinds.contains(MoveKind::StartForward) <==> g && pressed(prev, now, FORWARD)
            &&& kinds.contains(MoveKind::StartBackward) <==> g && pressed(prev, now, BACKWARD)
                && !pressed(prev, now, FORWARD)
            &&& kinds.contains(MoveKind::Stop) <==> g && any_of(prev, FORWARD_BACK) && !any_of(
                now,
                FORWARD_BACK,
            )
            &&& kinds.contains(MoveKind::StartStrafeLeft) <==> g && pressed(prev, now, STRAFE_LEFT)
            &&& kinds.contains(MoveKind::StartStrafeRight) <==> g && pressed(
                prev,
                now,
                STRAFE_RIGHT,
            ) && !pressed(prev, now, STRAFE_LEFT)
            &&& kinds.contains(MoveKind::StopStrafe) <==> g && any_of(prev, STRAFE) && !any_of(
                now,
                STRAFE,
            )
            &&& kinds.contains(MoveKind::StartTurnLeft) <==> pressed(prev, now, TURN_LEFT)
            &&& kinds.contains(MoveKind::StartTurnRight) <==> pressed(prev, now, TURN_RIGHT)
                && !pressed(prev, now, TURN_LEFT)
            &&& kinds.contains(MoveKind::StopTurn) <==> any_of(prev, TURN) && !any_of(now, TURN)
        }),
{
    flags_of_axes(prev, now);
    one_kind_of_axes(prev, now, frame, MoveKind::StartForward);
    one_kind_of_axes(prev, now, frame, MoveKind::StartBackward);
    one_kind_of_axes(prev, now, frame, MoveKind::Stop);
    one_kind_of_axes(prev, now, frame, MoveKind::StartStrafeLeft);
    one_kind_of_axes(prev, now, frame, MoveKind::StartStrafeRight);
    one_kind_of_axes(prev, now, frame, MoveKind::StopStrafe);
    one_kind_of_axes(prev, now, frame, MoveKind::StartTurnLeft);
    one_kind_of_axes(prev, now, frame, MoveKind::StartTurnRight);
    one_kind_of_axes(prev, now, frame, MoveKind::StopTurn);
}

proof fn flags_of_axes(prev: u32, now: u32)
    ensures
        any_of(now & !prev, FORWARD) <==> pressed(prev, now, FORWARD),
        any_of(now & !prev, BACKWARD) <==> pressed(prev, now, BACKWARD),
        any_of(now & !prev, STRAFE_LEFT) <==> pressed(prev, now, STRAFE_LEFT),
        any_of(now & !prev, STRAFE_RIGHT) <==> pressed(prev, now, STRAFE_RIGHT),
        any_of(now & !prev, TURN_LEFT) <==> pressed(prev, now, TURN_LEFT),
        any_of(now & !prev, TURN_RIGHT) <==> pressed(prev, now, TURN_RIGHT),
        any_of(prev & !now, FORWARD_BACK) && !any_of(now, FORWARD_BACK) <==> any_of(
            prev,
            FORWARD_BACK,
        ) && !any_of(now, FORWARD_BACK),
        any_of(prev & !now, STRAFE) && !any_of(now, STRAFE) <==> any_of(prev, STRAFE) && !any_of(
            now,
            STRAFE,
        ),
        any_of(prev & !now, TURN) && !any_of(now, TURN) <==> any_of(prev, TURN) && !any_of(
            now,
            TURN,
        ),
        !any_of(now, FORWARD_BACK) ==> !any_of(now, FORWARD) && !any_of(now, BACKWARD),
        !any_of(now, STRAFE) ==> !any_of(now, STRAFE_LEFT) && !any_of(now, STRAFE_RIGHT),
        !any_of(now, TURN) ==> !any_of(now, TURN_LEFT) && !any_of(now, TURN_RIGHT),
{
    a_flag_is_new(prev, now, FORWARD);
    a_flag_is_new(prev, now, BACKWARD);
    a_flag_is_new(prev, now, STRAFE_LEFT);
    a_flag_is_new(prev, now, STRAFE_RIGHT);
    a_flag_is_new(prev, now, TURN_LEFT);
    a_flag_is_new(prev, now, TURN_RIGHT);
    an_axis_came_to_rest(prev, now, FORWARD_BACK);
    an_axis_came_to_rest(prev, now, STRAFE);
    an_axis_came_to_rest(prev, now, TURN);
    assert((now & 0x3 == 0 ==> now & 0x1 == 0 && now & 0x2 == 0) && (now & 0xc == 0 ==> now & 0x4
        == 0 && now & 0x8 == 0) && (now & 0x30 == 0 ==> now & 0x10 == 0 && now & 0x20 == 0))
        by (bit_vector);
}

proof fn one_kind_of_axes(prev: u32, now: u32, frame: Frame, kind: MoveKind)
    requires
        group_of(kind) >= 2,
    ensures
        frame_kinds(prev, now, frame).contains(kind) <==> {
            ||| !any_of(now, FALLING) && travel_kinds(prev, now).contains(kind)
            ||| turn_kinds(prev, now).contains(kind)
        },
        ({
            let fb = axis_kinds(
                prev,
                now,
                FORWARD,
                MoveKind::StartForward,
                BACKWARD,
                MoveKind::StartBackward,
                FORWARD_BACK,
                MoveKind::Stop,
            );
            let strafe = axis_kinds(
                prev,
                now,
                STRAFE_LEFT,
                MoveKind::StartStrafeLeft,
                STRAFE_RIGHT,
                MoveKind::StartStrafeRight,
                STRAFE,
                MoveKind::StopStrafe,
            );
            travel_kinds(prev, now).contains(kind) <==> fb.contains(kind) || strafe.contains(kind)
        }),
        turn_kinds(prev, now).contains(kind) ==> group_of(kind) == 4,
        travel_kinds(prev, now).contains(kind) ==> group_of(kind) == 2 || group_of(kind) == 3,
        turn_kinds(prev, now).contains(MoveKind::StartTurnLeft) <==> any_of(now & !prev, TURN_LEFT),
        turn_kinds(prev, now).contains(MoveKind::StartTurnRight) <==> any_of(now & !prev, TURN_RIGHT)
            && !any_of(now & !prev, TURN_LEFT),
        turn_kinds(prev, now).contains(MoveKind::StopTurn) <==> !any_of(now & !prev, TURN_LEFT)
            && !any_of(now & !prev, TURN_RIGHT) && any_of(prev & !now, TURN) && !any_of(now, TURN),
        kind == MoveKind::StartForward ==> (travel_kinds(prev, now).contains(kind) <==> any_of(
            now & !prev,
            FORWARD,
        )),
        kind == MoveKind::StartBackward ==> (travel_kinds(prev, now).contains(kind) <==> any_of(
            now & !prev,
            BACKWARD,
        ) && !any_of(now & !prev, FORWARD)),
        kind == MoveKind::Stop ==> (travel_kinds(prev, now).contains(kind) <==> !any_of(
            now & !prev,
            FORWARD,
        ) && !any_of(now & !prev, BACKWARD) && any_of(prev & !now, FORWARD_BACK) && !any_of(
            now,
            FORWARD_BACK,
        )),
        kind == MoveKind::StartStrafeLeft ==> (travel_kinds(prev, now).contains(kind) <==> any_of(
            now & !prev,
            STRAFE_LEFT,
        )),
        kind == MoveKind::StartStrafeRight ==> (travel_kinds(prev, now).contains(kind) <==> any_of(
            now & !prev,
            STRAFE_RIGHT,
        ) && !any_of(now & !prev, STRAFE_LEFT)),
        kind == MoveKind::StopStrafe ==> (travel_kinds(prev, now).contains(kind) <==> !any_of(
            now & !prev,
            STRAFE_LEFT,
        ) && !any_of(now & !prev, STRAFE_RIGHT) && any_of(prev & !now, STRAFE) && !any_of(
            now,
            STRAFE,
        )),
{
    let fb = axis_kinds(
        prev,
        now,
        FORWARD,
        MoveKind::StartForward,
        BACKWARD,
        MoveKind::StartBackward,
        FORWARD_BACK,
        MoveKind::Stop,
    );
    let strafe = axis_kinds(
        prev,
        now,
        STRAFE_LEFT,
        MoveKind::StartStrafeLeft,
        STRAFE_RIGHT,
        MoveKind::StartStrafeRight,
        STRAFE,
        MoveKind::StopStrafe,
    );
    frames_contain(prev, now, frame, kind);
    edges_contain(prev, now, frame, kind);
    joined_contains(fb, strafe, kind);
    axes_contain(
        prev,
        now,
        FORWARD,
        MoveKind::StartForward,
        BACKWARD,
        MoveKind::StartBackward,
        FORWARD_BACK,
        MoveKind::Stop,
        kind,
    );
    axes_contain(
        prev,
        now,
        STRAFE_LEFT,
        MoveKind::StartStrafeLeft,
        STRAFE_RIGHT,
        MoveKind::StartStrafeRight,
        STRAFE,
        MoveKind::StopStrafe,
        kind,
    );
    axes_contain(
        prev,
        now,
        TURN_LEFT,
        MoveKind::StartTurnLeft,
        TURN_RIGHT,
        MoveKind::StartTurnRight,
        TURN,
        MoveKind::StopTurn,
        kind,
    );
    let life = lifecycle_kinds(frame);
    if life.contains(kind) {
        let i = choose|i: int| 0 <= i < life.len() && life[i] == kind;
        assert(group_of(life[i]) == 0);
    }
    let swim = swim_kinds(prev, now);
    if swim.contains(kind) {
        let i = choose|i: int| 0 <= i < swim.len() && swim[i] == kind;
        assert(group_of(swim[i]) == 1);
    }
}

/// A jump is reported by a jump and a landing by a landing, each in the frame it happens and in no
/// other; a launch comes before a landing in the same frame. Entering the water and leaving it are
/// reported each by its own packet.
pub proof fn arcs_and_water_are_reported(prev: u32, now: u32, frame: Frame)
    ensures
        ({
            let kinds = frame_kinds(prev, now, frame);
            &&& kinds.contains(MoveKind::Jump) <==> frame.jumped
            &&& kinds.contains(MoveKind::FallLand) <==> frame.landed && !frame.jumped
            &&& frame.started_falling && !frame.jumped && !frame.landed ==> kinds.contains(
                MoveKind::Heartbeat,
            )
            &&& kinds.contains(MoveKind::StartSwim) <==> any_of(now, SWIMMING) && !any_of(
                prev,
                SWIMMING,
            )
            &&& kinds.contains(MoveKind::StopSwim) <==> any_of(prev, SWIMMING) && !any_of(
                now,
                SWIMMING,
            )
        }),
{
    a_flag_is_new(prev, now, SWIMMING);
    a_flag_is_new(now, prev, SWIMMING);
    one_kind_of_edges(prev, now, frame, MoveKind::Jump);
    one_kind_of_edges(prev, now, frame, MoveKind::FallLand);
    one_kind_of_edges(prev, now, frame, MoveKind::Heartbeat);
    one_kind_of_edges(prev, now, frame, MoveKind::StartSwim);
    one_kind_of_edges(prev, now, frame, MoveKind::StopSwim);
}

proof fn one_kind_of_edges(prev: u32, now: u32, frame: Frame, kind: MoveKind)
    requires
        group_of(kind) <= 1,
    ensures
        edge_kinds(prev, now, frame).contains(kind) <==> lifecycle_kinds(frame).contains(kind)
            || swim_kinds(prev, now).contains(kind),
        kind != MoveKind::Heartbeat && kind != MoveKind::SetFacing ==> (frame_kinds(
            prev,
            now,
            frame,
        ).contains(kind) <==> edge_kinds(prev, now, frame).contains(kind)),
        edge_kinds(prev, now, frame).contains(kind) ==> frame_kinds(prev, now, frame).contains(
            kind,
        ),
        lifecycle_kinds(frame).contains(kind) ==> group_of(kind) == 0,
        lifecycle_kinds(frame).contains(MoveKind::Jump) <==> frame.jumped,
        lifecycle_kinds(frame).contains(MoveKind::FallLand) <==> frame.landed && !frame.jumped,
        lifecycle_kinds(frame).contains(MoveKind::Heartbeat) <==> frame.started_falling
            && !frame.jumped && !frame.landed,
        swim_kinds(prev, now).contains(kind) ==> group_of(kind) == 1,
        swim_kinds(prev, now).contains(MoveKind::StartSwim) <==> any_of(now & !prev, SWIMMING),
        swim_kinds(prev, now).contains(MoveKind::StopSwim) <==> !any_of(now & !prev, SWIMMING)
            && any_of(prev & !now, SWIMMING),
{
    edges_contain(prev, now, frame, kind);
    if kind != MoveKind::Heartbeat && kind != MoveKind::SetFacing {
        frames_contain(prev, now, frame, kind);
    }
    let life = lifecycle_kinds(frame);
    assert(life.len() <= 1);
    if life.len() == 1 {
        one_holds(life, life[0], kind);
        one_holds(life, life[0], MoveKind::Jump);
        one_holds(life, life[0], MoveKind::FallLand);
        one_holds(life, life[0], MoveKind::Heartbeat);
    }
    let swim = swim_kinds(prev, now);
    assert(swim.len() <= 1);
    if swim.len() == 1 {
        one_holds(swim, swim[0], kind);
        one_holds(swim, swim[0], MoveKind::StartSwim);
        one_holds(swim, swim[0], MoveKind::StopSwim);
    }
    let travel = travel_kinds(prev, now);
    if travel.contains(kind) {
        let i = choose|i: int| 0 <= i < travel.len() && travel[i] == kind;
        assert(group_of(travel[i]) >= 2);
    }
    let turns = turn_kinds(prev, now);
    if turns.contains(kind) {
        let i = choose|i: int| 0 <= i < turns.len() && turns[i] == kind;
        assert(group_of(turns[i]) == 4);
    }
}

/// The packets of a frame go out group by group, and no group has two: first the arc, then the water,
/// then the forward/back axis, the strafe axis and the turn axis.
pub proof fn packets_go_out_in_order(prev: u32, now: u32, frame: Frame)
    ensures
        forall|i: int, j: int|
            0 <= i < j < frame_kinds(prev, now, frame).len() ==> group_of(
                #[trigger] frame_kinds(prev, now, frame)[i],
            ) < group_of(#[trigger] frame_kinds(prev, now, frame)[j]),
{
}

/// A frame in which nothing changed reports a boarding or a leaving at once; on the ground a mover with
/// a flag set sends its heartbeat once the interval is over; and one that stands still or is in the air
/// sends its facing once that has changed enough and the interval is over. Nothing else goes out.
pub proof fn a_quiet_frame_sends_what_is_due(prev: u32, now: u32, frame: Frame)
    requires
        edge_kinds(prev, now, frame).len() == 0,
    ensures
        ({
            let kinds = frame_kinds(prev, now, frame);
            let boards = any_of(now, ON_TRANSPORT) != any_of(prev, ON_TRANSPORT);
            let beats = now != 0 && !any_of(now, FALLING) && Single::from_bits(
                HEARTBEAT_INTERVAL,
            ).at_most(frame.since_sent);
            let faces = (now == 0 || any_of(now, FALLING)) && Single::from_bits(
                FACING_EPSILON,
            ).below(frame.facing_change.absolute()) && Single::from_bits(FACING_INTERVAL).at_most(
                frame.since_sent,
            );
            &&& boards || beats ==> kinds == seq![MoveKind::Heartbeat]
            &&& faces && !boards ==> kinds == seq![MoveKind::SetFacing]
            &&& !boards && !beats && !faces ==> kinds.len() == 0
        }),
{
    assert(((now & !prev) | (prev & !now)) & 0x200_0000 != 0 <==> (now & 0x200_0000 != 0) != (prev
        & 0x200_0000 != 0)) by (bit_vector);
}

/// Every command of a frame carries the same payload, the avatar's own: where it stands, which way it
/// faces, the flags as the wire takes them, and the frame's pitch, fall time and transport. The speed
/// acknowledgements come first, one for each change and in its order; then come the packets.
pub proof fn every_packet_carries_the_avatar(
    player: Player,
    frame: Frame,
    changes: Seq<SpeedChange>,
)
    ensures
        ({
            let commands = streamed_commands(player, frame, changes);
            let kinds = frame_kinds(player.move_flags, frame.flags & OUTBOUND_FLAG_MASK, frame);
            let report = frame_report(player, frame);
            &&& commands.len() == changes.len() + kinds.len()
            &&& forall|i: int|
                0 <= i < changes.len() ==> #[trigger] commands[i] == (ClientCommand::ForceSpeedAck {
                    change: changes[i],
                    report,
                })
            &&& forall|i: int|
                0 <= i < kinds.len() ==> commands[changes.len() + i] == (ClientCommand::Move {
                    kind: #[trigger] kinds[i],
                    report,
                })
            &&& report.pos == player.pos
            &&& report.flags == frame.flags & OUTBOUND_FLAG_MASK
            &&& report.pitch == frame.pitch
            &&& report.fall_time == frame.fall_time
            &&& report.transport == frame.transport
            &&& zero().at_most(player.face.reduced) && player.face.reduced.below(
                Single::from_bits(FULL_TURN),
            ) ==> report.orientation == player.face.reduced
            &&& report.jump matches Some(jump) ==> {
                &&& jump.cos_angle == frame.launch.cos_angle
                &&& jump.sin_angle == frame.launch.sin_angle
                &&& jump.xy_speed == frame.launch.xy_speed
                &&& jump.zspeed.rank() == -player.jump_zspeed.rank()
            }
            &&& report.jump is Some <==> any_of(report.flags, FALLING)
        }),
{
    let commands = streamed_commands(player, frame, changes);
    let kinds = frame_kinds(player.move_flags, frame.flags & OUTBOUND_FLAG_MASK, frame);
    assert forall|i: int| 0 <= i < kinds.len() implies commands[changes.len() + i] == (
    ClientCommand::Move { kind: #[trigger] kinds[i], report: frame_report(player, frame) }) by {}
}

/// The wire takes the directions, the turns, walk mode, the two airborne flags, swimming and the
/// transport; a root and water walking are not reported this way.
pub proof fn the_wire_takes_the_movement_flags(flags: u32, flag: u32)
    requires
        flag == FORWARD || flag == BACKWARD || flag == STRAFE_LEFT || flag == STRAFE_RIGHT || flag
            == TURN_LEFT || flag == TURN_RIGHT || flag == FALLING || flag == FALLING_FAR || flag
            == SWIMMING || flag == ON_TRANSPORT,
    ensures
        any_of(flags & OUTBOUND_FLAG_MASK, flag) <==> any_of(flags, flag),
        !any_of(flags & OUTBOUND_FLAG_MASK, 0x1000),
        !any_of(flags & OUTBOUND_FLAG_MASK, 0x1000_0000),
{
    assert(((flags & 0x220_613f) & flag != 0 <==> flags & flag != 0) && (flags & 0x220_613f) & 0x1000
        == 0 && (flags & 0x220_613f) & 0x1000_0000 == 0) by (bit_vector)
        requires
            flag == 0x1 || flag == 0x2 || flag == 0x4 || flag == 0x8 || flag == 0x10 || flag == 0x20
                || flag == 0x2000 || flag == 0x4000 || flag == 0x20_0000 || flag == 0x200_0000,
    ;
}

/// A frame remembers the flags it reported; and where a packet went out, when that was and the facing
/// it carried. Nothing else of the avatar changes.
pub proof fn a_frame_remembers_what_it_sent(player: Player, frame: Frame)
    ensures
        ({
            let after = streamed(player, frame);
            let sent = frame_kinds(
                player.move_flags,
                frame.flags & OUTBOUND_FLAG_MASK,
                frame,
            ).len() > 0;
            &&& after.move_flags == frame_report(player, frame).flags
            &&& sent ==> after.last_heartbeat == frame.now && after.last_sent_facing == frame_report(
                player,
                frame,
            ).orientation
            &&& !sent ==> after.last_heartbeat == player.last_heartbeat && after.last_sent_facing
                == player.last_sent_facing
            &&& after == (Player {
                move_flags: after.move_flags,
                last_heartbeat: after.last_heartbeat,
                last_sent_facing: after.last_sent_facing,
                ..player
            })
        }),
{
}

/// Parking a mover that was reported moving sends one stop, from where it stands and the way it faces,
/// with no flag, arc or transport; parking any other sends nothing. Only the flags and the facing last
/// sent change.
pub proof fn parking_stops_a_moving_mover(player: Player)
    ensures
        player.move_flags == 0 ==> park_sends(player) is None && parked(player) == player,
        player.move_flags != 0 ==> {
            &&& park_sends(player) matches Some(ClientCommand::Move { kind, report }) && kind
                == MoveKind::Stop && report.flags == 0 && report.pos == player.pos
                && report.orientation == on_wire(player.face.reduced) && report.pitch == zero()
                && report.fall_time == 0 && report.jump is None && report.transport is None
            &&& parked(player).move_flags == 0
            &&& parked(player).last_sent_facing == on_wire(player.face.reduced)
            &&& parked(player) == (Player {
                move_flags: 0,
                last_sent_facing: parked(player).last_sent_facing,
                ..player
            })
        },
{
}

/// A heading within one turn goes out as it is; one that is not goes out as no turn at all.
pub proof fn a_heading_within_a_turn_is_sent_as_it_is(reduced: Single)
    ensures
        zero().at_most(reduced) && reduced.below(Single::from_bits(FULL_TURN)) ==> on_wire(reduced)
            == reduced,
        reduced.below(zero()) || Single::from_bits(FULL_TURN).at_most(reduced) || reduced.nan()
            ==> on_wire(reduced) == zero(),
{
}

/// The measures that the stream goes by: how long a quiet mover waits before it is heard again, how long
/// a turn waits and how far it has to go, what a full turn is, and which flags the wire takes.
pub proof fn the_measures_of_the_stream(x: Single, flags: u32)
    requires
        !x.nan(),
    ensures
        Single::from_bits(HEARTBEAT_INTERVAL).at_most(x) <==> 0x3f00_0000 <= x.rank(),
        Single::from_bits(FACING_INTERVAL).at_most(x) <==> 0x3dcc_cccd <= x.rank(),
        Single::from_bits(FACING_EPSILON).at_most(x) <==> 0x3ca3_d70a <= x.rank(),
        Single::from_bits(FULL_TURN).at_most(x) <==> 0x40c9_0fdb <= x.rank(),
        flags & OUTBOUND_FLAG_MASK == flags & 0x220_613f,
{
}

} // verus!
