//! What the client says to the server, and the state the server's messages drive.
//!
//! A command is what we mean to say, with its places in the engine's axes as the avatar has them. The
//! packet has them in the wire's: whoever hands a command to the session changes the basis of every
//! place in it. Orientations are the same in both.
pub mod apply;
pub mod motion;

use vstd::prelude::*;

use crate::single::{Point, Single};

verus! {

/// The opcode family of one movement packet.
#[derive(Clone, Copy, Debug, PartialEq, Eq, Structural)]
pub enum MoveKind {
    StartForward,
    StartBackward,
    Stop,
    StartStrafeLeft,
    StartStrafeRight,
    StopStrafe,
    Jump,
    StartTurnLeft,
    StartTurnRight,
    StopTurn,
    StartSwim,
    StopSwim,
    FallLand,
    SetFacing,
    Heartbeat,
}

/// The ballistic launch of an airborne mover, as the wire carries it: `zspeed` is down-positive.
#[derive(Clone, Copy, Debug, PartialEq, Eq, Structural)]
pub struct JumpInfo {
    pub zspeed: Single,
    pub cos_angle: Single,
    pub sin_angle: Single,
    pub xy_speed: Single,
}

/// A rider's pose in the frame of the transport it stands on. Of our own, the place is in the engine's
/// axes; of a remote unit's, in the wire's.
#[derive(Clone, Copy, Debug, PartialEq, Eq, Structural)]
pub struct TransportPose {
    pub guid: u64,
    pub pos: Point,
    pub orientation: Single,
}

/// The movement payload that every movement packet and speed acknowledgement carries. The place is in
/// the engine's axes; the jump tail is as the wire carries it.
#[derive(Clone, Copy, Debug, PartialEq, Eq, Structural)]
pub struct MoveReport {
    pub flags: u32,
    pub pos: Point,
    pub orientation: Single,
    pub pitch: Single,
    pub fall_time: u32,
    pub jump: Option<JumpInfo>,
    pub transport: Option<TransportPose>,
}

/// A speed that the server forced on our mover; `counter` identifies the change in its
/// acknowledgement.
#[derive(Clone, Copy, Debug, PartialEq, Eq, Structural)]
pub struct SpeedChange {
    pub kind: u8,
    pub guid: u64,
    pub counter: u32,
    pub speed: Single,
}

/// The speeds that the server gives a unit.
#[derive(Clone, Copy, Debug, PartialEq, Eq, Structural)]
pub struct MoveSpeeds {
    pub walk: Single,
    pub run: Single,
    pub run_back: Single,
    pub swim: Single,
    pub swim_back: Single,
    pub turn_rate: Single,
}

/// One command for the network thread, its places in the engine's axes.
#[derive(Clone, Copy, Debug, PartialEq, Eq, Structural)]
pub enum ClientCommand {
    Move { kind: MoveKind, report: MoveReport },
    ForceSpeedAck { change: SpeedChange, report: MoveReport },
    WorldportAck,
    TeleportAck { guid: u64, counter: u32 },
    MoveRootAck {
        guid: u64,
        counter: u32,
        rooted: bool,
        flags: u32,
        pos: Point,
        orientation: Single,
    },
    WaterWalkAck {
        guid: u64,
        counter: u32,
        on: bool,
        flags: u32,
        pos: Point,
        orientation: Single,
    },
    StandStateChange { state: u32 },
    MountSpecial,
    MailDelete { mailbox: u64, mail_id: u32 },
    GetMailList { mailbox: u64 },
    ChatIgnored { guid: u64 },
}

} // verus!
