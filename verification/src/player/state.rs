//! The avatar's shared state, and the small input rules that every part of the controller reads.
use vstd::prelude::*;

use crate::single::{origin, zero, Point, Single};

verus! {

/// A heading: the unbounded accumulator that turning drives, and its reduction modulo a full turn,
/// which is what the wire carries.
#[derive(Clone, Copy, Debug, PartialEq, Eq, Structural)]
pub struct Heading {
    pub yaw: Single,
    pub reduced: Single,
}

/// Facing along the zero axis.
#[verifier::allow_in_spec]
pub fn ahead() -> Heading
    returns
        (Heading { yaw: zero(), reduced: zero() }),
{
    Heading { yaw: zero(), reduced: zero() }
}

/// The attachment to a transport's frame.
#[derive(Clone, Copy, Debug, PartialEq, Eq, Structural)]
pub struct PlayerRide {
    /// The platform that supports us.
    pub entity: u64,
    /// The name of the platform on the wire.
    pub guid: u64,
    /// Feet position in the platform's frame, in the engine's axes.
    pub local_pos: Point,
    /// The platform's yaw when `local_pos` was taken.
    pub boat_yaw: Single,
}

/// Our controllable avatar.
#[derive(Clone, Copy, Debug, PartialEq, Eq, Structural)]
pub struct Player {
    /// The server has reported our position and we drive the avatar.
    pub active: bool,
    /// The server rooted our mover: translation and jumps are dead, turning is live.
    pub rooted: bool,
    /// Autorun is latched on: a held-forward that no key holds.
    pub autorun: bool,
    /// A follow holds forward this frame.
    pub follow_forward: bool,
    /// The camera flies on its own and the avatar is frozen.
    pub detached: bool,
    /// Feet position, in the engine's axes.
    pub pos: Point,
    /// Vertical velocity, up positive.
    pub vel_y: Single,
    /// Horizontal velocity; frozen at takeoff while airborne.
    pub horiz_vel: Point,
    /// The movement flags last streamed.
    pub move_flags: u32,
    /// The facing last sent.
    pub last_sent_facing: Single,
    /// The stand state volunteered whose echo has not come back.
    pub stand_pending: Option<u8>,
    /// Held in place with gravity off until the ground under a fresh position has loaded.
    pub settling: bool,
    /// When settling gives up.
    pub settle_deadline: Single,
    /// A relocation voided the server ride in progress.
    pub ride_abort: bool,
    /// When a movement packet last went out.
    pub last_heartbeat: Single,
    /// When the airborne phase began, if in one.
    pub airborne_since: Option<Single>,
    /// At rest between steep faces, treated as standing.
    pub wedged: bool,
    /// Consecutive stalled airborne frames.
    pub wedge_still: u8,
    /// The takeoff vertical speed of the current arc.
    pub jump_zspeed: Single,
    /// The translation flags that the current arc launched with.
    pub airborne_dirs: u32,
    /// The height the current arc launched from.
    pub fall_start_y: Single,
    /// The current arc is a far fall.
    pub fall_far: bool,
    /// The facing.
    pub face: Heading,
    /// In swim mode.
    pub swimming: bool,
    /// The swim pitch, held until steered.
    pub swim_pitch: Single,
    /// This frame's swim travel speed.
    pub swim_stroke_speed: Single,
    /// The rendered body heading.
    pub model_yaw: Single,
    /// A server-authored path owns the avatar.
    pub server_riding: bool,
    /// The id of that path.
    pub ride_spline_id: u32,
    /// The transport we stand on, if any.
    pub ride: Option<PlayerRide>,
}

impl Player {
    /// An avatar that the server has not reported yet.
    #[verifier::allow_in_spec]
    pub fn new() -> Player
        returns
            (Player {
                active: false,
                rooted: false,
                autorun: false,
                follow_forward: false,
                detached: false,
                pos: origin(),
                vel_y: zero(),
                horiz_vel: origin(),
                move_flags: 0,
                last_sent_facing: zero(),
                stand_pending: None,
                settling: false,
                settle_deadline: zero(),
                ride_abort: false,
                last_heartbeat: zero(),
                airborne_since: None,
                wedged: false,
                wedge_still: 0,
                jump_zspeed: zero(),
                airborne_dirs: 0,
                fall_start_y: zero(),
                fall_far: false,
                face: ahead(),
                swimming: false,
                swim_pitch: zero(),
                swim_stroke_speed: zero(),
                model_yaw: zero(),
                server_riding: false,
                ride_spline_id: 0,
                ride: None,
            }),
    {
        Player {
            active: false,
            rooted: false,
            autorun: false,
            follow_forward: false,
            detached: false,
            pos: origin(),
            vel_y: zero(),
            horiz_vel: origin(),
            move_flags: 0,
            last_sent_facing: zero(),
            stand_pending: None,
            settling: false,
            settle_deadline: zero(),
            ride_abort: false,
            last_heartbeat: zero(),
            airborne_since: None,
            wedged: false,
            wedge_still: 0,
            jump_zspeed: zero(),
            airborne_dirs: 0,
            fall_start_y: zero(),
            fall_far: false,
            face: ahead(),
            swimming: false,
            swim_pitch: zero(),
            swim_stroke_speed: zero(),
            model_yaw: zero(),
            server_riding: false,
            ride_spline_id: 0,
            ride: None,
        }
    }

    /// The facing, which the rendered body may lag behind.
    pub fn facing(&self) -> (yaw: Single)
        ensures
            yaw == self.face.yaw,
    {
        self.face.yaw
    }

    /// The movement flags last streamed.
    pub fn move_flags(&self) -> (flags: u32)
        ensures
            flags == self.move_flags,
    {
        self.move_flags
    }

    /// The transport we stand on.
    pub fn riding(&self) -> (guid: Option<u64>)
        ensures
            guid == ridden(*self),
    {
        match self.ride {
            Some(ride) => Some(ride.guid),
            None => None,
        }
    }

    /// Does a server-authored path own the avatar?
    pub fn server_riding(&self) -> (on: bool)
        ensures
            on == self.server_riding,
    {
        self.server_riding
    }
}

/// One for a source that is on, nothing for one that is not.
pub open spec fn unit(on: bool) -> int {
    if on {
        1
    } else {
        0
    }
}

/// The net of the sources on the forward/back axis.
pub open spec fn net_axis(forward: bool, backward: bool, both_buttons: bool, autorun: bool) -> int {
    unit(forward) + unit(both_buttons) + unit(autorun) - unit(backward)
}

/// The forward/back axis: autorun, the forward key and the both-button run each pull forward, the
/// backward key pulls back, and the pulls add up. Only the sign is ever used.
pub fn forward_axis(forward: bool, backward: bool, both_buttons: bool, autorun: bool) -> (axis: i32)
    ensures
        axis == net_axis(forward, backward, both_buttons, autorun),
{
    let mut axis: i32 = 0;
    if forward {
        axis = axis + 1;
    }
    if both_buttons {
        axis = axis + 1;
    }
    if autorun {
        axis = axis + 1;
    }
    if backward {
        axis = axis - 1;
    }
    axis
}

/// The transport that an avatar stands on.
pub open spec fn ridden(player: Player) -> Option<u64> {
    match player.ride {
        Some(ride) => Some(ride.guid),
        None => None,
    }
}

/// Does a frame's input destroy autorun?
pub open spec fn ends_autorun(
    fwd_down: bool,
    back_down: bool,
    both_engaged: bool,
    lost_mover: bool,
) -> bool {
    fwd_down || back_down || both_engaged || lost_mover
}

/// Does this frame's input destroy autorun? The first two are key-down edges and the third is the
/// transition into both buttons held; losing the mover is a level.
pub fn autorun_cancelled(fwd_down: bool, back_down: bool, both_engaged: bool, lost_mover: bool) -> (r:
    bool)
    ensures
        r == ends_autorun(fwd_down, back_down, both_engaged, lost_mover),
{
    fwd_down || back_down || both_engaged || lost_mover
}

/// Autorun is a held forward key: the two are interchangeable on the axis, and so is the both-button
/// run.
pub proof fn forward_sources_are_interchangeable(a: bool, b: bool, c: bool, backward: bool)
    ensures
        net_axis(a, backward, b, c) == net_axis(c, backward, b, a),
        net_axis(a, backward, b, c) == net_axis(b, backward, a, c),
{
}

/// With exactly one forward source live, the backward key nets it to a standstill, and releasing the
/// key resumes the run; with none live, releasing the key stops.
pub proof fn releasing_backward_resumes_what_is_still_live(
    forward: bool,
    both_buttons: bool,
    autorun: bool,
)
    ensures
        unit(forward) + unit(both_buttons) + unit(autorun) == 1 ==> net_axis(
            forward,
            true,
            both_buttons,
            autorun,
        ) == 0 && net_axis(forward, false, both_buttons, autorun) == 1,
        !forward && !both_buttons && !autorun ==> net_axis(forward, true, both_buttons, autorun)
            == -1 && net_axis(forward, false, both_buttons, autorun) == 0,
{
}

/// The axis counts its sources: every forward source that comes on moves it one forward, and the
/// backward key one back.
pub proof fn every_source_counts_once(forward: bool, backward: bool, both_buttons: bool, autorun: bool)
    ensures
        net_axis(false, false, false, false) == 0,
        net_axis(true, backward, both_buttons, autorun) == net_axis(
            false,
            backward,
            both_buttons,
            autorun,
        ) + 1,
        net_axis(forward, backward, true, autorun) == net_axis(forward, backward, false, autorun) + 1,
        net_axis(forward, backward, both_buttons, true) == net_axis(
            forward,
            backward,
            both_buttons,
            false,
        ) + 1,
        net_axis(forward, true, both_buttons, autorun) == net_axis(
            forward,
            false,
            both_buttons,
            autorun,
        ) - 1,
{
}

/// An avatar that the server has not reported yet is at rest: it is not driven, not held back, not in
/// the air or the water, and rides nothing.
pub proof fn a_fresh_avatar_is_at_rest()
    ensures
        ({
            let p = Player::new();
            &&& !p.active && !p.rooted && !p.autorun && !p.follow_forward && !p.detached
            &&& !p.settling && !p.wedged && !p.swimming && !p.server_riding && !p.ride_abort
            &&& p.move_flags == 0 && p.airborne_since is None && p.ride is None
            &&& p.stand_pending is None
            &&& p.pos == origin() && p.horiz_vel == origin() && p.vel_y == zero()
            &&& p.face == ahead()
        }),
{
}

/// An avatar rides the transport of its ride, and none without one.
pub proof fn a_ride_is_on_its_transport(player: Player)
    ensures
        player.ride matches Some(ride) ==> ridden(player) == Some(ride.guid),
        player.ride is None ==> ridden(player) is None,
{
}

/// Any one of its four ends destroys autorun, and nothing else does.
pub proof fn each_end_destroys_autorun(a: bool, b: bool, c: bool)
    ensures
        ends_autorun(true, a, b, c) && ends_autorun(a, true, b, c) && ends_autorun(a, b, true, c)
            && ends_autorun(a, b, c, true),
        !ends_autorun(false, false, false, false),
{
}

} // verus!
