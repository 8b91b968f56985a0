//! The controller's decisions, in the order a frame takes them: what the keys and buttons ask for,
//! the posture it implies, the regime (walking, swimming, leaping) and its speed, and, once the mover
//! has moved the avatar, the platform it stands on and the flags that the frame reports.
use vstd::prelude::*;

use crate::move_flags::{
    any_of, bits_if, flag_if, holds, ANY_MOVE, BACKWARD, FALLING, FALLING_FAR, FORWARD,
    FORWARD_BACK, ON_TRANSPORT, STRAFE_LEFT, STRAFE_RIGHT, SWIMMING, TURN_LEFT, TURN_RIGHT,
};
use crate::net::{MoveSpeeds, TransportPose};
use crate::player::follow::{followed, heeded, FollowState, FollowStep, Sighting};
use crate::player::movement_net::{on_wire, wire_facing, within_turn};
use crate::player::mover::Outcome;
use crate::player::state::{autorun_cancelled, forward_axis, net_axis, unit, Player, PlayerRide};
use crate::player::wire_in::{Carried, Mover};
use crate::single::{origin, zero, Point, Single};

verus! {

/// 1.553343: the steepest swim pitch that mouse-look sets, in radians.
pub const MOUSELOOK_PITCH_CLAMP: u32 = 0x3fc6_d3f2;

/// How many levels above the support the owner of a platform is looked for, the support included.
pub const PLATFORM_DEPTH: usize = 4;

/// The keyboard: keys that are held, and keys that went down this frame.
#[derive(Clone, Copy, Debug, PartialEq, Eq, Structural)]
pub struct Keys {
    pub forward: bool,
    pub back: bool,
    /// Turns left, or strafes left while mouse-looking.
    pub left: bool,
    /// Turns right, or strafes right while mouse-looking.
    pub right: bool,
    pub strafe_left: bool,
    pub strafe_right: bool,
    pub boost: bool,
    pub forward_down: bool,
    pub back_down: bool,
    pub jump_down: bool,
    pub sit_down: bool,
    pub sheath_down: bool,
    pub detach_down: bool,
}

/// No key held and none pressed.
#[verifier::allow_in_spec]
pub fn no_keys() -> Keys
    returns
        (Keys {
            forward: false,
            back: false,
            left: false,
            right: false,
            strafe_left: false,
            strafe_right: false,
            boost: false,
            forward_down: false,
            back_down: false,
            jump_down: false,
            sit_down: false,
            sheath_down: false,
            detach_down: false,
        }),
{
    Keys {
        forward: false,
        back: false,
        left: false,
        right: false,
        strafe_left: false,
        strafe_right: false,
        boost: false,
        forward_down: false,
        back_down: false,
        jump_down: false,
        sit_down: false,
        sheath_down: false,
        detach_down: false,
    }
}

/// The keys that the controller sees: none while a text field owns the keyboard.
pub fn heard_keys(keys: Keys, typing: bool) -> (heard: Keys)
    ensures
        heard == (if typing {
            no_keys()
        } else {
            keys
        }),
{
    if typing {
        no_keys()
    } else {
        keys
    }
}

/// The mouse buttons.
#[derive(Clone, Copy, Debug, PartialEq, Eq, Structural)]
pub struct Buttons {
    pub left: bool,
    pub right: bool,
    pub left_down: bool,
    pub right_down: bool,
    /// The autorun button went down.
    pub autorun_down: bool,
    /// A right-drag look is in progress.
    pub look_right: bool,
}

/// Who moves the avatar this frame.
#[derive(Clone, Copy, Debug, PartialEq, Eq, Structural)]
pub enum Regime {
    /// A server-authored path does.
    ServerRide,
    /// The player does.
    Drive,
    /// Nobody: the camera flies.
    Fly,
}

/// Who moves the avatar this frame.
pub open spec fn regime_of(player: Player) -> Regime {
    if !player.active || player.detached {
        Regime::Fly
    } else if player.server_riding {
        Regime::ServerRide
    } else {
        Regime::Drive
    }
}

/// Who moves the avatar this frame.
pub fn regime(player: &Player) -> (r: Regime)
    ensures
        r == regime_of(*player),
{
    if player.active && !player.detached {
        if player.server_riding {
            Regime::ServerRide
        } else {
            Regime::Drive
        }
    } else {
        Regime::Fly
    }
}

/// The avatar after the detach key.
pub open spec fn after_toggle(player: Player, keys: Keys) -> Player {
    Player { detached: player.detached != keys.detach_down, ..player }
}

/// The detach key turns free flight on and off.
pub fn toggle_detached(player: &mut Player, keys: Keys)
    ensures
        *final(player) == after_toggle(*old(player), keys),
{
    if keys.detach_down {
        player.detached = !player.detached;
    }
}

/// The mover after the platform it rides has moved under it: the whole rider, feet, aim, body and
/// camera, takes the platform's motion. With the platform gone the ride ends where we are.
pub open spec fn after_carry(mover: Mover, carried: Option<Carried>) -> Mover {
    match (mover.player.ride, carried) {
        (Some(ride), Some(c)) => Mover {
            player: Player {
                pos: c.pos,
                face: c.face,
                model_yaw: c.model_yaw,
                ride: Some(PlayerRide { boat_yaw: c.boat_yaw, ..ride }),
                ..mover.player
            },
            camera: crate::player::wire_in::Camera { yaw: c.cam_yaw, ..mover.camera },
            ..mover
        },
        (Some(_), None) => Mover { player: Player { ride: None, ..mover.player }, ..mover },
        (None, _) => mover,
    }
}

/// Carry a rider by its platform; `carried` is the pose that the platform composes this frame, where
/// it still exists.
pub fn carry_on_platform(mover: &mut Mover, carried: Option<Carried>)
    ensures
        *final(mover) == after_carry(*old(mover), carried),
{
    if let Some(ride) = mover.player.ride {
        match carried {
            Some(c) => {
                mover.player.pos = c.pos;
                mover.player.face = c.face;
                mover.player.model_yaw = c.model_yaw;
                mover.camera.yaw = c.cam_yaw;
                mover.player.ride = Some(
                    PlayerRide {
                        entity: ride.entity,
                        guid: ride.guid,
                        local_pos: ride.local_pos,
                        boat_yaw: c.boat_yaw,
                    },
                );
            },
            None => {
                mover.player.ride = None;
            },
        }
    }
}

/// What this frame's input asks for.
#[derive(Clone, Copy, Debug, PartialEq, Eq, Structural)]
pub struct Steering {
    /// Autorun was switched on this frame.
    pub autorun_armed: bool,
    /// The net forward/back axis.
    pub axis: i32,
    /// The mouse steers the character.
    pub mouselook: bool,
    /// The keyboard turns the character.
    pub turning: bool,
    /// The way the keyboard turns: left positive.
    pub turn: i32,
    /// The turn is slowed because the character also translates.
    pub translating: bool,
    /// One step along the facing, one against it, or none.
    pub along: i32,
    /// Steps to the right.
    pub side: i32,
    /// There is somewhere to go.
    pub moving: bool,
}

/// The sign of an axis.
pub open spec fn sign(axis: int) -> int {
    if axis > 0 {
        1
    } else if axis < 0 {
        -1
    } else {
        0
    }
}

/// Both buttons held: the avatar runs forward and the mouse steers it.
pub open spec fn both_held(buttons: Buttons) -> bool {
    buttons.left && buttons.right
}

/// Autorun after the toggle of this frame and then its cancellers.
pub open spec fn autorun_after(player: Player, keys: Keys, buttons: Buttons) -> bool {
    let toggled = player.autorun != buttons.autorun_down;
    let engaged = both_held(buttons) && (buttons.left_down || buttons.right_down);
    toggled && !(keys.forward_down || keys.back_down || engaged || player.rooted
        || player.server_riding)
}

/// The steps to the right that the keys ask for; the turn keys strafe while mouse-looking.
pub open spec fn side_steps(keys: Keys, mouselook: bool) -> int {
    unit(keys.strafe_right) - unit(keys.strafe_left) + unit(mouselook && keys.right) - unit(
        mouselook && keys.left,
    )
}

/// The net of everything that pulls on the forward/back axis this frame: the keys, the both-button run,
/// autorun, and a follow.
pub open spec fn frame_axis(player: Player, keys: Keys, buttons: Buttons) -> int {
    net_axis(
        keys.forward,
        keys.back,
        both_held(buttons),
        autorun_after(player, keys, buttons),
    ) + unit(player.follow_forward)
}

/// What the input asks for.
pub open spec fn steered(player: Player, keys: Keys, buttons: Buttons) -> Steering {
    let both = both_held(buttons);
    let axis = frame_axis(player, keys, buttons);
    let mouselook = both || buttons.look_right;
    let turning = !mouselook && (keys.left || keys.right);
    let along = if player.rooted {
        0
    } else {
        sign(axis)
    };
    let side = if player.rooted {
        0
    } else {
        side_steps(keys, mouselook)
    };
    Steering {
        autorun_armed: buttons.autorun_down && !player.autorun,
        axis: axis as i32,
        mouselook,
        turning,
        turn: (if turning {
            unit(keys.left) - unit(keys.right)
        } else {
            0
        }) as i32,
        translating: turning && (axis != 0 || keys.strafe_left || keys.strafe_right),
        along: along as i32,
        side: side as i32,
        moving: along != 0 || side != 0,
    }
}

fn one_if(on: bool) -> (n: i32)
    ensures
        n == unit(on),
{
    if on {
        1
    } else {
        0
    }
}

fn signum(axis: i32) -> (n: i32)
    ensures
        n == sign(axis as int),
{
    if axis > 0 {
        1
    } else if axis < 0 {
        -1
    } else {
        0
    }
}

/// The steps to the right.
fn side_of(keys: Keys, mouselook: bool) -> (n: i32)
    ensures
        n == side_steps(keys, mouselook),
{
    one_if(keys.strafe_right) - one_if(keys.strafe_left) + one_if(mouselook && keys.right) - one_if(
        mouselook && keys.left,
    )
}

/// The autorun latch after this frame's toggle and then its cancellers.
fn latch_autorun(player: &Player, keys: Keys, buttons: Buttons) -> (on: bool)
    ensures
        on == autorun_after(*player, keys, buttons),
{
    let engaged = buttons.left && buttons.right && (buttons.left_down || buttons.right_down);
    let lost_mover = player.rooted || player.server_riding;
    (player.autorun != buttons.autorun_down) && !autorun_cancelled(
        keys.forward_down,
        keys.back_down,
        engaged,
        lost_mover,
    )
}

fn axis_of(player: &Player, keys: Keys, buttons: Buttons, autorun: bool) -> (axis: i32)
    ensures
        axis == net_axis(keys.forward, keys.back, both_held(buttons), autorun) + unit(
            player.follow_forward,
        ),
{
    forward_axis(keys.forward, keys.back, buttons.left && buttons.right, autorun) + one_if(
        player.follow_forward,
    )
}

/// The avatar after the input was read.
pub open spec fn after_steer(player: Player, keys: Keys, buttons: Buttons) -> Player {
    Player { autorun: autorun_after(player, keys, buttons), ..player }
}

/// Read this frame's input: the autorun latch, the axes, and the steps they add up to. A rooted mover
/// turns and does not translate.
pub fn steer(player: &mut Player, keys: Keys, buttons: Buttons) -> (steering: Steering)
    ensures
        steering == steered(*old(player), keys, buttons),
        *final(player) == after_steer(*old(player), keys, buttons),
{
    let both = buttons.left && buttons.right;
    let autorun_armed = buttons.autorun_down && !player.autorun;
    let autorun = latch_autorun(player, keys, buttons);
    let axis: i32 = axis_of(player, keys, buttons, autorun);
    player.autorun = autorun;
    let mouselook = both || buttons.look_right;
    let turning = !mouselook && (keys.left || keys.right);
    let turn: i32 = if turning {
        one_if(keys.left) - one_if(keys.right)
    } else {
        0
    };
    let along: i32 = if player.rooted {
        0
    } else {
        signum(axis)
    };
    let side: i32 = if player.rooted {
        0
    } else {
        side_of(keys, mouselook)
    };
    Steering {
        autorun_armed,
        axis,
        mouselook,
        turning,
        turn,
        translating: turning && (axis != 0 || keys.strafe_left || keys.strafe_right),
        along,
        side,
        moving: along != 0 || side != 0,
    }
}

/// What the controller reads of our own body.
#[derive(Clone, Copy, Debug, PartialEq, Eq, Structural)]
pub struct Body {
    pub dead: bool,
    pub mounted: bool,
    pub engaged: bool,
    /// Weapons are drawn.
    pub drawn: bool,
    /// A draw or stow is being played.
    pub ceremony: bool,
    /// The body's model is there to play one.
    pub modelled: bool,
}

/// A request to draw (1) or stow (0) weapons.
#[derive(Clone, Copy, Debug, PartialEq, Eq, Structural)]
pub struct SheathRequest {
    pub state: u8,
    /// Play it out rather than snap.
    pub ceremony: bool,
}

/// The stand state that shows: the one volunteered until its echo lands, and then the echo.
pub open spec fn shown_stand(pending: Option<u8>, echoed: u8) -> u8 {
    match pending {
        Some(state) => state,
        None => echoed,
    }
}

/// The volunteered stand state once an echo of `echoed` has been seen.
pub open spec fn pending_after_echo(pending: Option<u8>, echoed: u8) -> Option<u8> {
    if pending == Some(echoed) {
        None
    } else {
        pending
    }
}

/// The stand state to volunteer, if any: the sit key sits a standing avatar and stands a seated one,
/// and otherwise moving, turning or jumping stands a seated one up.
pub open spec fn stand_request(shown: u8, keys: Keys, moving: bool, turned: bool) -> Option<u8> {
    if keys.sit_down {
        Some(if shown == 0 {
            1u8
        } else {
            0u8
        })
    } else if (moving || turned || keys.jump_down) && shown != 0 {
        Some(0u8)
    } else {
        None
    }
}

/// The outcome of the posture step.
#[derive(Clone, Copy, Debug, PartialEq, Eq, Structural)]
pub struct Posture {
    /// The stand state to send.
    pub volunteered: Option<u8>,
    /// A snap stow that sitting or lying down calls for.
    pub stow: Option<SheathRequest>,
    /// The draw or stow that the sheath key plays out.
    pub toggle: Option<SheathRequest>,
    /// The stand state that shows from here on.
    pub stand_now: u8,
}

/// The stand state to send: the one to volunteer, unless it shows already.
pub open spec fn volunteered_stand(shown: u8, keys: Keys, moving: bool, turned: bool) -> Option<u8> {
    let request = stand_request(shown, keys, moving, turned);
    if request == Some(shown) {
        None
    } else {
        request
    }
}

/// Taking any stand state but standing (0) and sitting on a chair (2) stows drawn weapons.
pub open spec fn stow_request(volunteered: Option<u8>, body: Option<Body>) -> Option<SheathRequest> {
    match (volunteered, body) {
        (Some(state), Some(b)) if state != 0 && state != 2 && b.drawn => Some(
            SheathRequest { state: 0, ceremony: false },
        ),
        _ => None,
    }
}

/// What the sheath key asks for. It is refused, silently, without a model and for one that is dead,
/// mounted, engaged, not standing, or in the middle of a draw or stow.
pub open spec fn sheath_toggle(keys: Keys, stand_now: u8, body: Option<Body>) -> Option<SheathRequest> {
    match body {
        Some(b) if keys.sheath_down && b.modelled && !b.dead && !b.mounted && !b.engaged && stand_now
            == 0 && !b.ceremony => Some(
            SheathRequest {
                state: if b.drawn {
                    0
                } else {
                    1
                },
                ceremony: true,
            },
        ),
        _ => None,
    }
}

/// The posture that a frame's input implies.
pub open spec fn postured(
    pending: Option<u8>,
    keys: Keys,
    moving: bool,
    turned: bool,
    echoed: u8,
    body: Option<Body>,
) -> Posture {
    let shown = shown_stand(pending_after_echo(pending, echoed), echoed);
    let volunteered = volunteered_stand(shown, keys, moving, turned);
    let stand_now = shown_stand(volunteered, shown);
    Posture {
        volunteered,
        stow: stow_request(volunteered, body),
        toggle: sheath_toggle(keys, stand_now, body),
        stand_now,
    }
}

fn volunteer(shown: u8, keys: Keys, moving: bool, turned: bool) -> (volunteered: Option<u8>)
    ensures
        volunteered == volunteered_stand(shown, keys, moving, turned),
{
    if keys.sit_down {
        Some(
            if shown == 0 {
                1
            } else {
                0
            },
        )
    } else if (moving || turned || keys.jump_down) && shown != 0 {
        Some(0)
    } else {
        None
    }
}

fn stow_for(volunteered: Option<u8>, body: Option<Body>) -> (stow: Option<SheathRequest>)
    ensures
        stow == stow_request(volunteered, body),
{
    if let Some(state) = volunteered {
        if let Some(b) = body {
            if state != 0 && state != 2 && b.drawn {
                return Some(SheathRequest { state: 0, ceremony: false });
            }
        }
    }
    None
}

fn toggle_for(keys: Keys, stand_now: u8, body: Option<Body>) -> (toggle: Option<SheathRequest>)
    ensures
        toggle == sheath_toggle(keys, stand_now, body),
{
    if let Some(b) = body {
        let refused = b.dead || b.mounted || b.engaged || stand_now != 0 || b.ceremony;
        if keys.sheath_down && b.modelled && !refused {
            let state: u8 = if b.drawn {
                0
            } else {
                1
            };
            return Some(SheathRequest { state, ceremony: true });
        }
    }
    None
}

fn stand_shown(pending: Option<u8>, echoed: u8) -> (stand: u8)
    ensures
        stand == shown_stand(pending, echoed),
{
    match pending {
        Some(state) => state,
        None => echoed,
    }
}

fn heed_echo(pending: Option<u8>, echoed: u8) -> (waiting: Option<u8>)
    ensures
        waiting == pending_after_echo(pending, echoed),
{
    match pending {
        Some(state) if state == echoed => None,
        _ => pending,
    }
}

/// The avatar after its posture was settled.
pub open spec fn after_posture(player: Player, posture: Posture, echoed: u8) -> Player {
    Player {
        stand_pending: if posture.volunteered is Some {
            posture.volunteered
        } else {
            pending_after_echo(player.stand_pending, echoed)
        },
        ..player
    }
}

/// Settle the stand state and the weapons for this frame; a volunteered stand state shows at once and
/// is remembered until its echo lands.
#[verifier::spinoff_prover]
pub fn take_posture(
    player: &mut Player,
    keys: Keys,
    moving: bool,
    turned: bool,
    echoed: u8,
    body: Option<Body>,
) -> (posture: Posture)
    ensures
        posture == postured(old(player).stand_pending, keys, moving, turned, echoed, body),
        *final(player) == after_posture(*old(player), posture, echoed),
{
    let waiting = heed_echo(player.stand_pending, echoed);
    let shown: u8 = stand_shown(waiting, echoed);
    let volunteered = volunteer(shown, keys, moving, turned);
    let stand_now: u8 = stand_shown(volunteered, shown);
    player.stand_pending =
    if volunteered.is_some() {
        volunteered
    } else {
        waiting
    };
    Posture {
        volunteered,
        stow: stow_for(volunteered, body),
        toggle: toggle_for(keys, stand_now, body),
        stand_now,
    }
}

/// Where the travel speeds come from when the server's do not apply.
#[derive(Clone, Copy, Debug, PartialEq, Eq, Structural)]
pub struct Fallback {
    /// The configured speeds override the server's.
    pub forced: bool,
    pub run: Single,
    pub run_back: Single,
    pub swim: Single,
    pub swim_back: Single,
}

/// The speed of one direction pair: backward is the slower of the two, and everything else, a strafe
/// too, is the forward speed.
pub open spec fn directional(backward: bool, ahead: Single, back: Single) -> Single {
    if backward {
        back.lesser(ahead)
    } else {
        ahead
    }
}

/// The running speed: the server's, unless it has given none or is overridden.
pub open spec fn run_pace(server: Option<MoveSpeeds>, fallback: Fallback, axis: int) -> Single {
    if server is Some && !fallback.forced {
        directional(axis < 0, (server->0).run, (server->0).run_back)
    } else {
        directional(axis < 0, fallback.run, fallback.run_back)
    }
}

/// The running speed.
pub fn run_speed(server: Option<MoveSpeeds>, fallback: Fallback, axis: i32) -> (speed: Single)
    ensures
        speed == run_pace(server, fallback, axis as int),
{
    let (ahead, back) = match server {
        Some(s) if !fallback.forced => (s.run, s.run_back),
        _ => (fallback.run, fallback.run_back),
    };
    if axis < 0 {
        back.least(ahead)
    } else {
        ahead
    }
}

/// The swimming speed, by the same rule.
pub open spec fn swim_pace(server: Option<MoveSpeeds>, fallback: Fallback, swim_fwd: int) -> Single {
    if server is Some && !fallback.forced {
        directional(swim_fwd < 0, (server->0).swim, (server->0).swim_back)
    } else {
        directional(swim_fwd < 0, fallback.swim, fallback.swim_back)
    }
}

/// The swimming speed.
pub fn swim_speed(server: Option<MoveSpeeds>, fallback: Fallback, swim_fwd: i32) -> (speed: Single)
    ensures
        speed == swim_pace(server, fallback, swim_fwd as int),
{
    let (ahead, back) = match server {
        Some(s) if !fallback.forced => (s.swim, s.swim_back),
        _ => (fallback.swim, fallback.swim_back),
    };
    if swim_fwd < 0 {
        back.least(ahead)
    } else {
        ahead
    }
}

/// What the jump key and the water make of this frame.
#[derive(Clone, Copy, Debug, PartialEq, Eq, Structural)]
pub struct Leap {
    /// The jump key leaves the water.
    pub breach: bool,
    /// The frame swims.
    pub swimming: bool,
    /// The mover is asked to jump.
    pub want_jump: bool,
    /// The swim step along the facing.
    pub swim_fwd: i32,
    /// The swim steps to the right.
    pub swim_side: i32,
    /// The mount rears instead of jumping.
    pub flourish: bool,
}

/// The leap of a frame. A swimmer's jump leaves the water at once. A mounted avatar that stands still
/// on the ground does not jump: it rears, or where it is turning does nothing.
pub open spec fn leapt(
    swimming: bool,
    rooted: bool,
    airborne: bool,
    mounted: bool,
    keys: Keys,
    steering: Steering,
) -> Leap {
    let pressed = keys.jump_down && !rooted;
    let breach = swimming && pressed;
    let swims = swimming && !breach;
    let rears = pressed && !steering.moving && !swims && !airborne && mounted;
    Leap {
        breach,
        swimming: swims,
        want_jump: pressed && !rears,
        swim_fwd: if swims && !rooted {
            sign(steering.axis as int) as i32
        } else {
            0
        },
        swim_side: if swims && !rooted {
            side_steps(keys, steering.mouselook) as i32
        } else {
            0
        },
        flourish: rears && !steering.turning,
    }
}

/// The avatar after a leap.
pub open spec fn after_leap(player: Player, leap: Leap) -> Player {
    Player { swimming: player.swimming && !leap.breach, ..player }
}

/// Decide the leap of a frame; leaving the water drops the swim latch. `swimming` is the latch as the
/// water over our feet has it.
pub fn leap(player: &mut Player, swimming: bool, mounted: bool, keys: Keys, steering: Steering) -> (r:
    Leap)
    ensures
        r == leapt(
            swimming,
            old(player).rooted,
            old(player).airborne_since is Some,
            mounted,
            keys,
            steering,
        ),
        *final(player) == after_leap(*old(player), r),
{
    let mut want_jump = keys.jump_down && !player.rooted;
    let breach = swimming && want_jump;
    if breach {
        player.swimming = false;
    }
    let swims = swimming && !breach;
    let mut swim_fwd: i32 = 0;
    let mut swim_side: i32 = 0;
    if swims && !player.rooted {
        swim_fwd = signum(steering.axis);
        swim_side = side_of(keys, steering.mouselook);
    }
    let mut flourish = false;
    if want_jump && !steering.moving && !swims && player.airborne_since.is_none() && mounted {
        want_jump = false;
        flourish = !steering.turning;
    }
    Leap { breach, swimming: swims, want_jump, swim_fwd, swim_side, flourish }
}

/// The mouse sets the swim pitch directly, within the clamp; without it the pitch is held. The stroke
/// plays at the full directional speed, or not at all without a direction.
pub open spec fn swum(
    player: Player,
    steering: Steering,
    leap: Leap,
    cam_pitch: Single,
    speed: Single,
) -> Player {
    Player {
        swim_pitch: if steering.mouselook {
            cam_pitch.clamped(
                Single::from_bits(MOUSELOOK_PITCH_CLAMP).negated(),
                Single::from_bits(MOUSELOOK_PITCH_CLAMP),
            )
        } else {
            player.swim_pitch
        },
        swim_stroke_speed: if leap.swim_fwd == 0 && leap.swim_side == 0 {
            zero()
        } else {
            speed
        },
        ..player
    }
}

/// Steer a swimmer.
pub fn steer_swim(player: &mut Player, steering: Steering, leap: Leap, cam_pitch: Single, speed: Single)
    ensures
        *final(player) == swum(*old(player), steering, leap, cam_pitch, speed),
{
    if steering.mouselook {
        let limit = Single::from_bits(MOUSELOOK_PITCH_CLAMP);
        player.swim_pitch = cam_pitch.clamp(limit.negate(), limit);
    }
    player.swim_stroke_speed = if leap.swim_fwd == 0 && leap.swim_side == 0 {
        zero()
    } else {
        speed
    };
}

/// One level of the chain from the support upwards: the entity, and its guid where it is a transport.
#[derive(Clone, Copy, Debug, PartialEq, Eq, Structural)]
pub struct Link {
    pub entity: u64,
    pub transport: Option<u64>,
}

/// The first transport in the chain, within the depth that is looked at.
pub open spec fn first_transport(chain: Seq<Link>, depth: int) -> Option<(u64, u64)>
    decreases depth,
{
    if depth <= 0 || chain.len() == 0 {
        None
    } else if chain[0].transport is Some {
        Some((chain[0].entity, chain[0].transport->0))
    } else {
        first_transport(chain.drop_first(), depth - 1)
    }
}

/// The transport that owns the support: the support itself, or one of the entities above it.
pub fn owning_transport(chain: &Vec<Link>) -> (owner: Option<(u64, u64)>)
    ensures
        owner == first_transport(chain@, PLATFORM_DEPTH as int),
{
    let mut i: usize = 0;
    assert(chain@.skip(0) == chain@);
    while i < PLATFORM_DEPTH && i < chain.len()
        invariant
            i <= PLATFORM_DEPTH,
            i <= chain.len(),
            first_transport(chain@, PLATFORM_DEPTH as int) == first_transport(
                chain@.skip(i as int),
                PLATFORM_DEPTH - i,
            ),
        decreases PLATFORM_DEPTH - i,
    {
        let link = chain[i];
        if let Some(guid) = link.transport {
            return Some((link.entity, guid));
        }
        assert(chain@.skip(i as int).drop_first() == chain@.skip(i + 1));
        i += 1;
    }
    None
}

/// In the air: not swimming, not held, and off the ground or just leaving it.
pub open spec fn in_air(swimming: bool, outcome: Outcome) -> bool {
    !swimming && !outcome.held && (!outcome.grounded || outcome.jumped)
}

/// The ride after a frame. Water ends it; ground belongs to a transport or ends it; the air keeps it,
/// so that a jump over a deck lands on it.
pub open spec fn ride_after(
    ride: Option<PlayerRide>,
    swimming: bool,
    grounded: bool,
    owner: Option<(u64, u64)>,
) -> Option<PlayerRide> {
    if swimming {
        None
    } else if grounded {
        match owner {
            Some((entity, guid)) => Some(
                PlayerRide { entity, guid, local_pos: origin(), boat_yaw: zero() },
            ),
            None => None,
        }
    } else {
        ride
    }
}

/// The avatar after it attached to a platform or left it.
pub open spec fn after_attach(
    player: Player,
    swimming: bool,
    grounded: bool,
    owner: Option<(u64, u64)>,
) -> Player {
    Player { ride: ride_after(player.ride, swimming, grounded, owner), ..player }
}

/// Attach to the platform under our feet, or leave it; `owner` is the transport that owns the support.
pub fn attach(player: &mut Player, swimming: bool, grounded: bool, owner: Option<(u64, u64)>)
    ensures
        *final(player) == after_attach(*old(player), swimming, grounded, owner),
{
    if swimming {
        player.ride = None;
    } else if grounded {
        match owner {
            Some((entity, guid)) => {
                player.ride = Some(
                    PlayerRide { entity, guid, local_pos: origin(), boat_yaw: zero() },
                );
            },
            None => {
                player.ride = None;
            },
        }
    }
}

/// The ride with the pose in the platform's frame, where there is a ride and its platform exists.
pub open spec fn ride_posed(ride: Option<PlayerRide>, local: Option<(Point, Single)>) -> Option<
    PlayerRide,
> {
    match (ride, local) {
        (Some(ride), Some((local_pos, boat_yaw))) => Some(
            PlayerRide { local_pos, boat_yaw, ..ride },
        ),
        (ride, _) => ride,
    }
}

/// The avatar after the pose on its platform was taken.
pub open spec fn after_snapshot(player: Player, local: Option<(Point, Single)>) -> Player {
    Player { ride: ride_posed(player.ride, local), ..player }
}

/// Take the pose in the platform's frame.
pub fn snapshot_ride(player: &mut Player, local: Option<(Point, Single)>)
    ensures
        *final(player) == after_snapshot(*old(player), local),
{
    if let Some(ride) = player.ride {
        if let Some((local_pos, boat_yaw)) = local {
            player.ride = Some(
                PlayerRide { entity: ride.entity, guid: ride.guid, local_pos, boat_yaw },
            );
        }
    }
}

/// The pose on the transport that the report carries, exactly where there is a ride; `reduced` is the
/// facing less the platform's yaw, reduced to a turn.
pub open spec fn tail_of(player: Player, reduced: Single) -> Option<TransportPose> {
    match player.ride {
        Some(ride) => Some(
            TransportPose { guid: ride.guid, pos: ride.local_pos, orientation: on_wire(reduced) },
        ),
        None => None,
    }
}

/// The pose on the transport that the report carries.
pub fn transport_tail(player: &Player, reduced: Single) -> (tail: Option<TransportPose>)
    ensures
        tail == tail_of(*player, reduced),
{
    match player.ride {
        Some(ride) => Some(
            TransportPose {
                guid: ride.guid,
                pos: ride.local_pos,
                orientation: wire_facing(reduced),
            },
        ),
        None => None,
    }
}

/// The fall clock that the frame reports: a launch starts a fresh arc at zero, and otherwise the
/// milliseconds of the arc in progress, if there is one.
pub open spec fn fall_clock(player: Player, jumped: bool, airborne_ms: u32) -> u32 {
    if jumped || player.airborne_since is None {
        0
    } else {
        airborne_ms
    }
}

/// The fall clock that the frame reports.
pub fn wire_fall_time(player: &Player, jumped: bool, airborne_ms: u32) -> (ms: u32)
    ensures
        ms == fall_clock(*player, jumped, airborne_ms),
{
    if jumped {
        0
    } else if player.airborne_since.is_some() {
        airborne_ms
    } else {
        0
    }
}

/// The edges of the airborne arc this frame.
#[derive(Clone, Copy, Debug, PartialEq, Eq, Structural)]
pub struct Arc {
    pub new_arc: bool,
    pub landed: bool,
    pub started_falling: bool,
}

/// The flags of a swimmer: swimming, and the directions that the swim steps have.
pub open spec fn swim_flags(swim_fwd: int, swim_side: int) -> u32 {
    SWIMMING | bits_if(swim_fwd < 0, BACKWARD) | bits_if(swim_fwd > 0, FORWARD) | bits_if(
        swim_side < 0,
        STRAFE_LEFT,
    ) | bits_if(swim_side > 0, STRAFE_RIGHT)
}

/// The flags that the keys ask for on land. The forward/back flag follows the net axis, so keys that
/// cancel out report no direction.
pub open spec fn key_flags(keys: Keys, axis: int, mouselook: bool) -> u32 {
    bits_if(axis > 0, FORWARD) | bits_if(axis < 0, BACKWARD) | bits_if(
        keys.strafe_left || (mouselook && keys.left),
        STRAFE_LEFT,
    ) | bits_if(keys.strafe_right || (mouselook && keys.right), STRAFE_RIGHT) | bits_if(
        !mouselook && keys.left,
        TURN_LEFT,
    ) | bits_if(!mouselook && keys.right, TURN_RIGHT)
}

/// The flags of a walker: what the keys ask for, and the arc; nothing at all while held.
pub open spec fn land_flags(
    keys: Keys,
    axis: int,
    mouselook: bool,
    airborne: bool,
    fall_far: bool,
    held: bool,
) -> u32 {
    if held {
        0
    } else {
        key_flags(keys, axis, mouselook) | bits_if(airborne, FALLING) | bits_if(
            airborne && fall_far,
            FALLING_FAR,
        )
    }
}

/// The flags of a frame: those of the regime, and the platform we stand on.
pub open spec fn flags_of(
    keys: Keys,
    steering: Steering,
    leap: Leap,
    outcome: Outcome,
    fall_far: bool,
    riding: bool,
) -> u32 {
    (if leap.swimming {
        swim_flags(leap.swim_fwd as int, leap.swim_side as int)
    } else {
        land_flags(
            keys,
            steering.axis as int,
            steering.mouselook,
            in_air(leap.swimming, outcome),
            fall_far,
            outcome.held,
        )
    }) | bits_if(riding && !outcome.held, ON_TRANSPORT)
}

/// What a frame reports and shows.
#[derive(Clone, Copy, Debug, PartialEq, Eq, Structural)]
pub struct Reported {
    /// The live flags.
    pub flags: u32,
    /// The flags as the body shows them: in the air the directions are those of the takeoff.
    pub pose_flags: u32,
    pub airborne: bool,
    pub landed: bool,
    pub started_falling: bool,
    /// The body renders pitched.
    pub pitched: bool,
    /// The frame began a move that breaks a cast.
    pub breaks_cast: bool,
}

/// The directions that the body shows in the air: those of the keys where an arc began or was steered
/// this frame, and those of the takeoff otherwise.
pub open spec fn airborne_dirs_after(
    player: Player,
    keys: Keys,
    steering: Steering,
    leap: Leap,
    outcome: Outcome,
    arc: Arc,
) -> u32 {
    if in_air(leap.swimming, outcome) && (arc.new_arc || outcome.air_nudged) {
        key_flags(keys, steering.axis as int, steering.mouselook) & ANY_MOVE
    } else {
        player.airborne_dirs
    }
}

/// Does the frame break a cast? A direction that was not reported yet does, a launch does, and
/// switching autorun on does; turning and switching autorun off do not.
pub open spec fn cast_breaking(flags: u32, prev: u32, jumped: bool, autorun_armed: bool) -> bool {
    any_of(flags & ANY_MOVE, !prev) || jumped || autorun_armed
}

/// What a frame reports and shows. A swimmer has no arc.
pub open spec fn reported_of(
    player: Player,
    keys: Keys,
    steering: Steering,
    leap: Leap,
    outcome: Outcome,
    arc: Arc,
) -> Reported {
    let flags = flags_of(keys, steering, leap, outcome, player.fall_far, player.ride is Some);
    let airborne = in_air(leap.swimming, outcome);
    Reported {
        flags,
        pose_flags: if airborne {
            (flags & !ANY_MOVE) | airborne_dirs_after(player, keys, steering, leap, outcome, arc)
        } else {
            flags
        },
        airborne,
        landed: !leap.swimming && arc.landed,
        started_falling: !leap.swimming && arc.started_falling,
        pitched: leap.swimming && any_of(flags, FORWARD_BACK),
        breaks_cast: cast_breaking(
            flags,
            player.move_flags,
            outcome.jumped,
            steering.autorun_armed,
        ),
    }
}

/// The avatar after a frame was reported.
pub open spec fn after_report(
    player: Player,
    keys: Keys,
    steering: Steering,
    leap: Leap,
    outcome: Outcome,
    arc: Arc,
) -> Player {
    if leap.swimming {
        Player { airborne_since: None, fall_far: false, ..player }
    } else {
        Player {
            airborne_dirs: airborne_dirs_after(player, keys, steering, leap, outcome, arc),
            ..player
        }
    }
}

fn swim_bits(swim_fwd: i32, swim_side: i32) -> (flags: u32)
    ensures
        flags == swim_flags(swim_fwd as int, swim_side as int),
{
    SWIMMING | flag_if(swim_fwd < 0, BACKWARD) | flag_if(swim_fwd > 0, FORWARD) | flag_if(
        swim_side < 0,
        STRAFE_LEFT,
    ) | flag_if(swim_side > 0, STRAFE_RIGHT)
}

fn key_bits(keys: Keys, axis: i32, mouselook: bool) -> (flags: u32)
    ensures
        flags == key_flags(keys, axis as int, mouselook),
{
    flag_if(axis > 0, FORWARD) | flag_if(axis < 0, BACKWARD) | flag_if(
        keys.strafe_left || (mouselook && keys.left),
        STRAFE_LEFT,
    ) | flag_if(keys.strafe_right || (mouselook && keys.right), STRAFE_RIGHT) | flag_if(
        !mouselook && keys.left,
        TURN_LEFT,
    ) | flag_if(!mouselook && keys.right, TURN_RIGHT)
}

fn flag_bits(player: &Player, keys: Keys, steering: Steering, leap: Leap, outcome: Outcome) -> (flags:
    u32)
    ensures
        flags == flags_of(keys, steering, leap, outcome, player.fall_far, player.ride is Some),
{
    let airborne = !leap.swimming && !outcome.held && (!outcome.grounded || outcome.jumped);
    let regime_flags: u32 = if leap.swimming {
        swim_bits(leap.swim_fwd, leap.swim_side)
    } else if outcome.held {
        0
    } else {
        key_bits(keys, steering.axis, steering.mouselook) | flag_if(airborne, FALLING) | flag_if(
            airborne && player.fall_far,
            FALLING_FAR,
        )
    };
    regime_flags | flag_if(player.ride.is_some() && !outcome.held, ON_TRANSPORT)
}

fn dirs_of(
    player: &Player,
    keys: Keys,
    steering: Steering,
    leap: Leap,
    outcome: Outcome,
    arc: Arc,
) -> (dirs: u32)
    ensures
        dirs == airborne_dirs_after(*player, keys, steering, leap, outcome, arc),
{
    let airborne = !leap.swimming && !outcome.held && (!outcome.grounded || outcome.jumped);
    if airborne && (arc.new_arc || outcome.air_nudged) {
        key_bits(keys, steering.axis, steering.mouselook) & ANY_MOVE
    } else {
        player.airborne_dirs
    }
}

fn tell_frame(
    player: &Player,
    keys: Keys,
    steering: Steering,
    leap: Leap,
    outcome: Outcome,
    arc: Arc,
) -> (r: Reported)
    ensures
        r == reported_of(*player, keys, steering, leap, outcome, arc),
{
    let airborne = !leap.swimming && !outcome.held && (!outcome.grounded || outcome.jumped);
    let flags: u32 = flag_bits(player, keys, steering, leap, outcome);
    let pose_flags: u32 = if airborne {
        (flags & !ANY_MOVE) | dirs_of(player, keys, steering, leap, outcome, arc)
    } else {
        flags
    };
    Reported {
        flags,
        pose_flags,
        airborne,
        landed: !leap.swimming && arc.landed,
        started_falling: !leap.swimming && arc.started_falling,
        pitched: leap.swimming && holds(flags, FORWARD_BACK),
        breaks_cast: holds(flags & ANY_MOVE, !player.move_flags) || outcome.jumped
            || steering.autorun_armed,
    }
}

/// Build the flags of a frame from what actually happened in it. A swimmer has no arc. `arc` holds the
/// edges of a walker's arc, and `player` its far-fall latch, both as of this frame.
#[verifier::spinoff_prover]
pub fn report_frame(
    player: &mut Player,
    keys: Keys,
    steering: Steering,
    leap: Leap,
    outcome: Outcome,
    arc: Arc,
) -> (r: Reported)
    ensures
        r == reported_of(*old(player), keys, steering, leap, outcome, arc),
        *final(player) == after_report(*old(player), keys, steering, leap, outcome, arc),
{
    let r = tell_frame(player, keys, steering, leap, outcome, arc);
    if leap.swimming {
        player.airborne_since = None;
        player.fall_far = false;
    } else {
        let dirs: u32 = dirs_of(player, keys, steering, leap, outcome, arc);
        player.airborne_dirs = dirs;
    }
    r
}

/// The flags of a walker mirror the net axis: a forward flag where the axis pulls forward, a backward
/// flag where it pulls back, never both, and neither where the keys cancel out.
pub proof fn walking_flags_mirror_the_axis(
    keys: Keys,
    axis: int,
    mouselook: bool,
    airborne: bool,
    fall_far: bool,
)
    ensures
        any_of(land_flags(keys, axis, mouselook, airborne, fall_far, false), FORWARD) <==> axis > 0,
        any_of(land_flags(keys, axis, mouselook, airborne, fall_far, false), BACKWARD) <==> axis < 0,
        any_of(land_flags(keys, axis, mouselook, airborne, fall_far, false), FALLING) <==> airborne,
{
    let f = bits_if(axis > 0, FORWARD);
    let b = bits_if(axis < 0, BACKWARD);
    let l = bits_if(keys.strafe_left || (mouselook && keys.left), STRAFE_LEFT);
    let r = bits_if(keys.strafe_right || (mouselook && keys.right), STRAFE_RIGHT);
    let tl = bits_if(!mouselook && keys.left, TURN_LEFT);
    let tr = bits_if(!mouselook && keys.right, TURN_RIGHT);
    let a = bits_if(airborne, FALLING);
    let far = bits_if(airborne && fall_far, FALLING_FAR);
    assert(((f | b | l | r | tl | tr | a | far) & FORWARD != 0 <==> f != 0) && ((f | b | l | r | tl
        | tr | a | far) & BACKWARD != 0 <==> b != 0) && ((f | b | l | r | tl | tr | a | far)
        & FALLING != 0 <==> a != 0)) by (bit_vector)
        requires
            f == 0 || f == FORWARD,
            b == 0 || b == BACKWARD,
            l == 0 || l == STRAFE_LEFT,
            r == 0 || r == STRAFE_RIGHT,
            tl == 0 || tl == TURN_LEFT,
            tr == 0 || tr == TURN_RIGHT,
            a == 0 || a == FALLING,
            far == 0 || far == FALLING_FAR,
    ;
}

/// The flags of a swimmer mirror the steps that drive it, so a swimmer that is rooted, or whose keys
/// cancel out, reports no direction.
pub proof fn swimming_flags_mirror_the_stroke(swim_fwd: int, swim_side: int)
    ensures
        any_of(swim_flags(swim_fwd, swim_side), SWIMMING),
        !any_of(swim_flags(swim_fwd, swim_side), FALLING),
        any_of(swim_flags(swim_fwd, swim_side), FORWARD) <==> swim_fwd > 0,
        any_of(swim_flags(swim_fwd, swim_side), BACKWARD) <==> swim_fwd < 0,
        any_of(swim_flags(swim_fwd, swim_side), ANY_MOVE) <==> swim_fwd != 0 || swim_side != 0,
{
    let b = bits_if(swim_fwd < 0, BACKWARD);
    let f = bits_if(swim_fwd > 0, FORWARD);
    let l = bits_if(swim_side < 0, STRAFE_LEFT);
    let r = bits_if(swim_side > 0, STRAFE_RIGHT);
    assert((SWIMMING | b | f | l | r) & SWIMMING != 0 && (SWIMMING | b | f | l | r) & FALLING == 0
        && ((SWIMMING | b | f | l | r) & FORWARD != 0 <==> f != 0) && ((SWIMMING | b | f | l | r)
        & BACKWARD != 0 <==> b != 0) && ((SWIMMING | b | f | l | r) & ANY_MOVE != 0 <==> (f != 0
        || b != 0 || l != 0 || r != 0))) by (bit_vector)
        requires
            f == 0 || f == FORWARD,
            b == 0 || b == BACKWARD,
            l == 0 || l == STRAFE_LEFT,
            r == 0 || r == STRAFE_RIGHT,
    ;
}

/// While held after a relocation a walker reports nothing at all.
pub proof fn a_held_avatar_reports_nothing(
    keys: Keys,
    steering: Steering,
    leap: Leap,
    outcome: Outcome,
    fall_far: bool,
    riding: bool,
)
    requires
        outcome.held,
        !leap.swimming,
    ensures
        flags_of(keys, steering, leap, outcome, fall_far, riding) == 0,
{
    assert(0u32 | 0u32 == 0) by (bit_vector);
}

/// A rooted mover translates neither on land nor in the water and does not leave either by a jump,
/// whatever keys are held; what the keyboard turns does not change.
pub proof fn a_rooted_mover_only_turns(player: Player, keys: Keys, buttons: Buttons, mounted: bool)
    requires
        player.rooted,
    ensures
        !steered(player, keys, buttons).moving,
        steered(player, keys, buttons).turn == steered(
            Player { rooted: false, ..player },
            keys,
            buttons,
        ).turn,
        !autorun_after(player, keys, buttons),
        forall|swimming: bool, airborne: bool|
            {
                let leap = #[trigger] leapt(
                    swimming,
                    true,
                    airborne,
                    mounted,
                    keys,
                    steered(player, keys, buttons),
                );
                !leap.want_jump && !leap.breach && leap.swim_fwd == 0 && leap.swim_side == 0
            },
{
}

/// Typing drives nothing: with the keyboard captured only the buttons, the autorun latch and a follow
/// pull on the axis, and the latch survives.
pub proof fn typing_keeps_autorun(player: Player, buttons: Buttons)
    requires
        !player.rooted,
        !player.server_riding,
        !both_held(buttons),
        !buttons.autorun_down,
    ensures
        autorun_after(player, no_keys(), buttons) == player.autorun,
        steered(player, no_keys(), buttons).axis == unit(player.autorun) + unit(
            player.follow_forward,
        ),
{
}

/// A follow holds the forward key: a frame that it holds forward in asks for exactly what the same
/// frame asks for with the key held and no follow.
pub proof fn a_follow_is_a_held_forward_key(player: Player, keys: Keys, buttons: Buttons)
    requires
        player.follow_forward,
        !keys.forward,
    ensures
        steered(player, keys, buttons) == steered(
            Player { follow_forward: false, ..player },
            Keys { forward: true, ..keys },
            buttons,
        ),
        autorun_after(player, keys, buttons) == autorun_after(
            Player { follow_forward: false, ..player },
            Keys { forward: true, ..keys },
            buttons,
        ),
{
}

/// A follow drives the avatar: with nothing else pulling on the axis, the frame after a tick of
/// following runs forward where the tick does and stands where it does not.
pub proof fn a_follow_drives_the_axis(
    state: FollowState,
    sighting: Option<Sighting>,
    player: Player,
    buttons: Buttons,
)
    requires
        !player.rooted,
        !both_held(buttons),
        !autorun_after(player, no_keys(), buttons),
    ensures
        ({
            let step = followed(state, sighting).1;
            let steering = steered(heeded(player, step), no_keys(), buttons);
            &&& step == (FollowStep::Steer { forward: true }) ==> steering.axis == 1
                && steering.along == 1 && steering.moving
            &&& step != (FollowStep::Steer { forward: true }) ==> steering.axis == 0
                && steering.along == 0
        }),
{
}

/// A stand state that was volunteered is not volunteered again while its echo is on the way, and once
/// the echo lands nothing is pending.
pub proof fn a_stand_is_volunteered_once(
    pending: Option<u8>,
    keys: Keys,
    moving: bool,
    turned: bool,
    echoed: u8,
    body: Option<Body>,
)
    requires
        !keys.sit_down,
        !keys.jump_down,
    ensures
        ({
            let first = postured(pending, keys, moving, turned, echoed, body);
            first.volunteered is Some ==> {
                &&& postured(first.volunteered, keys, moving, turned, echoed, body).volunteered is None
                &&& pending_after_echo(first.volunteered, first.volunteered->0) is None
            }
        }),
{
}

/// Boarding a transport shows on the report the frame it happens: the flag is there exactly when there
/// is a ride to describe, unless the avatar is held.
pub proof fn the_transport_flag_follows_the_ride(
    keys: Keys,
    steering: Steering,
    leap: Leap,
    outcome: Outcome,
    fall_far: bool,
    riding: bool,
)
    ensures
        any_of(flags_of(keys, steering, leap, outcome, fall_far, riding), ON_TRANSPORT) <==> riding
            && !outcome.held,
{
    let axis = steering.axis as int;
    let mouselook = steering.mouselook;
    let airborne = in_air(leap.swimming, outcome);
    let f = bits_if(axis > 0, FORWARD);
    let b = bits_if(axis < 0, BACKWARD);
    let l = bits_if(keys.strafe_left || (mouselook && keys.left), STRAFE_LEFT);
    let r = bits_if(keys.strafe_right || (mouselook && keys.right), STRAFE_RIGHT);
    let tl = bits_if(!mouselook && keys.left, TURN_LEFT);
    let tr = bits_if(!mouselook && keys.right, TURN_RIGHT);
    let a = bits_if(airborne, FALLING);
    let far = bits_if(airborne && fall_far, FALLING_FAR);
    let t = bits_if(riding && !outcome.held, ON_TRANSPORT);
    assert(((f | b | l | r | tl | tr | a | far) | t) & ON_TRANSPORT != 0 <==> t != 0) by (bit_vector)
        requires
            f == 0 || f == FORWARD,
            b == 0 || b == BACKWARD,
            l == 0 || l == STRAFE_LEFT,
            r == 0 || r == STRAFE_RIGHT,
            tl == 0 || tl == TURN_LEFT,
            tr == 0 || tr == TURN_RIGHT,
            a == 0 || a == FALLING,
            far == 0 || far == FALLING_FAR,
            t == 0 || t == ON_TRANSPORT,
    ;
    assert((0u32 | t) & ON_TRANSPORT != 0 <==> t != 0) by (bit_vector)
        requires
            t == 0 || t == ON_TRANSPORT,
    ;
    let sb = bits_if(leap.swim_fwd < 0, BACKWARD);
    let sf = bits_if(leap.swim_fwd > 0, FORWARD);
    let sl = bits_if(leap.swim_side < 0, STRAFE_LEFT);
    let sr = bits_if(leap.swim_side > 0, STRAFE_RIGHT);
    assert(((SWIMMING | sb | sf | sl | sr) | t) & ON_TRANSPORT != 0 <==> t != 0) by (bit_vector)
        requires
            sf == 0 || sf == FORWARD,
            sb == 0 || sb == BACKWARD,
            sl == 0 || sl == STRAFE_LEFT,
            sr == 0 || sr == STRAFE_RIGHT,
            t == 0 || t == ON_TRANSPORT,
    ;
}

/// A jump keeps the ride, entering the water ends it, and standing on what no transport owns ends it.
pub proof fn the_air_keeps_the_ride(ride: Option<PlayerRide>, owner: Option<(u64, u64)>)
    ensures
        ride_after(ride, false, false, owner) == ride,
        ride_after(ride, true, false, owner) is None,
        ride_after(ride, true, true, owner) is None,
        ride_after(ride, false, true, None) is None,
{
}

/// One that drives is neither unreported, nor detached, nor carried by a path of the server's; a path
/// of the server's carries one that is not detached; and all others leave the camera to fly.
pub proof fn one_of_three_moves_the_avatar(player: Player)
    ensures
        regime_of(player) == Regime::Drive <==> player.active && !player.detached
            && !player.server_riding,
        regime_of(player) == Regime::ServerRide <==> player.active && !player.detached
            && player.server_riding,
        !player.active ==> regime_of(player) == Regime::Fly,
        player.detached ==> regime_of(player) == Regime::Fly,
{
}

/// The detach key goes back and forth between the avatar and free flight, and no other key does.
pub proof fn the_detach_key_goes_back_and_forth(player: Player, keys: Keys)
    ensures
        keys.detach_down ==> after_toggle(player, keys).detached == !player.detached,
        keys.detach_down ==> after_toggle(after_toggle(player, keys), keys) == player,
        !keys.detach_down ==> after_toggle(player, keys) == player,
{
}

/// A rider goes where its platform takes it: feet, aim, body and camera. The ride itself goes on with
/// the platform's new yaw, and ends where the platform is gone; one that rides nothing stays.
pub proof fn a_rider_goes_with_its_platform(mover: Mover, ride: PlayerRide, c: Carried)
    ensures
        ({
            let riding = Mover { player: Player { ride: Some(ride), ..mover.player }, ..mover };
            let after = after_carry(riding, Some(c));
            let left = after_carry(riding, None);
            &&& after.player.pos == c.pos
            &&& after.player.face == c.face
            &&& after.player.model_yaw == c.model_yaw
            &&& after.camera.yaw == c.cam_yaw
            &&& after.camera.pitch == mover.camera.pitch
            &&& after.current_map == mover.current_map
            &&& after.player.ride matches Some(r) && r.entity == ride.entity && r.guid == ride.guid
                && r.local_pos == ride.local_pos && r.boat_yaw == c.boat_yaw
            &&& after.player.vel_y == mover.player.vel_y
            &&& after.player.horiz_vel == mover.player.horiz_vel
            &&& left.player == (Player { ride: None, ..mover.player })
            &&& left.camera == mover.camera
        }),
        mover.player.ride is None ==> after_carry(mover, Some(c)) == mover && after_carry(
            mover,
            None,
        ) == mover,
{
}

/// Each source pulls one way and by as much: the forward key, both buttons, autorun and a follow pull
/// forward, and the back key pulls back. The step follows the pull, and a rooted mover takes none.
pub proof fn each_source_pulls_its_own_way(player: Player, keys: Keys, buttons: Buttons)
    ensures
        ({
            let s = steered(player, keys, buttons);
            let autorun = autorun_after(player, keys, buttons);
            let ahead = (if keys.forward { 1int } else { 0 }) + (if buttons.left && buttons.right {
                1int
            } else { 0 }) + (if autorun { 1int } else { 0 }) + (if player.follow_forward {
                1int
            } else { 0 });
            let back = if keys.back { 1int } else { 0 };
            &&& s.axis == ahead - back
            &&& !player.rooted && ahead > back ==> s.along == 1
            &&& !player.rooted && ahead < back ==> s.along == -1
            &&& ahead == back ==> s.along == 0
            &&& player.rooted ==> s.along == 0 && s.side == 0 && !s.moving
            &&& s.moving <==> s.along != 0 || s.side != 0
        }),
{
}

/// The strafe keys step to their own sides, and with the mouse steering so do the turn keys, which
/// turn nothing then; without it they turn, left to the left, and step nowhere.
pub proof fn the_side_keys_go_to_their_sides(player: Player, keys: Keys, buttons: Buttons)
    ensures
        ({
            let s = steered(player, keys, buttons);
            let right = (if keys.strafe_right { 1int } else { 0 }) + (if s.mouselook && keys.right {
                1int
            } else { 0 });
            let left = (if keys.strafe_left { 1int } else { 0 }) + (if s.mouselook && keys.left {
                1int
            } else { 0 });
            &&& s.mouselook <==> (buttons.left && buttons.right) || buttons.look_right
            &&& !player.rooted ==> s.side == right - left
            &&& s.turning <==> !s.mouselook && (keys.left || keys.right)
            &&& !s.mouselook && keys.left && !keys.right ==> s.turn == 1
            &&& !s.mouselook && keys.right && !keys.left ==> s.turn == -1
            &&& s.mouselook || keys.left == keys.right ==> s.turn == 0
            &&& s.translating <==> s.turning && (s.axis != 0 || keys.strafe_left
                || keys.strafe_right)
        }),
{
}

/// The autorun button switches autorun, which otherwise stays as it is; the press of a travel key or
/// of the second button, a root and a ride of the server's end it.
pub proof fn autorun_lasts_until_it_is_ended(player: Player, keys: Keys, buttons: Buttons)
    ensures
        ({
            let on = autorun_after(player, keys, buttons);
            let ended = keys.forward_down || keys.back_down || player.rooted || player.server_riding
                || (buttons.left && buttons.right && (buttons.left_down || buttons.right_down));
            &&& ended ==> !on
            &&& !ended && buttons.autorun_down ==> on == !player.autorun
            &&& !ended && !buttons.autorun_down ==> on == player.autorun
            &&& steered(player, keys, buttons).autorun_armed <==> buttons.autorun_down
                && !player.autorun
        }),
{
}

/// The sit key sits a standing avatar down and stands any other up; without it, to move, to turn or to
/// jump stands one up; and nothing is asked of an avatar that stands still. What is volunteered shows at
/// once; otherwise what is pending shows, and what the server echoed where nothing is.
pub proof fn sitting_and_standing_up(
    pending: Option<u8>,
    keys: Keys,
    moving: bool,
    turned: bool,
    echoed: u8,
    body: Option<Body>,
)
    ensures
        ({
            let p = postured(pending, keys, moving, turned, echoed, body);
            let shown = if pending is Some && pending->0 != echoed {
                pending->0
            } else {
                echoed
            };
            let stirs = moving || turned || keys.jump_down;
            &&& keys.sit_down && shown == 0 ==> p.volunteered == Some(1u8) && p.stand_now == 1
            &&& keys.sit_down && shown != 0 ==> p.volunteered == Some(0u8) && p.stand_now == 0
            &&& !keys.sit_down && stirs && shown != 0 ==> p.volunteered == Some(0u8) && p.stand_now
                == 0
            &&& !keys.sit_down && (!stirs || shown == 0) ==> p.volunteered is None && p.stand_now
                == shown
        }),
{
}

/// Sitting down stows drawn weapons with a snap. The sheath key draws what is stowed and stows what is
/// drawn, played out; it does so only for a standing, living body with its model, neither mounted nor
/// engaged nor in the middle of it already.
pub proof fn weapons_are_drawn_and_stowed(
    pending: Option<u8>,
    keys: Keys,
    moving: bool,
    turned: bool,
    echoed: u8,
    body: Body,
)
    ensures
        ({
            let p = postured(pending, keys, moving, turned, echoed, Some(body));
            let bare = postured(pending, keys, moving, turned, echoed, None);
            let able = body.modelled && !body.dead && !body.mounted && !body.engaged
                && !body.ceremony && p.stand_now == 0;
            &&& p.volunteered == Some(1u8) && body.drawn ==> p.stow == Some(
                SheathRequest { state: 0, ceremony: false },
            )
            &&& p.volunteered is None || p.volunteered == Some(0u8) || !body.drawn ==> p.stow is None
            &&& keys.sheath_down && able && body.drawn ==> p.toggle == Some(
                SheathRequest { state: 0, ceremony: true },
            )
            &&& keys.sheath_down && able && !body.drawn ==> p.toggle == Some(
                SheathRequest { state: 1, ceremony: true },
            )
            &&& !keys.sheath_down || !able ==> p.toggle is None
            &&& bare.stow is None && bare.toggle is None
        }),
{
}

/// Ahead and sideways the avatar goes at the forward speed; back it goes at the backward speed, and
/// never faster than ahead. The speeds are the server's where it gave any and they are not overridden,
/// and the configured ones otherwise.
pub proof fn speeds_come_from_the_server(
    speeds: MoveSpeeds,
    fallback: Fallback,
    axis: int,
)
    ensures
        ({
            let own = Fallback { forced: false, ..fallback };
            let forced = Fallback { forced: true, ..fallback };
            &&& axis >= 0 ==> run_pace(Some(speeds), own, axis) == speeds.run
            &&& axis >= 0 ==> swim_pace(Some(speeds), own, axis) == speeds.swim
            &&& axis >= 0 ==> run_pace(Some(speeds), forced, axis) == fallback.run
            &&& axis >= 0 ==> swim_pace(Some(speeds), forced, axis) == fallback.swim
            &&& axis < 0 && speeds.run_back.at_most(speeds.run) ==> run_pace(
                Some(speeds),
                own,
                axis,
            ) == speeds.run_back
            &&& axis < 0 && speeds.run.below(speeds.run_back) ==> run_pace(Some(speeds), own, axis)
                == speeds.run
            &&& axis < 0 && speeds.swim_back.at_most(speeds.swim) ==> swim_pace(
                Some(speeds),
                own,
                axis,
            ) == speeds.swim_back
            &&& axis < 0 && speeds.swim.below(speeds.swim_back) ==> swim_pace(
                Some(speeds),
                own,
                axis,
            ) == speeds.swim
            &&& axis < 0 && fallback.run_back.at_most(fallback.run) ==> run_pace(None, own, axis)
                == fallback.run_back
            &&& axis < 0 && fallback.swim_back.at_most(fallback.swim) ==> swim_pace(None, own, axis)
                == fallback.swim_back
            &&& run_pace(None, own, axis) == run_pace(Some(speeds), forced, axis)
            &&& swim_pace(None, own, axis) == swim_pace(Some(speeds), forced, axis)
        }),
{
}

/// The jump key jumps on land and leaves the water in it; a rooted mover does neither. Mounted, at a
/// stand on the ground, the mount rears in place of it, and where it turns does nothing.
pub proof fn the_jump_key_jumps_leaves_the_water_or_rears(
    swimming: bool,
    rooted: bool,
    airborne: bool,
    mounted: bool,
    keys: Keys,
    steering: Steering,
)
    ensures
        ({
            let leap = leapt(swimming, rooted, airborne, mounted, keys, steering);
            let pressed = keys.jump_down && !rooted;
            let still = mounted && !steering.moving && !airborne;
            &&& !pressed ==> !leap.want_jump && !leap.breach && !leap.flourish && leap.swimming
                == swimming
            &&& pressed && swimming ==> leap.breach && !leap.swimming
            &&& !swimming ==> !leap.breach && !leap.swimming
            &&& pressed && !still ==> leap.want_jump && !leap.flourish
            &&& pressed && still ==> !leap.want_jump && leap.flourish == !steering.turning
        }),
{
}

/// A swimmer's stroke goes the way the axes pull, unless it is rooted or leaves the water.
pub proof fn a_stroke_goes_the_way_of_the_keys(
    airborne: bool,
    mounted: bool,
    keys: Keys,
    steering: Steering,
)
    requires
        !keys.jump_down,
    ensures
        ({
            let leap = leapt(true, false, airborne, mounted, keys, steering);
            let rooted = leapt(true, true, airborne, mounted, keys, steering);
            let right = (if keys.strafe_right { 1int } else { 0 }) + (if steering.mouselook
                && keys.right { 1int } else { 0 });
            let left = (if keys.strafe_left { 1int } else { 0 }) + (if steering.mouselook
                && keys.left { 1int } else { 0 });
            &&& steering.axis > 0 ==> leap.swim_fwd == 1
            &&& steering.axis < 0 ==> leap.swim_fwd == -1
            &&& steering.axis == 0 ==> leap.swim_fwd == 0
            &&& leap.swim_side == right - left
            &&& rooted.swim_fwd == 0 && rooted.swim_side == 0
        }),
{
}

/// With the mouse steering a swimmer's pitch is the camera's, kept within the steepest; without it the
/// pitch stays. The stroke plays at its speed while there is one, and rests otherwise.
pub proof fn the_mouse_pitches_a_swimmer(
    player: Player,
    steering: Steering,
    leap: Leap,
    cam_pitch: Single,
    speed: Single,
)
    ensures
        ({
            let after = swum(player, steering, leap, cam_pitch, speed);
            let steepest = Single::from_bits(MOUSELOOK_PITCH_CLAMP);
            &&& !steering.mouselook ==> after.swim_pitch == player.swim_pitch
            &&& steering.mouselook && cam_pitch.absolute().at_most(steepest) ==> after.swim_pitch
                == cam_pitch
            &&& steering.mouselook && steepest.below(cam_pitch) ==> after.swim_pitch == steepest
            &&& steering.mouselook && cam_pitch.below(steepest.negated()) ==> after.swim_pitch
                == steepest.negated()
            &&& leap.swim_fwd != 0 || leap.swim_side != 0 ==> after.swim_stroke_speed == speed
            &&& leap.swim_fwd == 0 && leap.swim_side == 0 ==> after.swim_stroke_speed == zero()
            &&& after == (Player {
                swim_pitch: after.swim_pitch,
                swim_stroke_speed: after.swim_stroke_speed,
                ..player
            })
        }),
{
}

/// The transport that owns a support is the nearest one from it upwards, and it is looked for on the
/// support and the three levels above it.
pub proof fn the_nearest_transport_owns_the_support(chain: Seq<Link>, depth: int)
    requires
        0 <= depth,
    ensures
        first_transport(chain, depth) matches Some((entity, guid)) ==> exists|i: int|
            0 <= i < chain.len() && i < depth && (#[trigger] chain[i]).entity == entity
                && chain[i].transport == Some(guid) && (forall|j: int|
                0 <= j < i ==> (#[trigger] chain[j]).transport is None),
        first_transport(chain, depth) is None ==> forall|i: int|
            0 <= i < chain.len() && i < depth ==> (#[trigger] chain[i]).transport is None,
        PLATFORM_DEPTH == 4,
    decreases depth,
{
    if depth > 0 && chain.len() > 0 && chain[0].transport is None {
        let rest = chain.drop_first();
        the_nearest_transport_owns_the_support(rest, depth - 1);
        if let Some((entity, guid)) = first_transport(chain, depth) {
            let i = choose|i: int|
                0 <= i < rest.len() && i < depth - 1 && (#[trigger] rest[i]).entity == entity
                    && rest[i].transport == Some(guid) && (forall|j: int|
                    0 <= j < i ==> (#[trigger] rest[j]).transport is None);
            assert(chain[i + 1] == rest[i]);
            assert forall|j: int| 0 <= j < i + 1 implies (#[trigger] chain[j]).transport is None by {
                if j > 0 {
                    assert(rest[j - 1] == chain[j]);
                }
            }
        } else {
            assert forall|i: int| 0 <= i < chain.len() && i < depth implies (
            #[trigger] chain[i]).transport is None by {
                if i > 0 {
                    assert(rest[i - 1] == chain[i]);
                }
            }
        }
    }
}

/// To stand on what a transport owns is to ride that transport; its pose is then taken as the platform
/// has it, and the report tells the transport, where on it we stand and the way we face.
pub proof fn standing_on_a_transport_is_riding_it(
    player: Player,
    ride: Option<PlayerRide>,
    entity: u64,
    guid: u64,
    local_pos: Point,
    boat_yaw: Single,
    reduced: Single,
)
    ensures
        ({
            let boarded = ride_after(ride, false, true, Some((entity, guid)));
            let posed = ride_posed(boarded, Some((local_pos, boat_yaw)));
            let tail = tail_of(Player { ride: posed, ..player }, reduced);
            &&& boarded is Some && ride_posed(boarded, None) == boarded
            &&& posed == Some(PlayerRide { entity, guid, local_pos, boat_yaw })
            &&& tail matches Some(t) && t.guid == guid && t.pos == local_pos && (within_turn(reduced)
                ==> t.orientation == reduced)
            &&& tail_of(Player { ride: None, ..player }, reduced) is None
            &&& ride_posed(None, Some((local_pos, boat_yaw))) is None
        }),
{
}

/// The fall clock runs while an arc does: it is its milliseconds in the air, nothing on the ground, and
/// nothing at the launch of a fresh arc.
pub proof fn the_fall_clock_runs_with_the_arc(player: Player, airborne_ms: u32)
    ensures
        fall_clock(player, true, airborne_ms) == 0,
        player.airborne_since is Some ==> fall_clock(player, false, airborne_ms) == airborne_ms,
        player.airborne_since is None ==> fall_clock(player, false, airborne_ms) == 0,
{
}

/// The side flags of a walker mirror the keys: a strafe key strafes, and so does a turn key with the
/// mouse steering; without it the turn key turns. A far fall shows only in the air.
pub proof fn walking_flags_mirror_the_side_keys(
    keys: Keys,
    axis: int,
    mouselook: bool,
    airborne: bool,
    fall_far: bool,
)
    ensures
        ({
            let flags = land_flags(keys, axis, mouselook, airborne, fall_far, false);
            &&& any_of(flags, STRAFE_LEFT) <==> keys.strafe_left || (mouselook && keys.left)
            &&& any_of(flags, STRAFE_RIGHT) <==> keys.strafe_right || (mouselook && keys.right)
            &&& any_of(flags, TURN_LEFT) <==> !mouselook && keys.left
            &&& any_of(flags, TURN_RIGHT) <==> !mouselook && keys.right
            &&& any_of(flags, FALLING_FAR) <==> airborne && fall_far
            &&& !any_of(flags, SWIMMING)
        }),
{
    let f = bits_if(axis > 0, FORWARD);
    let b = bits_if(axis < 0, BACKWARD);
    let l = bits_if(keys.strafe_left || (mouselook && keys.left), STRAFE_LEFT);
    let r = bits_if(keys.strafe_right || (mouselook && keys.right), STRAFE_RIGHT);
    let tl = bits_if(!mouselook && keys.left, TURN_LEFT);
    let tr = bits_if(!mouselook && keys.right, TURN_RIGHT);
    let a = bits_if(airborne, FALLING);
    let far = bits_if(airborne && fall_far, FALLING_FAR);
    assert(((f | b | l | r | tl | tr | a | far) & 0x4 != 0 <==> l != 0) && ((f | b | l | r | tl | tr
        | a | far) & 0x8 != 0 <==> r != 0) && ((f | b | l | r | tl | tr | a | far) & 0x10 != 0 <==> tl
        != 0) && ((f | b | l | r | tl | tr | a | far) & 0x20 != 0 <==> tr != 0) && ((f | b | l | r
        | tl | tr | a | far) & 0x4000 != 0 <==> far != 0) && (f | b | l | r | tl | tr | a | far)
        & 0x20_0000 == 0) by (bit_vector)
        requires
            f == 0 || f == 0x1,
            b == 0 || b == 0x2,
            l == 0 || l == 0x4,
            r == 0 || r == 0x8,
            tl == 0 || tl == 0x10,
            tr == 0 || tr == 0x20,
            a == 0 || a == 0x2000,
            far == 0 || far == 0x4000,
    ;
}

/// The strafe flags of a swimmer mirror the side of its stroke.
pub proof fn swimming_flags_mirror_the_side(swim_fwd: int, swim_side: int)
    ensures
        any_of(swim_flags(swim_fwd, swim_side), STRAFE_LEFT) <==> swim_side < 0,
        any_of(swim_flags(swim_fwd, swim_side), STRAFE_RIGHT) <==> swim_side > 0,
{
    let b = bits_if(swim_fwd < 0, BACKWARD);
    let f = bits_if(swim_fwd > 0, FORWARD);
    let l = bits_if(swim_side < 0, STRAFE_LEFT);
    let r = bits_if(swim_side > 0, STRAFE_RIGHT);
    assert(((0x20_0000u32 | b | f | l | r) & 0x4 != 0 <==> l != 0) && ((0x20_0000u32 | b | f | l | r)
        & 0x8 != 0 <==> r != 0)) by (bit_vector)
        requires
            f == 0 || f == 0x1,
            b == 0 || b == 0x2,
            l == 0 || l == 0x4,
            r == 0 || r == 0x8,
    ;
}

/// What a frame reports is what happened in it: a swimmer's flags are those of its stroke, and a
/// walker's those of its keys and its arc. An arc is in the air unless it is held; its edges are told
/// unless the frame swims; and a swimmer is shown pitched while it strokes along its facing.
pub proof fn a_report_tells_what_happened(
    player: Player,
    keys: Keys,
    steering: Steering,
    leap: Leap,
    outcome: Outcome,
    arc: Arc,
)
    requires
        player.ride is None,
    ensures
        ({
            let r = reported_of(player, keys, steering, leap, outcome, arc);
            let off = !outcome.grounded || outcome.jumped;
            &&& leap.swimming ==> r.flags == swim_flags(leap.swim_fwd as int, leap.swim_side as int)
                && !r.airborne && !r.landed && !r.started_falling && r.pose_flags == r.flags
            &&& leap.swimming ==> (r.pitched <==> leap.swim_fwd != 0)
            &&& !leap.swimming && !outcome.held ==> {
                &&& r.flags == land_flags(
                    keys,
                    steering.axis as int,
                    steering.mouselook,
                    off,
                    player.fall_far,
                    false,
                )
                &&& r.airborne == off
            }
            &&& !leap.swimming && outcome.held ==> r.flags == 0 && !r.airborne
            &&& !leap.swimming ==> r.landed == arc.landed && r.started_falling
                == arc.started_falling && !r.pitched
        }),
{
    let s = swim_flags(leap.swim_fwd as int, leap.swim_side as int);
    let w = land_flags(
        keys,
        steering.axis as int,
        steering.mouselook,
        in_air(leap.swimming, outcome),
        player.fall_far,
        outcome.held,
    );
    assert(s | 0 == s) by (bit_vector);
    assert(w | 0 == w) by (bit_vector);
    swimming_flags_mirror_the_stroke(leap.swim_fwd as int, leap.swim_side as int);
    assert(s & 0x3 != 0 <==> s & 0x1 != 0 || s & 0x2 != 0) by (bit_vector);
}

/// In the air the body shows the directions that the arc took off with, or was steered to, whatever
/// the keys do since; everything else of the flags it shows as they are. On the ground and in the water
/// it shows the flags themselves.
pub proof fn an_arc_shows_its_takeoff(
    player: Player,
    keys: Keys,
    steering: Steering,
    leap: Leap,
    outcome: Outcome,
    arc: Arc,
)
    requires
        player.airborne_dirs & !ANY_MOVE == 0,
    ensures
        ({
            let r = reported_of(player, keys, steering, leap, outcome, arc);
            let after = after_report(player, keys, steering, leap, outcome, arc);
            let fresh = arc.new_arc || outcome.air_nudged;
            &&& !r.airborne ==> r.pose_flags == r.flags && after.airborne_dirs
                == player.airborne_dirs
            &&& r.airborne && !fresh ==> r.pose_flags & ANY_MOVE == player.airborne_dirs
                && after.airborne_dirs == player.airborne_dirs
            &&& r.airborne && fresh ==> r.pose_flags == r.flags && after.airborne_dirs == r.flags
                & ANY_MOVE
            &&& r.pose_flags & !ANY_MOVE == r.flags & !ANY_MOVE
            &&& leap.swimming ==> after.airborne_since is None && !after.fall_far
            &&& !leap.swimming ==> after.airborne_since == player.airborne_since && after.fall_far
                == player.fall_far
            &&& after == (Player {
                airborne_since: after.airborne_since,
                fall_far: after.fall_far,
                airborne_dirs: after.airborne_dirs,
                ..player
            })
        }),
{
    let r = reported_of(player, keys, steering, leap, outcome, arc);
    let dirs = player.airborne_dirs;
    let flags = r.flags;
    let k = key_flags(keys, steering.axis as int, steering.mouselook);
    let air = bits_if(true, FALLING);
    let far = bits_if(player.fall_far, FALLING_FAR);
    let t = bits_if(player.ride is Some && !outcome.held, ON_TRANSPORT);
    assert(((flags & !0xf) | dirs) & 0xf == dirs && ((flags & !0xf) | dirs) & !0xf == flags & !0xf)
        by (bit_vector)
        requires
            dirs & !0xf == 0,
    ;
    if r.airborne {
        assert(flags == ((k | air | far) | t));
        assert((((k | air | far) | t) & !0xf) | (k & 0xf) == ((k | air | far) | t) && ((k | air
            | far) | t) & 0xf == k & 0xf) by (bit_vector)
            requires
                air == 0x2000,
                far == 0 || far == 0x4000,
                t == 0 || t == 0x200_0000,
        ;
    }
}

/// A cast breaks in the frame that begins to move: where a direction is reported that was not last
/// reported, at a launch, and when autorun is switched on. It does not break while the same directions
/// are held, nor by letting go of them.
pub proof fn to_begin_a_move_breaks_a_cast(flags: u32, prev: u32, direction: u32)
    requires
        direction == FORWARD || direction == BACKWARD || direction == STRAFE_LEFT || direction
            == STRAFE_RIGHT,
    ensures
        cast_breaking(flags, prev, true, false),
        cast_breaking(flags, prev, false, true),
        any_of(flags, direction) && !any_of(prev, direction) ==> cast_breaking(
            flags,
            prev,
            false,
            false,
        ),
        !cast_breaking(flags, flags, false, false),
        !any_of(flags, ANY_MOVE) ==> !cast_breaking(flags, prev, false, false),
{
    assert((flags & direction != 0 && prev & direction == 0 ==> (flags & 0xf) & !prev != 0) && (flags
        & 0xf) & !flags == 0 && (flags & 0xf == 0 ==> (flags & 0xf) & !prev == 0)) by (bit_vector)
        requires
            direction == 0x1 || direction == 0x2 || direction == 0x4 || direction == 0x8,
    ;
}

/// What the decisions of a frame leave on the avatar: reading the input leaves the autorun latch, the
/// posture the stand state that waits for its echo, a leap out of the water drops the swim latch, and
/// the platform under the feet is the ride. Each leaves everything else alone.
pub proof fn decisions_leave_their_own_latch(
    player: Player,
    keys: Keys,
    buttons: Buttons,
    posture: Posture,
    echoed: u8,
    leap: Leap,
    owner: (u64, u64),
    local: (Point, Single),
)
    ensures
        after_steer(player, keys, buttons) == (Player {
            autorun: after_steer(player, keys, buttons).autorun,
            ..player
        }),
        after_steer(player, keys, buttons).autorun == autorun_after(player, keys, buttons),
        posture.volunteered is Some ==> after_posture(player, posture, echoed) == (Player {
            stand_pending: posture.volunteered,
            ..player
        }),
        posture.volunteered is None && player.stand_pending == Some(echoed) ==> after_posture(
            player,
            posture,
            echoed,
        ) == (Player { stand_pending: None, ..player }),
        posture.volunteered is None && player.stand_pending != Some(echoed) ==> after_posture(
            player,
            posture,
            echoed,
        ) == player,
        leap.breach ==> after_leap(player, leap) == (Player { swimming: false, ..player }),
        !leap.breach ==> after_leap(player, leap) == player,
        after_attach(player, false, true, Some(owner)).ride matches Some(r) && r.entity == owner.0
            && r.guid == owner.1,
        after_attach(player, true, true, Some(owner)) == (Player { ride: None, ..player }),
        after_attach(player, false, true, None) == (Player { ride: None, ..player }),
        after_attach(player, false, false, Some(owner)) == player,
        after_attach(player, false, true, Some(owner)) == (Player {
            ride: after_attach(player, false, true, Some(owner)).ride,
            ..player
        }),
        player.ride matches Some(ride) ==> after_snapshot(player, Some(local)) == (Player {
            ride: Some(PlayerRide { local_pos: local.0, boat_yaw: local.1, ..ride }),
            ..player
        }),
        after_snapshot(player, None) == player,
{
}

/// The avatar is moving while it goes along or aside, and not while it only turns.
pub proof fn to_move_is_to_go_along_or_aside(player: Player, keys: Keys, buttons: Buttons)
    ensures
        ({
            let s = steered(player, keys, buttons);
            &&& s.along != 0 ==> s.moving
            &&& s.side != 0 ==> s.moving
            &&& s.along == 0 && s.side == 0 ==> !s.moving
        }),
{
}

/// A report carries the flags of the frame, with those of the ride while there is one, and breaks a cast
/// by what was reported before it.
pub proof fn a_report_goes_by_the_ride(
    player: Player,
    keys: Keys,
    steering: Steering,
    leap: Leap,
    outcome: Outcome,
    arc: Arc,
)
    ensures
        ({
            let r = reported_of(player, keys, steering, leap, outcome, arc);
            let riding = flags_of(keys, steering, leap, outcome, player.fall_far, true);
            let afoot = flags_of(keys, steering, leap, outcome, player.fall_far, false);
            &&& player.ride is Some ==> r.flags == riding
            &&& player.ride is None ==> r.flags == afoot
            &&& outcome.jumped || steering.autorun_armed ==> r.breaks_cast
            &&& !outcome.jumped && !steering.autorun_armed ==> (r.breaks_cast <==> r.flags & ANY_MOVE
                & !player.move_flags != 0)
        }),
{
}

/// The mouse pitches a swimmer no further than the steepest.
pub proof fn the_steepest_pitch(
    player: Player,
    steering: Steering,
    leap: Leap,
    cam_pitch: Single,
    speed: Single,
)
    requires
        steering.mouselook,
        !cam_pitch.nan(),
    ensures
        swum(player, steering, leap, cam_pitch, speed).swim_pitch.rank() <= 0x3fc6_d3f2,
        swum(player, steering, leap, cam_pitch, speed).swim_pitch.rank() >= -0x3fc6_d3f2,
        cam_pitch.rank() >= 0x3fc6_d3f2 ==> swum(
            player,
            steering,
            leap,
            cam_pitch,
            speed,
        ).swim_pitch.rank() == 0x3fc6_d3f2,
{
}

} // verus!
