//! One step of the walking mover. The sweeps against the world happen outside; what each of them
//! decides is here: whether we stand, whether a settle or a wedged rest ends, whether a jump takes
//! off, which surface rides and which clips as a wall, whether a step up commits, and whether the
//! ground below is a step or the start of a fall.
use vstd::prelude::*;

use crate::player::state::Player;
use crate::single::{origin, zero, Point, Single};

verus! {

/// 0.642788, the cosine of fifty degrees: a surface is walkable where its normal's height is at least
/// this.
pub const GROUND_COS: u32 = 0x3f24_8dc1;

/// 0.2: how far below the feet a walker looks for ground.
pub const GROUND_PROBE: u32 = 0x3e4c_cccd;

/// 0.05: how far below the feet one in the air looks for it.
pub const LAND_PROBE: u32 = 0x3d4c_cccd;

/// 7.955547: the takeoff speed of a jump.
pub const JUMP_SPEED: u32 = 0x40fe_93d7;

/// 0.01: the squared horizontal speed below which a jump counts as one from a standstill.
pub const STANDSTILL: u32 = 0x3c23_d70a;

/// 1.0: the fall speed above which stalled frames count.
pub const WEDGE_MIN_FALL: u32 = 0x3f80_0000;

/// The stalled frames in a row that are a rest.
pub const WEDGE_STILL_FRAMES: u8 = 3;

/// 0.001: the least headroom that a step up needs.
pub const LEAST_HEADROOM: u32 = 0x3a83_126f;

/// 0.05: the height that a step up has to gain.
pub const LEAST_GAIN: u32 = 0x3d4c_cccd;

/// What a sweep found: the surface, the height of its normal, and how far away it is.
#[derive(Clone, Copy, Debug, PartialEq, Eq, Structural)]
pub struct Probe {
    pub entity: u64,
    pub normal_y: Single,
    pub distance: Single,
}

/// A surface is walkable within fifty degrees of level.
pub open spec fn walkable(normal_y: Single) -> bool {
    Single::from_bits(GROUND_COS).at_most(normal_y)
}

/// A sweep found walkable ground.
pub open spec fn found_ground(probe: Option<Probe>) -> bool {
    probe is Some && walkable((probe->0).normal_y)
}

fn is_ground(probe: &Option<Probe>) -> (r: bool)
    ensures
        r == found_ground(*probe),
{
    match probe {
        Some(p) => Single::from_bits(GROUND_COS).is_at_most(p.normal_y),
        None => false,
    }
}

/// How far below the feet ground is looked for: in the air, only where the fall itself makes contact.
pub open spec fn reach_of(player: Player) -> Single {
    if player.airborne_since is Some {
        Single::from_bits(LAND_PROBE)
    } else {
        Single::from_bits(GROUND_PROBE)
    }
}

/// How far below the feet ground is looked for.
pub fn ground_reach(player: &Player) -> (reach: Single)
    ensures
        reach == reach_of(*player),
{
    if player.airborne_since.is_some() {
        Single::from_bits(LAND_PROBE)
    } else {
        Single::from_bits(GROUND_PROBE)
    }
}

/// What the step starts from.
#[derive(Clone, Copy, Debug, PartialEq, Eq, Structural)]
pub struct Footing {
    /// The ground within [`ground_reach`].
    pub below: Option<Probe>,
    /// The ground within reach of a settle.
    pub settle: Option<Probe>,
    /// Anything at all within [`LAND_PROBE`].
    pub support: bool,
    /// Now, in seconds.
    pub now: Single,
    /// The vertical velocity after this frame's gravity, at most terminal.
    pub fallen: Single,
    /// The squared horizontal speed.
    pub horizontal: Single,
}

/// What the input asks of the step.
#[derive(Clone, Copy, Debug, PartialEq, Eq, Structural)]
pub struct Wish {
    pub moving: bool,
    pub jump: bool,
    /// The velocity the input asks for on the ground.
    pub walk: Point,
    /// The velocity a standing jump is steered to.
    pub nudge: Point,
}

/// How the step moves.
#[derive(Clone, Copy, Debug, PartialEq, Eq, Structural)]
pub enum Motion {
    /// Frozen.
    Still,
    /// Along the ground, with no gravity in it.
    Walk,
    /// Horizontal and vertical velocity together.
    Ballistic,
}

/// The stance that a step starts in.
#[derive(Clone, Copy, Debug, PartialEq, Eq, Structural)]
pub struct Stance {
    pub held: bool,
    /// The ground below is walkable.
    pub on_walkable: bool,
    pub grounded: bool,
    pub jumped: bool,
    pub air_nudged: bool,
    /// A step up is worth trying.
    pub may_climb: bool,
    pub motion: Motion,
    /// What we stand on.
    pub ground: Option<u64>,
}

/// Settling ends where there is walkable ground within its reach, or at its deadline.
pub open spec fn settling_after(player: Player, footing: Footing) -> bool {
    player.settling && !found_ground(footing.settle) && !player.settle_deadline.at_most(footing.now)
}

/// On walkable ground, not rising, and not held.
pub open spec fn on_floor(player: Player, footing: Footing) -> bool {
    !settling_after(player, footing) && found_ground(footing.below) && player.vel_y.at_most(zero())
}

/// A wedged rest lasts until ground takes over, the avatar is held, or nothing supports it any more.
pub open spec fn wedged_after(player: Player, footing: Footing) -> bool {
    player.wedged && !on_floor(player, footing) && !settling_after(player, footing)
        && footing.support
}

/// Standing on ground, or resting wedged.
pub open spec fn stands(player: Player, footing: Footing) -> bool {
    on_floor(player, footing) || wedged_after(player, footing)
}

/// Does the step take off?
pub open spec fn takes_off(player: Player, footing: Footing, wish: Wish) -> bool {
    stands(player, footing) && wish.jump
}

/// Is a jump from a standstill steered in the air?
pub open spec fn is_nudged(player: Player, footing: Footing, wish: Wish) -> bool {
    !stands(player, footing) && !settling_after(player, footing) && wish.moving
        && footing.horizontal.below(Single::from_bits(STANDSTILL))
}

/// The stance of a step.
pub open spec fn stance_of(player: Player, footing: Footing, wish: Wish) -> Stance {
    let held = settling_after(player, footing);
    let grounded = stands(player, footing);
    let jumped = takes_off(player, footing, wish);
    Stance {
        held,
        on_walkable: found_ground(footing.below),
        grounded,
        jumped,
        air_nudged: is_nudged(player, footing, wish),
        may_climb: wish.moving && grounded && !jumped,
        motion: if held {
            Motion::Still
        } else if grounded && !jumped {
            Motion::Walk
        } else {
            Motion::Ballistic
        },
        ground: if found_ground(footing.below) {
            Some((footing.below->0).entity)
        } else {
            None
        },
    }
}

/// The avatar once a step has its stance. Held, it has no velocity; standing, no vertical one unless
/// it takes off; in the air, gravity has pulled on it. On the ground the horizontal velocity is the
/// input's; in the air it keeps the takeoff's, but for the one steer of a standing jump.
pub open spec fn stood(player: Player, footing: Footing, wish: Wish) -> Player {
    let held = settling_after(player, footing);
    let grounded = stands(player, footing);
    let jumped = takes_off(player, footing, wish);
    Player {
        settling: held,
        wedged: wedged_after(player, footing) && !jumped,
        vel_y: if held {
            zero()
        } else if jumped {
            Single::from_bits(JUMP_SPEED)
        } else if grounded {
            zero()
        } else {
            footing.fallen
        },
        horiz_vel: if held {
            origin()
        } else if grounded {
            wish.walk
        } else if is_nudged(player, footing, wish) {
            wish.nudge
        } else {
            player.horiz_vel
        },
        ..player
    }
}

/// Take the stance of a step.
pub fn take_stance(player: &mut Player, footing: Footing, wish: Wish) -> (stance: Stance)
    ensures
        stance == stance_of(*old(player), footing, wish),
        *final(player) == stood(*old(player), footing, wish),
{
    let on_walkable = is_ground(&footing.below);
    let held = player.settling && !is_ground(&footing.settle) && !player.settle_deadline.is_at_most(
        footing.now,
    );
    let floor = !held && on_walkable && player.vel_y.is_at_most(zero());
    let wedged = player.wedged && !floor && !held && footing.support;
    let grounded = floor || wedged;
    let jumped = grounded && wish.jump;
    let air_nudged = !grounded && !held && wish.moving && footing.horizontal.is_below(
        Single::from_bits(STANDSTILL),
    );
    player.settling = held;
    player.wedged = wedged && !jumped;
    player.vel_y = if held {
        zero()
    } else if jumped {
        Single::from_bits(JUMP_SPEED)
    } else if grounded {
        zero()
    } else {
        footing.fallen
    };
    player.horiz_vel = if held {
        origin()
    } else if grounded {
        wish.walk
    } else if air_nudged {
        wish.nudge
    } else {
        player.horiz_vel
    };
    let ground = match footing.below {
        Some(p) if on_walkable => Some(p.entity),
        _ => None,
    };
    Stance {
        held,
        on_walkable,
        grounded,
        jumped,
        air_nudged,
        may_climb: wish.moving && grounded && !jumped,
        motion: if held {
            Motion::Still
        } else if grounded && !jumped {
            Motion::Walk
        } else {
            Motion::Ballistic
        },
        ground,
    }
}

/// Does a contact ride: a walkable plane that opposes the motion? Then the horizontal velocity is kept
/// and the vertical follows the plane. `into` is the velocity along the plane's normal.
pub open spec fn rides(normal_y: Single, into: Single) -> bool {
    !normal_y.below(Single::from_bits(GROUND_COS)) && !zero().at_most(into)
}

/// Does a contact ride?
pub fn walkable_ride(normal_y: Single, into: Single) -> (r: bool)
    ensures
        r == rides(normal_y, into),
{
    !normal_y.is_below(Single::from_bits(GROUND_COS)) && !zero().is_at_most(into)
}

/// Does a contact clip as a vertical wall: a steep plane, not overhanging, that opposes the motion and
/// would lift the mover? `lift` is the vertical velocity that clipping against the plane itself leaves.
pub open spec fn walls(normal_y: Single, into: Single, lift: Single) -> bool {
    zero().at_most(normal_y) && normal_y.below(Single::from_bits(GROUND_COS)) && !zero().at_most(
        into,
    ) && !lift.at_most(zero())
}

/// Does a contact clip as a vertical wall?
pub fn steep_wall(normal_y: Single, into: Single, lift: Single) -> (r: bool)
    ensures
        r == walls(normal_y, into, lift),
{
    zero().is_at_most(normal_y) && normal_y.is_below(Single::from_bits(GROUND_COS))
        && !zero().is_at_most(into) && !lift.is_at_most(zero())
}

/// What a contact of the slide does.
#[derive(Clone, Copy, Debug, PartialEq, Eq, Structural)]
pub enum Contact {
    /// Keep the horizontal velocity and follow the plane.
    Ride,
    /// Clip against the plane's vertical wall.
    Wall,
    /// Clip against the plane.
    Plane,
}

/// What a contact of the slide does; only a walk rides.
pub open spec fn contact_of(stance: Stance, normal_y: Single, into: Single, lift: Single) -> Contact {
    if stance.grounded && !stance.jumped && rides(normal_y, into) {
        Contact::Ride
    } else if walls(normal_y, into, lift) {
        Contact::Wall
    } else {
        Contact::Plane
    }
}

/// What a contact of the slide does.
pub fn contact(stance: &Stance, normal_y: Single, into: Single, lift: Single) -> (c: Contact)
    ensures
        c == contact_of(*stance, normal_y, into, lift),
{
    if stance.grounded && !stance.jumped && walkable_ride(normal_y, into) {
        Contact::Ride
    } else if steep_wall(normal_y, into, lift) {
        Contact::Wall
    } else {
        Contact::Plane
    }
}

/// A face ahead within the frame's travel: the height of its normal, and the normal along the motion.
#[derive(Clone, Copy, Debug, PartialEq, Eq, Structural)]
pub struct Face {
    pub normal_y: Single,
    pub along: Single,
}

/// Does a face call for a step up: steep, not overhanging, and opposing the motion?
pub open spec fn blocks(face: Face) -> bool {
    !walkable(face.normal_y) && !face.normal_y.below(zero()) && !zero().at_most(face.along)
}

/// Does what lies ahead call for a step up?
pub open spec fn is_blocked(ahead: Option<Face>) -> bool {
    ahead is Some && blocks(ahead->0)
}

/// Does what lies ahead call for a step up?
pub fn calls_for_step(ahead: Option<Face>) -> (r: bool)
    ensures
        r == is_blocked(ahead),
{
    match ahead {
        Some(face) => !Single::from_bits(GROUND_COS).is_at_most(face.normal_y)
            && !face.normal_y.is_below(zero()) && !zero().is_at_most(face.along),
        None => false,
    }
}

/// Is there room to rise?
pub open spec fn headroom(rise: Single) -> bool {
    !rise.below(Single::from_bits(LEAST_HEADROOM))
}

/// Is there room to rise?
pub fn has_headroom(rise: Single) -> (r: bool)
    ensures
        r == headroom(rise),
{
    !rise.is_below(Single::from_bits(LEAST_HEADROOM))
}

/// How a step up ended.
#[derive(Clone, Copy, Debug, PartialEq, Eq, Structural)]
pub enum Verdict {
    /// No floor below the advanced point.
    NoFloor,
    /// Only a steep one.
    SteepFloor,
    /// A floor no higher than the one we left.
    NetZero,
    /// On a walkable, higher floor.
    Commit,
}

/// How a step up ended, from what it came down on and the height it gained. Only a commit moves the
/// avatar; everything else is left to the slide.
pub open spec fn verdict_of(down: Option<Probe>, gain: Single) -> Verdict {
    if down is None {
        Verdict::NoFloor
    } else if (down->0).normal_y.below(Single::from_bits(GROUND_COS)) {
        Verdict::SteepFloor
    } else if gain.at_most(Single::from_bits(LEAST_GAIN)) {
        Verdict::NetZero
    } else {
        Verdict::Commit
    }
}

/// How a step up ended.
pub fn step_up_verdict(down: Option<Probe>, gain: Single) -> (v: Verdict)
    ensures
        v == verdict_of(down, gain),
{
    match down {
        None => Verdict::NoFloor,
        Some(p) => if p.normal_y.is_below(Single::from_bits(GROUND_COS)) {
            Verdict::SteepFloor
        } else if gain.is_at_most(Single::from_bits(LEAST_GAIN)) {
            Verdict::NetZero
        } else {
            Verdict::Commit
        },
    }
}

/// Does the step look for ground to come down onto: a walk that was not itself a step up?
pub open spec fn looks_down(stance: Stance, stepped: bool) -> bool {
    stance.grounded && !stance.jumped && !stepped
}

/// Does the step look for ground to come down onto?
pub fn snaps(stance: &Stance, stepped: bool) -> (r: bool)
    ensures
        r == looks_down(*stance, stepped),
{
    stance.grounded && !stance.jumped && !stepped
}

/// The ground that a walk comes down onto, if what lies below is walkable. A steeper or a deeper floor
/// is no step: the next frame finds no ground and falls.
pub open spec fn snapped_onto(below: Option<Probe>) -> Option<Probe> {
    if found_ground(below) {
        below
    } else {
        None
    }
}

/// The ground that a walk comes down onto.
pub fn snap_onto(below: Option<Probe>) -> (ground: Option<Probe>)
    ensures
        ground == snapped_onto(below),
{
    if is_ground(&below) {
        below
    } else {
        None
    }
}

/// What a step did with the vertical.
#[derive(Clone, Copy, Debug, PartialEq, Eq, Structural)]
pub struct Descent {
    /// The descent achieved.
    pub achieved: Single,
    /// The share of the intended descent below which the fall counts as stalled.
    pub stall: Single,
}

/// A stalled frame: falling fast, and yet hardly descending.
pub open spec fn stalled(vel_y: Single, stance: Stance, descent: Descent) -> bool {
    !stance.held && !stance.grounded && !stance.jumped && vel_y.below(
        Single::from_bits(WEDGE_MIN_FALL).negated(),
    ) && descent.achieved.below(descent.stall)
}

/// The count of stalled frames in a row after one more frame; a full count is a rest and starts over.
pub open spec fn still_after(still: int, stalls: bool) -> int {
    if stalls && still + 1 < WEDGE_STILL_FRAMES {
        still + 1
    } else {
        0
    }
}

/// Does this frame complete the count?
pub open spec fn comes_to_rest(still: int, stalls: bool) -> bool {
    stalls && still + 1 >= WEDGE_STILL_FRAMES
}

/// What the step decided.
#[derive(Clone, Copy, Debug, PartialEq, Eq, Structural)]
pub struct Outcome {
    /// Frozen in place while the ground loads.
    pub held: bool,
    pub grounded: bool,
    pub jumped: bool,
    /// A standing jump was steered in the air.
    pub air_nudged: bool,
    /// The walkable floor that supports us.
    pub ground: Option<u64>,
}

/// The avatar after a step.
pub open spec fn stepped_on(player: Player, stance: Stance, descent: Descent, feet: Point) -> Player {
    let stalls = stalled(player.vel_y, stance, descent);
    let rests = comes_to_rest(player.wedge_still as int, stalls);
    Player {
        wedge_still: still_after(player.wedge_still as int, stalls) as u8,
        wedged: player.wedged || rests,
        vel_y: if rests {
            zero()
        } else {
            player.vel_y
        },
        pos: feet,
        ..player
    }
}

/// The outcome of a step, given the floor it came down onto. The frame that detects a wedged rest
/// reports standing at once.
pub open spec fn outcome_of(
    player: Player,
    stance: Stance,
    snapped: Option<u64>,
    descent: Descent,
) -> Outcome {
    let grounded = stance.grounded || player.wedged || comes_to_rest(
        player.wedge_still as int,
        stalled(player.vel_y, stance, descent),
    );
    Outcome {
        held: stance.held,
        grounded,
        jumped: stance.jumped,
        air_nudged: stance.air_nudged,
        ground: if grounded && !stance.held {
            if snapped is Some {
                snapped
            } else {
                stance.ground
            }
        } else {
            None
        },
    }
}

fn does_stall(vel_y: Single, stance: &Stance, descent: Descent) -> (stalls: bool)
    ensures
        stalls == stalled(vel_y, *stance, descent),
{
    !stance.held && !stance.grounded && !stance.jumped && vel_y.is_below(
        Single::from_bits(WEDGE_MIN_FALL).negate(),
    ) && descent.achieved.is_below(descent.stall)
}

/// Finish a step: count the stalled frames, rest where there are enough of them, and take the new
/// position.
pub fn finish_step(
    player: &mut Player,
    stance: &Stance,
    snapped: Option<u64>,
    descent: Descent,
    feet: Point,
) -> (outcome: Outcome)
    requires
        old(player).wedge_still < u8::MAX,
    ensures
        outcome == outcome_of(*old(player), *stance, snapped, descent),
        *final(player) == stepped_on(*old(player), *stance, descent, feet),
        final(player).wedge_still < WEDGE_STILL_FRAMES,
{
    if does_stall(player.vel_y, stance, descent) {
        player.wedge_still = player.wedge_still + 1;
        if player.wedge_still >= WEDGE_STILL_FRAMES {
            player.wedged = true;
            player.wedge_still = 0;
            player.vel_y = zero();
        }
    } else {
        player.wedge_still = 0;
    }
    let grounded = stance.grounded || player.wedged;
    player.pos = feet;
    Outcome {
        held: stance.held,
        grounded,
        jumped: stance.jumped,
        air_nudged: stance.air_nudged,
        ground: if grounded && !stance.held {
            match snapped {
                Some(entity) => Some(entity),
                None => stance.ground,
            }
        } else {
            None
        },
    }
}

/// Is a frame worth a line in the movement trace: standing changed, or it was airborne, moved or
/// snapped by more than five hundredths, or climbed?
pub open spec fn notable(
    was_grounded: bool,
    grounded: bool,
    rise: Single,
    snapped: Option<Single>,
    climbed: bool,
) -> bool {
    grounded != was_grounded || !grounded || Single::from_bits(LEAST_GAIN).below(rise.absolute())
        || (snapped is Some && Single::from_bits(LEAST_GAIN).below(snapped->0)) || climbed
}

/// Is a frame worth a line in the movement trace?
pub fn is_notable(
    was_grounded: bool,
    grounded: bool,
    rise: Single,
    snapped: Option<Single>,
    climbed: bool,
) -> (r: bool)
    ensures
        r == notable(was_grounded, grounded, rise, snapped, climbed),
{
    let least = Single::from_bits(LEAST_GAIN);
    let dropped = match snapped {
        Some(distance) => least.is_below(distance),
        None => false,
    };
    grounded != was_grounded || !grounded || least.is_below(rise.abs()) || dropped || climbed
}

/// A held avatar is frozen: it does not stand, jump or drift.
pub proof fn a_held_avatar_is_frozen(player: Player, footing: Footing, wish: Wish)
    requires
        settling_after(player, footing),
    ensures
        !stance_of(player, footing, wish).grounded,
        !stance_of(player, footing, wish).jumped,
        !stance_of(player, footing, wish).air_nudged,
        stance_of(player, footing, wish).motion == Motion::Still,
        stood(player, footing, wish).vel_y == zero(),
        stood(player, footing, wish).horiz_vel == origin(),
{
}

/// Once the deadline has passed the avatar is not held any more, ground or no ground.
pub proof fn settling_gives_up(player: Player, footing: Footing)
    requires
        player.settle_deadline.at_most(footing.now),
    ensures
        !settling_after(player, footing),
{
}

/// Only one who stands takes off, and a rising avatar does not stand on the ground it left, so a jump
/// is not grounded again while it rises.
pub proof fn a_jump_leaves_the_ground(player: Player, footing: Footing, next: Footing, wish: Wish)
    requires
        takes_off(player, footing, wish),
    ensures
        stance_of(player, footing, wish).grounded,
        !stood(player, footing, wish).wedged,
        !stands(stood(player, footing, wish), next),
{
}

/// Momentum is locked in the air: without a standstill the horizontal velocity of the takeoff stays.
pub proof fn momentum_is_locked_in_the_air(player: Player, footing: Footing, wish: Wish)
    requires
        !stands(player, footing),
        !settling_after(player, footing),
        Single::from_bits(STANDSTILL).at_most(footing.horizontal),
    ensures
        stood(player, footing, wish).horiz_vel == player.horiz_vel,
        !stance_of(player, footing, wish).air_nudged,
{
}

/// No contact both rides and clips as a wall, and walkable ground is never a wall.
pub proof fn rides_and_walls_exclude_each_other(normal_y: Single, into: Single, lift: Single)
    ensures
        !(rides(normal_y, into) && walls(normal_y, into, lift)),
        walkable(normal_y) ==> !walls(normal_y, into, lift),
        normal_y.below(zero()) ==> !walls(normal_y, into, lift) && !rides(normal_y, into),
{
}

/// A rest takes three stalled frames in a row: from a count of nothing no two frames come to rest,
/// three stalled ones do, and one that is not stalled starts the count over.
pub proof fn a_rest_takes_three_stalled_frames(still: int, first: bool, second: bool, third: bool)
    requires
        0 <= still < WEDGE_STILL_FRAMES,
    ensures
        still_after(still, false) == 0,
        !comes_to_rest(0, first),
        !comes_to_rest(still_after(0, first), second),
        comes_to_rest(still_after(still_after(0, first), second), third) <==> first && second
            && third,
        0 <= still_after(still, first) < WEDGE_STILL_FRAMES,
{
}

/// An avatar that settles is held until walkable ground is within reach of the settle or its time is
/// up, and no other avatar is ever held.
pub proof fn a_settle_ends_with_ground_or_with_time(player: Player, footing: Footing, wish: Wish)
    ensures
        stood(player, footing, wish).settling == stance_of(player, footing, wish).held,
        !player.settling ==> !stance_of(player, footing, wish).held,
        player.settle_deadline.at_most(footing.now) ==> !stance_of(player, footing, wish).held,
        (footing.settle matches Some(ground) && Single::from_bits(GROUND_COS).at_most(
            ground.normal_y,
        )) ==> !stance_of(player, footing, wish).held,
        player.settling && !player.settle_deadline.at_most(footing.now) && (
        footing.settle is None || !Single::from_bits(GROUND_COS).at_most(
            footing.settle->0.normal_y,
        )) ==> {
            &&& stance_of(player, footing, wish).held
            &&& stance_of(player, footing, wish).motion == Motion::Still
            &&& stood(player, footing, wish).horiz_vel == origin()
            &&& stood(player, footing, wish).vel_y == zero()
            &&& !stood(player, footing, wish).wedged
        },
{
}

/// One on a walkable floor, neither held nor rising, goes exactly as the input asks: it walks with the
/// velocity that is asked for, and where a jump is asked for it takes off with it at the jump's speed.
pub proof fn one_on_a_floor_goes_as_asked(player: Player, footing: Footing, wish: Wish, floor: Probe)
    requires
        footing.below == Some(floor),
        Single::from_bits(GROUND_COS).at_most(floor.normal_y),
        player.vel_y.at_most(zero()),
        !player.settling || player.settle_deadline.at_most(footing.now) || (
        footing.settle matches Some(ground) && Single::from_bits(GROUND_COS).at_most(
            ground.normal_y,
        )),
    ensures
        ({
            let stance = stance_of(player, footing, wish);
            let after = stood(player, footing, wish);
            &&& after.horiz_vel == wish.walk
            &&& after.vel_y == (if wish.jump {
                Single::from_bits(JUMP_SPEED)
            } else {
                zero()
            })
            &&& !after.wedged
            &&& !after.settling
            &&& stance.grounded && stance.on_walkable && !stance.held && !stance.air_nudged
            &&& stance.ground == Some(floor.entity)
            &&& stance.jumped == wish.jump
            &&& stance.may_climb == (wish.moving && !wish.jump)
            &&& stance.motion == (if wish.jump {
                Motion::Ballistic
            } else {
                Motion::Walk
            })
        }),
{
}

/// One that rests wedged, with something to support it and no floor that would take over, stands too:
/// it goes as the input asks, and only a jump ends the rest.
pub proof fn one_that_rests_wedged_goes_as_asked(player: Player, footing: Footing, wish: Wish)
    requires
        player.wedged,
        footing.support,
        !player.settling || player.settle_deadline.at_most(footing.now) || (
        footing.settle matches Some(ground) && Single::from_bits(GROUND_COS).at_most(
            ground.normal_y,
        )),
        footing.below is None || !Single::from_bits(GROUND_COS).at_most(footing.below->0.normal_y)
            || !player.vel_y.at_most(zero()),
    ensures
        ({
            let stance = stance_of(player, footing, wish);
            let after = stood(player, footing, wish);
            &&& stance.grounded
            &&& stance.jumped == wish.jump
            &&& after.horiz_vel == wish.walk
            &&& after.vel_y == (if wish.jump {
                Single::from_bits(JUMP_SPEED)
            } else {
                zero()
            })
            &&& after.wedged == !wish.jump
        }),
{
}

/// One that nothing holds or bears falls: it does not jump, its vertical velocity is what gravity left
/// of it, and its horizontal velocity is the takeoff's, but that one at a standstill is steered.
pub proof fn one_that_nothing_bears_falls(player: Player, footing: Footing, wish: Wish)
    requires
        !player.settling || player.settle_deadline.at_most(footing.now) || (
        footing.settle matches Some(ground) && Single::from_bits(GROUND_COS).at_most(
            ground.normal_y,
        )),
        footing.below is None || !Single::from_bits(GROUND_COS).at_most(footing.below->0.normal_y)
            || !player.vel_y.at_most(zero()),
        !player.wedged || !footing.support,
    ensures
        ({
            let stance = stance_of(player, footing, wish);
            let after = stood(player, footing, wish);
            &&& !stance.grounded && !stance.jumped && !stance.held && !stance.may_climb
            &&& stance.motion == Motion::Ballistic
            &&& after.vel_y == footing.fallen
            &&& !after.wedged
            &&& wish.moving && footing.horizontal.below(Single::from_bits(STANDSTILL))
                ==> stance.air_nudged && after.horiz_vel == wish.nudge
            &&& !wish.moving || !footing.horizontal.below(Single::from_bits(STANDSTILL))
                ==> !stance.air_nudged && after.horiz_vel == player.horiz_vel
        }),
{
}

/// What the avatar stands on is what lies walkable below it, and nothing else.
pub proof fn the_ground_is_what_lies_walkable_below(player: Player, footing: Footing, wish: Wish)
    ensures
        stance_of(player, footing, wish).ground matches Some(entity) ==> footing.below matches Some(
            p,
        ) && p.entity == entity && Single::from_bits(GROUND_COS).at_most(p.normal_y),
        stance_of(player, footing, wish).ground is None ==> footing.below is None
            || !Single::from_bits(GROUND_COS).at_most(footing.below->0.normal_y),
        stance_of(player, footing, wish).on_walkable == (stance_of(
            player,
            footing,
            wish,
        ).ground is Some),
{
}

/// Taking a stance changes the velocities and the two latches, and moves or turns nothing.
pub proof fn a_stance_moves_nothing(player: Player, footing: Footing, wish: Wish)
    ensures
        ({
            let after = stood(player, footing, wish);
            after == (Player {
                settling: after.settling,
                wedged: after.wedged,
                vel_y: after.vel_y,
                horiz_vel: after.horiz_vel,
                ..player
            })
        }),
{
}

/// One in the air looks for ground only as near as a landing, and any other as far as a step down.
pub proof fn a_fall_reaches_less_far_for_ground(player: Player)
    ensures
        player.airborne_since is Some ==> reach_of(player) == Single::from_bits(LAND_PROBE),
        player.airborne_since is None ==> reach_of(player) == Single::from_bits(GROUND_PROBE),
        Single::from_bits(LAND_PROBE).below(Single::from_bits(GROUND_PROBE)),
{
}

/// A walk keeps its speed up a walkable slope that it meets; in the air or at a launch nothing rides;
/// a steep face that would lift the mover is met as a wall; and what the mover moves away from, or
/// what overhangs it, or what would not lift it, is neither.
pub proof fn slopes_ride_and_steep_faces_stop(
    stance: Stance,
    normal_y: Single,
    into: Single,
    lift: Single,
)
    ensures
        ({
            let c = contact_of(stance, normal_y, into, lift);
            let meets = into.below(zero());
            let walks = stance.grounded && !stance.jumped;
            &&& walks && meets && Single::from_bits(GROUND_COS).at_most(normal_y) ==> c
                == Contact::Ride
            &&& !walks ==> c != Contact::Ride
            &&& normal_y.below(Single::from_bits(GROUND_COS)) ==> c != Contact::Ride
            &&& meets && zero().at_most(normal_y) && normal_y.below(Single::from_bits(GROUND_COS))
                && zero().below(lift) ==> c == Contact::Wall
            &&& zero().at_most(into) ==> c == Contact::Plane
            &&& normal_y.below(zero()) ==> c == Contact::Plane
            &&& lift.at_most(zero()) ==> c != Contact::Wall
            &&& Single::from_bits(GROUND_COS).at_most(normal_y) ==> c != Contact::Wall
        }),
{
}

/// Only a steep face, not overhanging, that stands against the motion calls for a step up.
pub proof fn only_a_steep_face_ahead_calls_for_a_step(face: Face)
    ensures
        !is_blocked(None),
        face.normal_y.below(Single::from_bits(GROUND_COS)) && zero().at_most(face.normal_y)
            && face.along.below(zero()) ==> is_blocked(Some(face)),
        Single::from_bits(GROUND_COS).at_most(face.normal_y) ==> !is_blocked(Some(face)),
        face.normal_y.below(zero()) ==> !is_blocked(Some(face)),
        zero().at_most(face.along) ==> !is_blocked(Some(face)),
{
}

/// A step up needs a thousandth of room over the head.
pub proof fn a_step_up_needs_room(rise: Single)
    requires
        !rise.nan(),
    ensures
        headroom(rise) == Single::from_bits(LEAST_HEADROOM).at_most(rise),
{
}

/// A step up is committed exactly onto a walkable floor that is higher than the one it left, and a
/// failure says what was wrong: no floor, a steep one, or nothing gained.
pub proof fn a_step_up_gains_a_walkable_floor(floor: Probe, gain: Single)
    requires
        !floor.normal_y.nan(),
        !gain.nan(),
    ensures
        verdict_of(None, gain) == Verdict::NoFloor,
        verdict_of(Some(floor), gain) == Verdict::Commit <==> Single::from_bits(GROUND_COS).at_most(
            floor.normal_y,
        ) && Single::from_bits(LEAST_GAIN).below(gain),
        verdict_of(Some(floor), gain) == Verdict::SteepFloor <==> floor.normal_y.below(
            Single::from_bits(GROUND_COS),
        ),
        verdict_of(Some(floor), gain) != Verdict::NoFloor,
{
}

/// A walk comes down onto what is walkable below it, unless it has just stepped up; a launch and a
/// fall do not, and nothing comes down onto a steep floor.
pub proof fn a_walk_keeps_to_the_floor(stance: Stance, stepped: bool, below: Option<Probe>)
    ensures
        looks_down(stance, stepped) ==> stance.grounded && !stance.jumped && !stepped,
        stance.grounded && !stance.jumped && !stepped ==> looks_down(stance, stepped),
        snapped_onto(below) is Some ==> snapped_onto(below) == below && Single::from_bits(
            GROUND_COS,
        ).at_most(below->0.normal_y),
        below is Some && Single::from_bits(GROUND_COS).at_most(below->0.normal_y) ==> snapped_onto(
            below,
        ) == below,
{
}

/// A fall stalls where it is fast and yet hardly descends; one that is held, stands or has just
/// launched never stalls, and neither does a slow fall or one that goes down as it should.
pub proof fn only_a_stuck_fall_stalls(vel_y: Single, stance: Stance, descent: Descent)
    ensures
        stance.held || stance.grounded || stance.jumped ==> !stalled(vel_y, stance, descent),
        Single::from_bits(WEDGE_MIN_FALL).negated().at_most(vel_y) ==> !stalled(
            vel_y,
            stance,
            descent,
        ),
        descent.stall.at_most(descent.achieved) ==> !stalled(vel_y, stance, descent),
        !stance.held && !stance.grounded && !stance.jumped && vel_y.below(
            Single::from_bits(WEDGE_MIN_FALL).negated(),
        ) && descent.achieved.below(descent.stall) ==> stalled(vel_y, stance, descent),
{
}

/// The end of a step puts the avatar where the step took it. Its fall goes on unless it came to rest;
/// a rest stops the fall, starts the count over and stands at once; and nothing else changes.
pub proof fn a_step_ends_where_it_went(
    player: Player,
    stance: Stance,
    snapped: Option<u64>,
    descent: Descent,
    feet: Point,
)
    requires
        player.wedge_still < WEDGE_STILL_FRAMES,
    ensures
        ({
            let after = stepped_on(player, stance, descent, feet);
            let outcome = outcome_of(player, stance, snapped, descent);
            let stalls = stalled(player.vel_y, stance, descent);
            &&& after.pos == feet
            &&& after.horiz_vel == player.horiz_vel
            &&& !stalls ==> after.wedge_still == 0 && after.wedged == player.wedged && after.vel_y
                == player.vel_y
            &&& stalls && player.wedge_still < 2 ==> after.wedge_still == player.wedge_still + 1
                && after.wedged == player.wedged && after.vel_y == player.vel_y
            &&& stalls && player.wedge_still == 2 ==> after.wedge_still == 0 && after.wedged
                && after.vel_y == zero() && outcome.grounded
            &&& after == (Player {
                pos: after.pos,
                vel_y: after.vel_y,
                wedged: after.wedged,
                wedge_still: after.wedge_still,
                ..player
            })
        }),
{
}

/// The outcome of a step says what the stance was, that one stands who did so or rests wedged, and
/// the floor it stands on: the one it came down onto, or else the one it started from; and no floor
/// for one that is held or in the air.
pub proof fn an_outcome_names_the_floor(
    player: Player,
    stance: Stance,
    snapped: Option<u64>,
    descent: Descent,
)
    ensures
        ({
            let outcome = outcome_of(player, stance, snapped, descent);
            &&& outcome.held == stance.held
            &&& outcome.jumped == stance.jumped
            &&& outcome.air_nudged == stance.air_nudged
            &&& stance.grounded || player.wedged ==> outcome.grounded
            &&& outcome.grounded && !stance.grounded && !player.wedged ==> stalled(
                player.vel_y,
                stance,
                descent,
            )
            &&& outcome.held || !outcome.grounded ==> outcome.ground is None
            &&& !outcome.held && outcome.grounded && snapped is Some ==> outcome.ground == snapped
            &&& !outcome.held && outcome.grounded && snapped is None ==> outcome.ground
                == stance.ground
        }),
{
}

/// A frame that stands as before, neither climbed nor moved up or down by more than five hundredths,
/// is not worth tracing; every other frame is.
pub proof fn a_steady_walk_is_not_worth_tracing(
    was_grounded: bool,
    grounded: bool,
    rise: Single,
    snapped: Option<Single>,
    climbed: bool,
)
    ensures
        climbed || !grounded || !was_grounded ==> notable(
            was_grounded,
            grounded,
            rise,
            snapped,
            climbed,
        ),
        Single::from_bits(LEAST_GAIN).below(rise.absolute()) ==> notable(
            was_grounded,
            grounded,
            rise,
            snapped,
            climbed,
        ),
        was_grounded && grounded && !climbed && rise.absolute().at_most(
            Single::from_bits(LEAST_GAIN),
        ) && snapped is None ==> !notable(was_grounded, grounded, rise, snapped, climbed),
        was_grounded && grounded && !climbed && rise.absolute().at_most(
            Single::from_bits(LEAST_GAIN),
        ) && snapped is Some ==> notable(was_grounded, grounded, rise, snapped, climbed)
            == Single::from_bits(LEAST_GAIN).below(snapped->0),
{
}

/// The measures that the ground is taken by: how steep a floor may be, how far it is looked for, how much
/// room a step needs and how much it has to gain, and how slow a fall is that stands.
pub proof fn the_measures_of_the_ground(x: Single, frames: int)
    requires
        !x.nan(),
    ensures
        Single::from_bits(GROUND_COS).at_most(x) <==> 0x3f24_8dc1 <= x.rank(),
        Single::from_bits(GROUND_PROBE).at_most(x) <==> 0x3e4c_cccd <= x.rank(),
        Single::from_bits(LAND_PROBE).at_most(x) <==> 0x3d4c_cccd <= x.rank(),
        Single::from_bits(JUMP_SPEED).at_most(x) <==> 0x40fe_93d7 <= x.rank(),
        Single::from_bits(STANDSTILL).at_most(x) <==> 0x3c23_d70a <= x.rank(),
        Single::from_bits(WEDGE_MIN_FALL).at_most(x) <==> 0x3f80_0000 <= x.rank(),
        Single::from_bits(LEAST_HEADROOM).at_most(x) <==> 0x3a83_126f <= x.rank(),
        Single::from_bits(LEAST_GAIN).at_most(x) <==> 0x3d4c_cccd <= x.rank(),
        frames >= WEDGE_STILL_FRAMES <==> frames >= 3,
{
}

} // verus!
