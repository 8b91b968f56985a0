//! Swim mode: when the water takes the avatar and when it lets go, and what the leap out of it and
//! a stroke leave behind.
use vstd::prelude::*;

use crate::player::mover::{found_ground, Outcome, Probe, GROUND_COS};
use crate::player::state::Player;
use crate::single::{zero, Point, Single};

verus! {

/// 4.722222: the swim speed until the server gives one.
pub const SWIM_SPEED: u32 = 0x4097_1c71;

/// 2.5: the backward swim speed until the server gives one.
pub const SWIM_BACK_SPEED: u32 = 0x4020_0000;

/// 9.096748: the takeoff speed of a jump out of the water.
pub const SWIM_JUMP_SPEED: u32 = 0x4111_8c48;

/// Three quarters of the avatar's height: water deeper than this over the feet starts a swim.
pub const SWIM_ENTER_DEPTH: u32 = 0x3fc2_aaaa;

/// A thirty-sixth of a yard less: water shallower than this ends one.
pub const SWIM_EXIT_DEPTH: u32 = 0x3fbf_1c71;

/// A launch that still rises, and has not yet lost half its speed, is not taken by the water.
pub open spec fn hop_blocked(player: Player, airborne_for: Single, half_decay: Single) -> bool {
    zero().below(player.vel_y) && player.airborne_since is Some && airborne_for.below(half_decay)
}

/// Does the avatar swim, with this much water over its feet? A swimmer stays one down to the leave
/// depth; a walker becomes one only past the enter depth, and not on a fresh hop.
pub open spec fn swims(
    player: Player,
    depth: Option<Single>,
    airborne_for: Single,
    half_decay: Single,
) -> bool {
    match depth {
        None => false,
        Some(d) => if player.swimming {
            Single::from_bits(SWIM_EXIT_DEPTH).at_most(d)
        } else {
            Single::from_bits(SWIM_ENTER_DEPTH).below(d) && !hop_blocked(
                player,
                airborne_for,
                half_decay,
            )
        },
    }
}

/// The avatar once the water over its feet was looked at.
pub open spec fn after_water(player: Player, swimming: bool) -> Player {
    Player { swimming, settling: player.settling && !swimming, ..player }
}

/// Update the swim latch from the water over the feet; `None` is no liquid at all. `airborne_for` is
/// the age of the current arc, and `half_decay` the age at which its launch has lost half its speed.
/// Water that takes the avatar is also the support that a settle was waiting for.
pub fn update_swimming(
    player: &mut Player,
    depth: Option<Single>,
    airborne_for: Single,
    half_decay: Single,
) -> (swimming: bool)
    ensures
        swimming == swims(*old(player), depth, airborne_for, half_decay),
        *final(player) == after_water(*old(player), swimming),
{
    match depth {
        None => {
            player.swimming = false;
            false
        },
        Some(d) => {
            player.swimming = if player.swimming {
                Single::from_bits(SWIM_EXIT_DEPTH).is_at_most(d)
            } else {
                let blocked = zero().is_below(player.vel_y) && player.airborne_since.is_some()
                    && airborne_for.is_below(half_decay);
                Single::from_bits(SWIM_ENTER_DEPTH).is_below(d) && !blocked
            };
            if player.swimming {
                player.settling = false;
            }
            player.swimming
        },
    }
}

/// The avatar as it leaves the water.
pub open spec fn breached(player: Player) -> Player {
    Player { vel_y: Single::from_bits(SWIM_JUMP_SPEED), ..player }
}

/// Launch out of the water: the takeoff speed is the swim jump's, and the horizontal momentum is the
/// last stroke's.
pub fn launch_breach(player: &mut Player)
    ensures
        *final(player) == breached(*old(player)),
{
    player.vel_y = Single::from_bits(SWIM_JUMP_SPEED);
}

/// What the takeoff frame of a leap out of the water comes to.
pub open spec fn breach_outcome() -> Outcome {
    Outcome { held: false, grounded: false, jumped: true, air_nudged: false, ground: None }
}

/// The avatar with its feet somewhere.
pub open spec fn placed_at(player: Player, feet: Point) -> Player {
    Player { pos: feet, ..player }
}

/// The takeoff frame of a leap out of the water, once its slide has moved the feet.
pub fn finish_breach(player: &mut Player, feet: Point) -> (outcome: Outcome)
    ensures
        *final(player) == placed_at(*old(player), feet),
        outcome == breach_outcome(),
{
    player.pos = feet;
    Outcome { held: false, grounded: false, jumped: true, air_nudged: false, ground: None }
}

/// Does the rest line bite a stroke: one that rises, and by more than the line leaves room for?
pub open spec fn bites(rise: Single, cap: Single) -> bool {
    !rise.at_most(zero()) && !rise.at_most(cap)
}

/// Does the rest line bite a stroke?
pub fn cap_bites(rise: Single, cap: Single) -> (r: bool)
    ensures
        r == bites(rise, cap),
{
    !rise.is_at_most(zero()) && !rise.is_at_most(cap)
}

/// The avatar after a stroke.
pub open spec fn stroked(player: Player, feet: Point, horizontal: Point) -> Player {
    Player { pos: feet, vel_y: zero(), horiz_vel: horizontal, ..player }
}

/// What a stroke comes to.
pub open spec fn stroke_outcome(below: Option<Probe>) -> Outcome {
    Outcome {
        held: false,
        grounded: found_ground(below),
        jumped: false,
        air_nudged: false,
        ground: None,
    }
}

/// The end of a stroke. The water carries the vertical, so none is left over; a swimmer never
/// attaches to what lies under it.
pub fn finish_swim(player: &mut Player, feet: Point, horizontal: Point, below: Option<Probe>) -> (outcome:
    Outcome)
    ensures
        *final(player) == stroked(*old(player), feet, horizontal),
        outcome == stroke_outcome(below),
{
    player.pos = feet;
    player.vel_y = zero();
    player.horiz_vel = horizontal;
    let grounded = match below {
        Some(p) => Single::from_bits(GROUND_COS).is_at_most(p.normal_y),
        None => false,
    };
    Outcome { held: false, grounded, jumped: false, air_nudged: false, ground: None }
}

/// Wading the boundary does not flicker: between the two depths the latch holds whatever it was.
pub proof fn the_band_holds_the_latch(
    player: Player,
    depth: Single,
    airborne_for: Single,
    half_decay: Single,
)
    requires
        Single::from_bits(SWIM_EXIT_DEPTH).at_most(depth),
        depth.at_most(Single::from_bits(SWIM_ENTER_DEPTH)),
    ensures
        swims(player, Some(depth), airborne_for, half_decay) == player.swimming,
{
}

/// Deep water takes every walker that is not on a fresh hop and keeps every swimmer; shallow water
/// and dry land let everyone go.
pub proof fn deep_water_takes_and_shallow_water_frees(
    player: Player,
    depth: Single,
    airborne_for: Single,
    half_decay: Single,
)
    ensures
        Single::from_bits(SWIM_ENTER_DEPTH).below(depth) && !hop_blocked(
            player,
            airborne_for,
            half_decay,
        ) ==> swims(player, Some(depth), airborne_for, half_decay),
        depth.below(Single::from_bits(SWIM_EXIT_DEPTH)) ==> !swims(
            player,
            Some(depth),
            airborne_for,
            half_decay,
        ),
        !swims(player, None, airborne_for, half_decay),
{
}

/// The hop gate only ever keeps a rising avatar out of the water: one that does not rise is never
/// blocked, and a swimmer is never held in.
pub proof fn the_hop_gate_guards_a_rising_launch(
    player: Player,
    airborne_for: Single,
    half_decay: Single,
)
    ensures
        player.vel_y.at_most(zero()) ==> !hop_blocked(player, airborne_for, half_decay),
        half_decay.at_most(airborne_for) ==> !hop_blocked(player, airborne_for, half_decay),
{
}

/// A swimmer swims on down to the leave depth and no further, however it moves; a walker is taken past
/// the enter depth, but for a launch that rises in an arc younger than its half life.
pub proof fn the_water_takes_and_lets_go(
    player: Player,
    depth: Single,
    airborne_for: Single,
    half_decay: Single,
)
    requires
        !depth.nan(),
    ensures
        player.swimming ==> swims(player, Some(depth), airborne_for, half_decay)
            == Single::from_bits(SWIM_EXIT_DEPTH).at_most(depth),
        !player.swimming && depth.at_most(Single::from_bits(SWIM_ENTER_DEPTH)) ==> !swims(
            player,
            Some(depth),
            airborne_for,
            half_decay,
        ),
        !player.swimming && Single::from_bits(SWIM_ENTER_DEPTH).below(depth) ==> swims(
            player,
            Some(depth),
            airborne_for,
            half_decay,
        ) == !(zero().below(player.vel_y) && player.airborne_since is Some && airborne_for.below(
            half_decay,
        )),
        Single::from_bits(SWIM_EXIT_DEPTH).below(Single::from_bits(SWIM_ENTER_DEPTH)),
{
}

/// The water sets the swim latch, and water that takes the avatar ends a settle; without it a settle
/// goes on. Nothing else changes.
pub proof fn water_ends_a_settle(player: Player)
    ensures
        after_water(player, true) == (Player { swimming: true, settling: false, ..player }),
        after_water(player, false) == (Player { swimming: false, ..player }),
{
}

/// A leap out of the water rises at the swim jump's speed and keeps the momentum of the stroke; its
/// takeoff frame is a launch, off the ground.
pub proof fn a_breach_is_a_launch(player: Player)
    ensures
        breached(player).vel_y == Single::from_bits(SWIM_JUMP_SPEED),
        breached(player).horiz_vel == player.horiz_vel,
        breached(player).pos == player.pos,
        zero().below(breached(player).vel_y),
        breach_outcome().jumped && !breach_outcome().grounded && !breach_outcome().held
            && !breach_outcome().air_nudged && breach_outcome().ground is None,
{
}

/// The rest line bites a stroke that rises past it, and leaves one alone that stays below it or that
/// does not rise.
pub proof fn the_rest_line_bites_what_rises_past_it(rise: Single, cap: Single)
    requires
        !rise.nan(),
        !cap.nan(),
    ensures
        bites(rise, cap) <==> zero().below(rise) && cap.below(rise),
{
}

/// A stroke ends where it went, with its own horizontal velocity and no vertical one; it stands on
/// ground within reach, and never on what would carry it.
pub proof fn a_stroke_ends_where_it_went(
    player: Player,
    feet: Point,
    horizontal: Point,
    below: Option<Probe>,
)
    ensures
        stroked(player, feet, horizontal).pos == feet,
        stroked(player, feet, horizontal).horiz_vel == horizontal,
        stroked(player, feet, horizontal).vel_y == zero(),
        stroked(player, feet, horizontal).swim_pitch == player.swim_pitch,
        stroked(player, feet, horizontal).face == player.face,
        stroke_outcome(below).grounded <==> below is Some && Single::from_bits(GROUND_COS).at_most(
            below->0.normal_y,
        ),
        !stroke_outcome(below).held && !stroke_outcome(below).jumped
            && !stroke_outcome(below).air_nudged,
        stroke_outcome(below).ground is None,
{
}

/// The takeoff frame puts the avatar where its slide went and changes nothing else of it.
pub proof fn a_takeoff_ends_where_it_slid(player: Player, feet: Point)
    ensures
        placed_at(player, feet).pos == feet,
        placed_at(player, feet) == (Player { pos: placed_at(player, feet).pos, ..player }),
{
}

/// The depths at which the water takes and lets go lie a little apart, and a leap out of it has a speed
/// of its own.
pub proof fn the_measures_of_the_water(depth: Single, player: Player)
    requires
        !depth.nan(),
    ensures
        Single::from_bits(SWIM_ENTER_DEPTH).at_most(depth) <==> 0x3fc2_aaaa <= depth.rank(),
        Single::from_bits(SWIM_EXIT_DEPTH).at_most(depth) <==> 0x3fbf_1c71 <= depth.rank(),
        Single::from_bits(SWIM_EXIT_DEPTH).below(Single::from_bits(SWIM_ENTER_DEPTH)),
        breached(player).vel_y.bits == 0x4111_8c48,
{
}

} // verus!
