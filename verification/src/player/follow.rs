//! Following another unit: a forward key that nobody holds, and a facing that is steered. Follow
//! starts and stops on a band of distances rather than at one distance, so it runs and arrives
//! instead of juddering, and a deliberate turn away ends it.
use vstd::prelude::*;

use crate::player::state::Player;
use crate::single::{zero, Single};

verus! {

/// The smallest distance at which a bearing means anything.
pub const COINCIDENT: u32 = 0x3400_0000;

/// 160 degrees, in radians: a facing at least this far off the bearing has turned away.
pub const CANCEL_ANGLE: u32 = 0x4032_b8c3;

/// 0.001: within this many radians of the bearing nothing turns.
pub const TURN_DEADZONE: u32 = 0x3a83_126f;

/// Whom we follow, and the latches of the band and of the turn-away.
#[derive(Clone, Copy, Debug, PartialEq, Eq, Structural)]
pub struct FollowState {
    pub guid: Option<u64>,
    /// The forward key is held.
    pub moving: bool,
    /// The facing has been toward the followee since the follow began.
    pub aligned: bool,
}

impl FollowState {
    /// Following nobody.
    #[verifier::allow_in_spec]
    pub fn new() -> FollowState
        returns
            (FollowState { guid: None, moving: false, aligned: false }),
    {
        FollowState { guid: None, moving: false, aligned: false }
    }

    /// A follow that begins.
    pub open spec fn begun(guid: u64) -> FollowState {
        FollowState { guid: Some(guid), moving: false, aligned: false }
    }

    /// Begin to follow, from a clean band.
    pub fn start(&mut self, guid: u64)
        ensures
            *final(self) == FollowState::begun(guid),
    {
        self.guid = Some(guid);
        self.moving = false;
        self.aligned = false;
    }

    /// Stop following; were we?
    pub fn stop(&mut self) -> (were: bool)
        ensures
            *final(self) == FollowState::new(),
            were == old(self).guid is Some,
    {
        self.moving = false;
        self.aligned = false;
        let were = self.guid.is_some();
        self.guid = None;
        were
    }
}

/// Is the forward key held at this distance? One that runs keeps running while beyond the arrival
/// distance; one that stands starts at the resume distance.
pub open spec fn runs(was_moving: bool, distance: Single, arrive: Single, resume: Single) -> bool {
    if was_moving {
        arrive.below(distance)
    } else {
        resume.at_most(distance)
    }
}

/// Is the forward key held at this distance?
pub fn should_move(was_moving: bool, distance: Single, arrive: Single, resume: Single) -> (r: bool)
    ensures
        r == runs(was_moving, distance, arrive, resume),
{
    if was_moving {
        arrive.is_below(distance)
    } else {
        resume.is_at_most(distance)
    }
}

/// Is the bearing near enough for the steer to leave the facing alone?
pub open spec fn near_bearing(remaining: Single) -> bool {
    remaining.absolute().at_most(Single::from_bits(TURN_DEADZONE))
}

/// Is the bearing near enough for the steer to leave the facing alone?
pub fn in_deadzone(remaining: Single) -> (r: bool)
    ensures
        r == near_bearing(remaining),
{
    remaining.abs().is_at_most(Single::from_bits(TURN_DEADZONE))
}

/// Where the followee is this tick: how far, how far off our facing, and the band at our speed.
#[derive(Clone, Copy, Debug, PartialEq, Eq, Structural)]
pub struct Sighting {
    pub distance: Single,
    /// The bearing less the facing, wrapped, without its sign.
    pub off_bearing: Single,
    pub arrive: Single,
    pub resume: Single,
}

/// What a tick of following does.
#[derive(Clone, Copy, Debug, PartialEq, Eq, Structural)]
pub enum FollowStep {
    /// Nobody to follow, or standing on top of them: nothing is steered and no key is held.
    Idle,
    /// The followee is gone, or we turned away.
    Ended,
    /// Steer toward the followee; the forward key is held or not.
    Steer { forward: bool },
}

/// The state after a tick, and what the tick does.
pub open spec fn followed(state: FollowState, sighting: Option<Sighting>) -> (
    FollowState,
    FollowStep,
) {
    if state.guid is None {
        (state, FollowStep::Idle)
    } else {
        match sighting {
            None => (FollowState::new(), FollowStep::Ended),
            Some(s) => if s.distance.below(Single::from_bits(COINCIDENT)) {
                (state, FollowStep::Idle)
            } else if !s.off_bearing.below(Single::from_bits(CANCEL_ANGLE)) && state.aligned {
                (FollowState::new(), FollowStep::Ended)
            } else {
                let moving = runs(state.moving, s.distance, s.arrive, s.resume);
                (
                    FollowState {
                        guid: state.guid,
                        moving,
                        aligned: state.aligned || s.off_bearing.below(
                            Single::from_bits(CANCEL_ANGLE),
                        ),
                    },
                    FollowStep::Steer { forward: moving },
                )
            },
        }
    }
}

/// The avatar once a tick of following has been heeded: forward is held exactly where the tick says so.
/// The facing is turned where the tick steers, by an angle that is not computed here.
pub open spec fn heeded(player: Player, step: FollowStep) -> Player {
    Player { follow_forward: step == (FollowStep::Steer { forward: true }), ..player }
}

/// One tick of following; `sighting` is `None` where the followee cannot be found. It comes before the
/// frame's own input is read, so that a turn of the player's wins.
pub fn steer_follow(state: &mut FollowState, player: &mut Player, sighting: Option<Sighting>) -> (step:
    FollowStep)
    ensures
        (*final(state), step) == followed(*old(state), sighting),
        *final(player) == heeded(*old(player), step),
{
    let step = tick(state, sighting);
    player.follow_forward =
    match step {
        FollowStep::Steer { forward } => forward,
        _ => false,
    };
    step
}

fn tick(state: &mut FollowState, sighting: Option<Sighting>) -> (step: FollowStep)
    ensures
        (*final(state), step) == followed(*old(state), sighting),
{
    if state.guid.is_none() {
        return FollowStep::Idle;
    }
    match sighting {
        None => {
            let _ = state.stop();
            FollowStep::Ended
        },
        Some(s) => {
            if s.distance.is_below(Single::from_bits(COINCIDENT)) {
                return FollowStep::Idle;
            }
            if s.off_bearing.is_below(Single::from_bits(CANCEL_ANGLE)) {
                state.aligned = true;
            } else if state.aligned {
                let _ = state.stop();
                return FollowStep::Ended;
            }
            let moving = should_move(state.moving, s.distance, s.arrive, s.resume);
            state.moving = moving;
            FollowStep::Steer { forward: moving }
        },
    }
}

/// The band is dead in both directions: beyond the arrival distance and short of the resume distance,
/// one that runs keeps running and one that stands keeps standing.
pub proof fn the_band_is_dead_in_both_directions(
    was_moving: bool,
    distance: Single,
    arrive: Single,
    resume: Single,
)
    requires
        arrive.below(distance),
        distance.below(resume),
    ensures
        runs(was_moving, distance, arrive, resume) == was_moving,
{
}

/// Arriving is inclusive: at the arrival distance itself, or nearer, one that runs stops; and at the
/// resume distance itself, or farther, one that stands starts.
pub proof fn both_edges_are_inclusive(distance: Single, arrive: Single, resume: Single)
    ensures
        distance.at_most(arrive) ==> !runs(true, distance, arrive, resume),
        resume.at_most(distance) ==> runs(false, distance, arrive, resume),
{
}

/// A follow that begins facing away turns round: it cannot end by turning away before it has once
/// faced the followee.
pub proof fn a_fresh_follow_turns_round(guid: u64, sighting: Sighting)
    ensures
        followed(
            FollowState { guid: Some(guid), moving: false, aligned: false },
            Some(sighting),
        ).1 != FollowStep::Ended,
{
}

/// Once the follow has faced the followee, a facing that turned away ends it, and it stays ended.
pub proof fn turning_away_ends_an_aligned_follow(state: FollowState, sighting: Sighting, later: Option<
    Sighting,
>)
    requires
        state.guid is Some,
        state.aligned,
        !sighting.distance.below(Single::from_bits(COINCIDENT)),
        Single::from_bits(CANCEL_ANGLE).at_most(sighting.off_bearing),
    ensures
        followed(state, Some(sighting)) == (FollowState::new(), FollowStep::Ended),
        followed(FollowState::new(), later) == (FollowState::new(), FollowStep::Idle),
{
}

/// A follow lets go of the forward key at the arrival distance and nearer, and takes it up again at the
/// resume distance and farther.
pub proof fn a_follow_stops_near_and_starts_far(distance: Single, arrive: Single, resume: Single)
    requires
        !distance.nan(),
        !arrive.nan(),
        !resume.nan(),
    ensures
        runs(true, distance, arrive, resume) <==> arrive.below(distance),
        runs(false, distance, arrive, resume) <==> resume.at_most(distance),
{
}

/// The facing is left alone within a thousandth of the bearing, to either side, and turned beyond.
pub proof fn a_small_turn_is_not_made(remaining: Single)
    ensures
        near_bearing(remaining) == near_bearing(remaining.negated()),
        zero().at_most(remaining) ==> near_bearing(remaining) == remaining.at_most(
            Single::from_bits(TURN_DEADZONE),
        ),
        remaining.nan() ==> !near_bearing(remaining),
{
}

/// A follow begins with its unit, standing and not yet lined up; and with nobody to follow nothing is
/// steered.
pub proof fn a_follow_begins_with_its_unit(guid: u64, sighting: Option<Sighting>)
    ensures
        FollowState::begun(guid).guid == Some(guid),
        !FollowState::begun(guid).moving,
        !FollowState::begun(guid).aligned,
        FollowState::new().guid is None,
        followed(FollowState::new(), sighting) == (FollowState::new(), FollowStep::Idle),
{
}

/// A follow goes on with its unit: it steers toward it, holds forward as the distance has it, and
/// remembers both that and that it has faced it. It ends when the unit is gone, and waits on top of it.
pub proof fn a_follow_goes_on_with_its_unit(state: FollowState, s: Sighting, guid: u64)
    requires
        state.guid == Some(guid),
    ensures
        followed(state, None) == (FollowState::new(), FollowStep::Ended),
        s.distance.below(Single::from_bits(COINCIDENT)) ==> followed(state, Some(s)) == (
            state,
            FollowStep::Idle,
        ),
        !s.distance.below(Single::from_bits(COINCIDENT)) && s.off_bearing.below(
            Single::from_bits(CANCEL_ANGLE),
        ) ==> {
            let (after, step) = followed(state, Some(s));
            let forward = if state.moving {
                s.arrive.below(s.distance)
            } else {
                s.resume.at_most(s.distance)
            };
            &&& step == (FollowStep::Steer { forward })
            &&& after.guid == Some(guid)
            &&& after.moving == forward
            &&& after.aligned
        },
        !s.distance.below(Single::from_bits(COINCIDENT)) && !s.off_bearing.below(
            Single::from_bits(CANCEL_ANGLE),
        ) && !state.aligned ==> {
            let (after, step) = followed(state, Some(s));
            step is Steer && after.guid == Some(guid) && !after.aligned
        },
{
}

/// Forward is held exactly while a follow runs, and nothing else of the avatar is touched.
pub proof fn a_follow_holds_forward_while_it_runs(player: Player)
    ensures
        heeded(player, FollowStep::Steer { forward: true }) == (Player {
            follow_forward: true,
            ..player
        }),
        heeded(player, FollowStep::Steer { forward: false }) == (Player {
            follow_forward: false,
            ..player
        }),
        heeded(player, FollowStep::Idle) == (Player { follow_forward: false, ..player }),
        heeded(player, FollowStep::Ended) == (Player { follow_forward: false, ..player }),
{
}

/// The measures that a follow goes by: how near is there, how far off the bearing ends it, and how small
/// a turn is left.
pub proof fn the_measures_of_a_follow(x: Single)
    requires
        !x.nan(),
    ensures
        Single::from_bits(COINCIDENT).at_most(x) <==> 0x3400_0000 <= x.rank(),
        Single::from_bits(CANCEL_ANGLE).at_most(x) <==> 0x4032_b8c3 <= x.rank(),
        Single::from_bits(TURN_DEADZONE).at_most(x) <==> 0x3a83_126f <= x.rank(),
{
}

} // verus!
