//! Dead reckoning of another player. Its relayed moves are queued with the time they are due and
//! applied then; between them the pose follows the last reported flags. A jump is ballistic: the
//! horizontal velocity is frozen at the launch and the height is a parabola.
use vstd::prelude::*;
use std::collections::VecDeque;

use crate::move_flags::{
    any_of, holds, ANY_MOVE, BACKWARD, FALLING, FORWARD, FORWARD_BACK, STRAFE_LEFT, STRAFE_RIGHT,
    SWIMMING, TURN_LEFT, TURN_RIGHT, WALK_MODE,
};
use crate::net::{MoveSpeeds, TransportPose};
use crate::player::control::directional;
use crate::player::state::unit;
use crate::single::{zero, Double, Point, Single};

verus! {

/// 7.716e-4: the squared miss, in yards, below which a prediction needs no correction.
pub const RECONCILE_TOL_SQ: u32 = 0x3a4a_4533;

/// 9.5367e-7: the turn, in radians, below which a facing is left alone.
pub const FACING_DEAD_ZONE: u32 = 0x357f_ffb4;

/// The velocity that a jump seeds: up-positive, and the frozen horizontal.
#[derive(Clone, Copy, Debug, PartialEq, Eq, Structural)]
pub struct JumpSeed {
    pub vertical: Single,
    pub x: Single,
    pub y: Single,
}

/// The seed of a mover on the ground.
#[verifier::allow_in_spec]
pub fn grounded_seed() -> JumpSeed
    returns
        (JumpSeed { vertical: zero(), x: zero(), y: zero() }),
{
    JumpSeed { vertical: zero(), x: zero(), y: zero() }
}

/// One relayed move, with the time it is due.
#[derive(Clone, Copy, Debug, PartialEq, Eq, Structural)]
pub struct PendingMove {
    /// When to apply it, in milliseconds.
    pub fire_ms: Double,
    /// In the wire's axes, as it came.
    pub position: Point,
    pub orientation: Single,
    pub flags: u32,
    pub pitch: Single,
    /// The velocity that the packet's jump tail seeds; `None` without one.
    pub jump: Option<JumpSeed>,
    pub transport: Option<TransportPose>,
    /// A heartbeat is never blended toward: it snaps when it is due.
    pub heartbeat: bool,
}

/// The simulated pose of a remote mover.
#[derive(Clone, Copy, Debug, PartialEq, Eq, Structural)]
pub struct RemotePose {
    /// In the wire's axes; the scene's change of basis comes after the simulation.
    pub position: Point,
    pub orientation: Single,
    pub flags: u32,
    pub pitch: Single,
    pub speed: Single,
    pub jump: JumpSeed,
    /// The height that the current arc took off from, where the takeoff was seen.
    pub fall_start_z: Option<Single>,
}

/// A remote mover: its pose, and the moves that are not due yet, in the order they fire.
pub struct RemoteMotion {
    pub pose: RemotePose,
    pub pending: VecDeque<PendingMove>,
}

/// A landing: the height of the takeoff and of the ground.
#[derive(Clone, Copy, Debug, PartialEq, Eq, Structural)]
pub struct Landing {
    pub takeoff_z: Single,
    pub ground_z: Single,
}

/// What applying a move asks of the world around the mover.
#[derive(Clone, Copy, Debug, PartialEq, Eq, Structural)]
pub struct MoveEffect {
    /// The transport frame to anchor the mover in; `None` leaves any it was in.
    pub rider: Option<TransportPose>,
    pub landing: Option<Landing>,
}

/// The takeoff height after a packet: taken at the takeoff, held in the air, and dropped on the
/// ground.
pub open spec fn takeoff_after(
    was_falling: bool,
    now_falling: bool,
    fall_start_z: Option<Single>,
    packet_z: Single,
) -> Option<Single> {
    if !now_falling {
        None
    } else if was_falling {
        fall_start_z
    } else {
        Some(packet_z)
    }
}

/// The landing that a packet reports: on the edge from the air to the ground, where the takeoff was
/// seen.
pub open spec fn landing_of(
    was_falling: bool,
    now_falling: bool,
    fall_start_z: Option<Single>,
    packet_z: Single,
) -> Option<Landing> {
    if was_falling && !now_falling && fall_start_z is Some {
        Some(Landing { takeoff_z: fall_start_z->0, ground_z: packet_z })
    } else {
        None
    }
}

/// Step the arc of a mover by one packet.
pub fn fall_arc_step(
    was_falling: bool,
    now_falling: bool,
    fall_start_z: Option<Single>,
    packet_z: Single,
) -> (r: (Option<Single>, Option<Landing>))
    ensures
        r.0 == takeoff_after(was_falling, now_falling, fall_start_z, packet_z),
        r.1 == landing_of(was_falling, now_falling, fall_start_z, packet_z),
{
    match (was_falling, now_falling) {
        (false, true) => (Some(packet_z), None),
        (true, true) => (fall_start_z, None),
        (true, false) => (
            None,
            match fall_start_z {
                Some(takeoff_z) => Some(Landing { takeoff_z, ground_z: packet_z }),
                None => None,
            },
        ),
        (false, false) => (None, None),
    }
}

/// The pose after a move: committed outright, with the ballistic state seeded from its jump tail. The
/// speed is the extrapolation's to set.
pub open spec fn moved(pose: RemotePose, ev: PendingMove) -> RemotePose {
    RemotePose {
        position: ev.position,
        orientation: ev.orientation,
        flags: ev.flags,
        pitch: ev.pitch,
        speed: pose.speed,
        jump: match ev.jump {
            Some(seed) => seed,
            None => grounded_seed(),
        },
        fall_start_z: takeoff_after(
            any_of(pose.flags, FALLING),
            any_of(ev.flags, FALLING),
            pose.fall_start_z,
            ev.position.z,
        ),
    }
}

/// What a move asks of the world.
pub open spec fn effect_of(pose: RemotePose, ev: PendingMove) -> MoveEffect {
    MoveEffect {
        rider: ev.transport,
        landing: landing_of(
            any_of(pose.flags, FALLING),
            any_of(ev.flags, FALLING),
            pose.fall_start_z,
            ev.position.z,
        ),
    }
}

/// Apply one relayed move.
pub fn apply_move(pose: &mut RemotePose, ev: &PendingMove) -> (effect: MoveEffect)
    ensures
        *final(pose) == moved(*old(pose), *ev),
        effect == effect_of(*old(pose), *ev),
{
    let now_falling = holds(ev.flags, FALLING);
    let was_falling = holds(pose.flags, FALLING);
    let (takeoff, landing) = fall_arc_step(
        was_falling,
        now_falling,
        pose.fall_start_z,
        ev.position.z,
    );
    pose.fall_start_z = takeoff;
    pose.position = ev.position;
    pose.orientation = ev.orientation;
    pose.flags = ev.flags;
    pose.pitch = ev.pitch;
    pose.jump = match ev.jump {
        Some(seed) => seed,
        None => grounded_seed(),
    };
    MoveEffect { rider: ev.transport, landing }
}

/// How many moves at the head of a queue are due.
pub open spec fn due(pending: Seq<PendingMove>, now_ms: Double) -> nat
    decreases pending.len(),
{
    if pending.len() == 0 || !pending[0].fire_ms.at_most(now_ms) {
        0
    } else {
        1 + due(pending.drop_first(), now_ms)
    }
}

/// The pose after a run of moves.
pub open spec fn moved_by(pose: RemotePose, evs: Seq<PendingMove>) -> RemotePose
    decreases evs.len(),
{
    if evs.len() == 0 {
        pose
    } else {
        moved(moved_by(pose, evs.drop_last()), evs.last())
    }
}

/// What a run of moves asks of the world, one effect per move.
pub open spec fn effects_of(pose: RemotePose, evs: Seq<PendingMove>) -> Seq<MoveEffect> {
    Seq::new(evs.len(), |i: int| effect_of(moved_by(pose, evs.take(i)), evs[i]))
}

proof fn due_is_within(pending: Seq<PendingMove>, now_ms: Double)
    ensures
        due(pending, now_ms) <= pending.len(),
    decreases pending.len(),
{
    if pending.len() > 0 {
        due_is_within(pending.drop_first(), now_ms);
    }
}

/// Every move that [`due`] counts is due, and the one after them is not.
pub proof fn due_splits_the_queue(pending: Seq<PendingMove>, now_ms: Double)
    ensures
        due(pending, now_ms) <= pending.len(),
        forall|i: int|
            0 <= i < due(pending, now_ms) ==> (#[trigger] pending[i]).fire_ms.at_most(now_ms),
        due(pending, now_ms) < pending.len() ==> !pending[due(
            pending,
            now_ms,
        ) as int].fire_ms.at_most(now_ms),
    decreases pending.len(),
{
    if pending.len() > 0 {
        let rest = pending.drop_first();
        due_splits_the_queue(rest, now_ms);
        assert forall|i: int| 0 <= i < due(pending, now_ms) implies (
        #[trigger] pending[i]).fire_ms.at_most(now_ms) by {
            if i > 0 {
                assert(rest[i - 1] == pending[i]);
            }
        }
    }
}

impl RemoteMotion {
    /// Apply every move that is due, in order.
    pub fn drain_pending_moves(&mut self, now_ms: Double) -> (effects: Vec<MoveEffect>)
        ensures
            drained(
                old(self).pose,
                old(self).pending@,
                now_ms,
                final(self).pose,
                final(self).pending@,
                effects@,
            ),
    {
        let mut effects: Vec<MoveEffect> = Vec::new();
        let ghost whole = self.pending@;
        let ghost n = due(whole, now_ms) as int;
        let ghost mut k: int = 0;
        proof {
            due_is_within(whole, now_ms);
            assert(whole.skip(0) == whole);
        }
        while self.pending.len() > 0 && self.pending[0].fire_ms.is_at_most(now_ms)
            invariant
                whole == old(self).pending@,
                n == due(whole, now_ms),
                0 <= k <= n <= whole.len(),
                self.pending@ == whole.skip(k),
                n == k + due(whole.skip(k), now_ms),
                self.pose == moved_by(old(self).pose, whole.take(k)),
                effects@ == effects_of(old(self).pose, whole.take(k)),
            decreases self.pending@.len(),
        {
            let ghost before = whole.take(k);
            let ghost after = whole.take(k + 1);
            match self.pending.pop_front() {
                Some(ev) => {
                    proof {
                        assert(whole.skip(k).drop_first() == whole.skip(k + 1));
                        assert(self.pending@ == whole.skip(k + 1));
                        assert(after.drop_last() == before);
                        assert(after.last() == ev);
                        assert(forall|i: int| 0 <= i <= k ==> #[trigger] after.take(i) == whole.take(i));
                        assert(forall|i: int| 0 <= i <= k ==> #[trigger] before.take(i) == whole.take(i));
                    }
                    let effect = apply_move(&mut self.pose, &ev);
                    effects.push(effect);
                    proof {
                        assert(effects@ == effects_of(old(self).pose, after));
                        k = k + 1;
                    }
                },
                None => {},
            }
        }
        effects
    }
}

/// Does the queued head pull the pose toward itself: one that is still to come, and no heartbeat?
/// `remaining` is the seconds until it is due.
pub open spec fn pulls(head: Option<PendingMove>, remaining: Single) -> bool {
    head is Some && zero().below(remaining) && !(head->0).heartbeat
}

/// What a queue has at its head.
pub open spec fn head_of(head: Option<&PendingMove>) -> Option<PendingMove> {
    match head {
        Some(ev) => Some(*ev),
        None => None,
    }
}

/// Does the queued head pull the pose toward itself?
pub fn reconciles(head: Option<&PendingMove>, remaining: Single) -> (r: bool)
    ensures
        r == pulls(head_of(head), remaining),
{
    match head {
        Some(ev) => zero().is_below(remaining) && !ev.heartbeat,
        None => false,
    }
}

/// Does a prediction miss its target by enough to correct it?
pub open spec fn missed(distance_sq: Single) -> bool {
    !distance_sq.below(Single::from_bits(RECONCILE_TOL_SQ))
}

/// Does a prediction miss its target by enough to correct it?
pub fn misses(distance_sq: Single) -> (r: bool)
    ensures
        r == missed(distance_sq),
{
    !distance_sq.is_below(Single::from_bits(RECONCILE_TOL_SQ))
}

/// Is a turn worth making?
pub open spec fn worth_turning(turn: Single) -> bool {
    !turn.absolute().below(Single::from_bits(FACING_DEAD_ZONE))
}

/// Is a turn worth making?
pub fn is_worth_turning(turn: Single) -> (r: bool)
    ensures
        r == worth_turning(turn),
{
    !turn.abs().is_below(Single::from_bits(FACING_DEAD_ZONE))
}

/// Standing still on the ground: no direction, no turn, not in the air and not in the water. Only then
/// does a facing that is still to be reached play as a shuffle.
pub open spec fn stands_still(flags: u32) -> bool {
    !any_of(flags, ANY_MOVE | TURN_LEFT | TURN_RIGHT | FALLING | SWIMMING)
}

/// The shuffle of a standing mover that turns toward its next facing.
#[derive(Clone, Copy, Debug, PartialEq, Eq, Structural)]
pub enum Shuffle {
    /// Show the step of this much yaw.
    Step(Single),
    /// Stop showing it.
    Settle,
    /// Nothing to change.
    Keep,
}

/// The shuffle of this frame. `to_head` is the yaw left to the head of the queue, where there is one,
/// and `settled` the yaw that counts as there.
pub open spec fn shuffled(
    flags: u32,
    to_head: Option<Single>,
    settled: Single,
    latched: bool,
) -> Shuffle {
    let step = if to_head is Some && stands_still(flags) {
        to_head->0
    } else {
        zero()
    };
    if settled.below(step.absolute()) {
        Shuffle::Step(step)
    } else if latched {
        Shuffle::Settle
    } else {
        Shuffle::Keep
    }
}

/// The shuffle of this frame.
pub fn shuffle(flags: u32, to_head: Option<Single>, settled: Single, latched: bool) -> (r: Shuffle)
    ensures
        r == shuffled(flags, to_head, settled, latched),
{
    let still = !holds(flags, ANY_MOVE | TURN_LEFT | TURN_RIGHT | FALLING | SWIMMING);
    let step = match to_head {
        Some(yaw) if still => yaw,
        _ => zero(),
    };
    if settled.is_below(step.abs()) {
        Shuffle::Step(step)
    } else if latched {
        Shuffle::Settle
    } else {
        Shuffle::Keep
    }
}

/// Does the body render pitched: swimming along its facing?
pub open spec fn pitched(flags: u32) -> bool {
    any_of(flags, SWIMMING) && any_of(flags, FORWARD_BACK)
}

/// Does the body render pitched?
pub fn renders_pitched(flags: u32) -> (r: bool)
    ensures
        r == pitched(flags),
{
    holds(flags, SWIMMING) && holds(flags, FORWARD_BACK)
}

/// How a frame of dead reckoning moves.
#[derive(Clone, Copy, Debug, PartialEq, Eq, Structural)]
pub enum Course {
    /// Along the frozen launch, under gravity.
    Ballistic,
    /// Turning by `turn` and travelling by `along` and `left` in the facing's frame.
    Driven { turn: i32, along: i32, left: i32, pitched: bool },
}

/// The course that the flags set: ballistic in the air, and otherwise what the directions add up to.
pub open spec fn course_of(flags: u32) -> Course {
    if any_of(flags, FALLING) {
        Course::Ballistic
    } else {
        Course::Driven {
            turn: (unit(any_of(flags, TURN_LEFT)) - unit(any_of(flags, TURN_RIGHT))) as i32,
            along: (unit(any_of(flags, FORWARD)) - unit(any_of(flags, BACKWARD))) as i32,
            left: (unit(any_of(flags, STRAFE_LEFT)) - unit(any_of(flags, STRAFE_RIGHT))) as i32,
            pitched: any_of(flags, SWIMMING),
        }
    }
}

/// The course that the flags set.
pub fn course(flags: u32) -> (c: Course)
    ensures
        c == course_of(flags),
{
    if holds(flags, FALLING) {
        return Course::Ballistic;
    }
    let turn: i32 = net(holds(flags, TURN_LEFT), holds(flags, TURN_RIGHT));
    let along: i32 = net(holds(flags, FORWARD), holds(flags, BACKWARD));
    let left: i32 = net(holds(flags, STRAFE_LEFT), holds(flags, STRAFE_RIGHT));
    Course::Driven { turn, along, left, pitched: holds(flags, SWIMMING) }
}

fn net(up: bool, down: bool) -> (n: i32)
    ensures
        n == unit(up) - unit(down),
{
    if up == down {
        0
    } else if up {
        1
    } else {
        -1
    }
}

/// The speed that the flags imply: backward without forward is the slower of its pair, in the water
/// as on land; on land walk mode walks; everything else runs or swims.
pub open spec fn implied_speed(speeds: MoveSpeeds, flags: u32) -> Single {
    let backpedal = any_of(flags, BACKWARD) && !any_of(flags, FORWARD);
    if any_of(flags, SWIMMING) {
        directional(backpedal, speeds.swim, speeds.swim_back)
    } else if backpedal {
        speeds.run_back.lesser(speeds.run)
    } else if any_of(flags, WALK_MODE) {
        speeds.walk
    } else {
        speeds.run
    }
}

/// The speed that the flags imply.
pub fn base_speed(speeds: &MoveSpeeds, flags: u32) -> (speed: Single)
    ensures
        speed == implied_speed(*speeds, flags),
{
    let backpedal = holds(flags, BACKWARD) && !holds(flags, FORWARD);
    if holds(flags, SWIMMING) {
        if backpedal {
            speeds.swim_back.least(speeds.swim)
        } else {
            speeds.swim
        }
    } else if backpedal {
        speeds.run_back.least(speeds.run)
    } else if holds(flags, WALK_MODE) {
        speeds.walk
    } else {
        speeds.run
    }
}

/// Draining leaves nothing due at the head, so draining again at the same time fires nothing.
pub proof fn draining_is_exhaustive(pending: Seq<PendingMove>, now_ms: Double)
    ensures
        due(pending.skip(due(pending, now_ms) as int), now_ms) == 0,
{
    due_splits_the_queue(pending, now_ms);
}

/// The queue fires in the order of its times: where the times ascend, a move fires exactly when it is
/// due, and nothing that is due waits behind one that is not.
pub proof fn an_ascending_queue_fires_all_that_is_due(
    pending: Seq<PendingMove>,
    now_ms: Double,
    i: int,
)
    requires
        0 <= i < pending.len(),
        forall|a: int, b: int|
            0 <= a <= b < pending.len() ==> (#[trigger] pending[a]).fire_ms.at_most(
                (#[trigger] pending[b]).fire_ms,
            ),
    ensures
        i < due(pending, now_ms) <==> pending[i].fire_ms.at_most(now_ms),
{
    due_splits_the_queue(pending, now_ms);
    let n = due(pending, now_ms) as int;
    if i >= n && pending[i].fire_ms.at_most(now_ms) {
        assert(pending[n].fire_ms.at_most(pending[i].fire_ms));
        assert(pending[n].fire_ms.at_most(now_ms));
    }
}

/// A landing is reported only on the edge from the air to the ground, and only for an arc whose
/// takeoff was seen; from then on no takeoff is remembered.
pub proof fn landings_close_a_seen_arc(
    was_falling: bool,
    now_falling: bool,
    fall_start_z: Option<Single>,
    packet_z: Single,
)
    ensures
        landing_of(was_falling, now_falling, fall_start_z, packet_z) is Some ==> was_falling
            && !now_falling && fall_start_z is Some && takeoff_after(
            was_falling,
            now_falling,
            fall_start_z,
            packet_z,
        ) is None,
{
}

/// An arc seen whole reports the height it took off from, however many packets it had in the air.
pub proof fn an_arc_keeps_its_takeoff(takeoff_z: Single, air: Seq<Single>, ground_z: Single)
    ensures
        landing_of(
            true,
            false,
            takeoff_over(Some(takeoff_z), air),
            ground_z,
        ) == Some(Landing { takeoff_z, ground_z }),
    decreases air.len(),
{
    if air.len() > 0 {
        an_arc_keeps_its_takeoff(takeoff_z, air.drop_last(), ground_z);
    }
}

/// The takeoff height after a run of packets in the air.
pub open spec fn takeoff_over(fall_start_z: Option<Single>, air: Seq<Single>) -> Option<Single>
    decreases air.len(),
{
    if air.len() == 0 {
        fall_start_z
    } else {
        takeoff_after(true, true, takeoff_over(fall_start_z, air.drop_last()), air.last())
    }
}

/// After a move the mover is where the move says and as it says: its place, its facing, its flags, its
/// pitch and the velocity of its jump are all the move's, whatever they were before. A move without a
/// jump leaves no velocity of one; and the speed is not a move's to set.
pub proof fn a_move_is_taken_as_it_came(pose: RemotePose, ev: PendingMove)
    ensures
        moved(pose, ev).position == ev.position,
        moved(pose, ev).orientation == ev.orientation,
        moved(pose, ev).flags == ev.flags,
        moved(pose, ev).pitch == ev.pitch,
        ev.jump matches Some(seed) ==> moved(pose, ev).jump == seed,
        ev.jump is None ==> moved(pose, ev).jump.vertical == zero() && moved(pose, ev).jump.x
            == zero() && moved(pose, ev).jump.y == zero(),
        moved(pose, ev).speed == pose.speed,
        effect_of(pose, ev).rider == ev.transport,
{
}

/// After the moves that were due have fired, the pose is that of the last of them, and every one has
/// had its effect, in order. Where none was due the pose stays as it was.
pub proof fn the_last_move_that_fired_stands(
    pose: RemotePose,
    pending: Seq<PendingMove>,
    now_ms: Double,
)
    ensures
        ({
            let n = due(pending, now_ms) as int;
            let fired = pending.take(n);
            let after = moved_by(pose, fired);
            &&& effects_of(pose, fired).len() == n
            &&& n == 0 ==> after == pose
            &&& n > 0 ==> {
                let last = pending[n - 1];
                &&& after.position == last.position
                &&& after.orientation == last.orientation
                &&& after.flags == last.flags
                &&& after.pitch == last.pitch
                &&& after.speed == pose.speed
                &&& last.jump matches Some(seed) ==> after.jump == seed
            }
            &&& forall|i: int|
                0 <= i < n ==> (#[trigger] effects_of(pose, fired)[i]).rider == pending[i].transport
        }),
{
    due_splits_the_queue(pending, now_ms);
    let n = due(pending, now_ms) as int;
    let fired = pending.take(n);
    if n > 0 {
        assert(fired.last() == pending[n - 1]);
    }
    moves_keep_the_speed(pose, fired);
}

proof fn moves_keep_the_speed(pose: RemotePose, evs: Seq<PendingMove>)
    ensures
        moved_by(pose, evs).speed == pose.speed,
    decreases evs.len(),
{
    if evs.len() > 0 {
        moves_keep_the_speed(pose, evs.drop_last());
    }
}

/// A takeoff remembers the height it took off from, the air keeps that height, and a landing reports it
/// with the ground's and forgets it; one on the ground has none.
pub proof fn an_arc_remembers_its_takeoff(start: Option<Single>, z: Single)
    ensures
        takeoff_after(false, true, start, z) == Some(z),
        takeoff_after(true, true, start, z) == start,
        takeoff_after(true, false, start, z) is None,
        takeoff_after(false, false, start, z) is None,
        start matches Some(takeoff) ==> (landing_of(true, false, start, z) matches Some(l)
            && l.takeoff_z == takeoff && l.ground_z == z),
        start is None ==> landing_of(true, false, start, z) is None,
        landing_of(false, true, start, z) is None,
        landing_of(true, true, start, z) is None,
        landing_of(false, false, start, z) is None,
{
}

/// A fall that is seen from its takeoff to its landing reports both heights: of the move that left the
/// ground and of the move that came back to it.
pub proof fn a_fall_reports_both_heights(pose: RemotePose, up: PendingMove, down: PendingMove)
    requires
        !any_of(pose.flags, FALLING),
        any_of(up.flags, FALLING),
        !any_of(down.flags, FALLING),
    ensures
        effect_of(pose, up).landing is None,
        effect_of(moved(pose, up), down).landing matches Some(l) && l.takeoff_z == up.position.z
            && l.ground_z == down.position.z,
        moved(moved(pose, up), down).fall_start_z is None,
{
}

/// A pose is pulled toward a move that is still to come, unless that is a heartbeat; and not without
/// one.
pub proof fn only_a_move_to_come_pulls(ev: PendingMove, remaining: Single)
    ensures
        !pulls(None, remaining),
        ev.heartbeat ==> !pulls(Some(ev), remaining),
        remaining.at_most(zero()) ==> !pulls(Some(ev), remaining),
        zero().below(remaining) && !ev.heartbeat ==> pulls(Some(ev), remaining),
        head_of(Some(&ev)) == Some(ev),
        head_of(None) is None,
{
}

/// A prediction is corrected from the tolerance on, and a turn is made from the dead zone on, to either
/// side.
pub proof fn small_errors_are_left(distance_sq: Single, turn: Single)
    requires
        !distance_sq.nan(),
        !turn.nan(),
    ensures
        missed(distance_sq) <==> Single::from_bits(RECONCILE_TOL_SQ).at_most(distance_sq),
        worth_turning(turn) == worth_turning(turn.negated()),
        zero().at_most(turn) ==> (worth_turning(turn) <==> Single::from_bits(
            FACING_DEAD_ZONE,
        ).at_most(turn)),
{
}

/// A mover that stands still and has yet to turn to its next facing shuffles by just that turn; one
/// that moves, turns, swims or is in the air does not, and neither does one that is there. A shuffle
/// that is over is settled once.
pub proof fn only_a_standing_turn_shuffles(
    flags: u32,
    flag: u32,
    yaw: Single,
    settled: Single,
    latched: bool,
)
    requires
        zero().at_most(settled),
        flag == FORWARD || flag == BACKWARD || flag == STRAFE_LEFT || flag == STRAFE_RIGHT || flag
            == TURN_LEFT || flag == TURN_RIGHT || flag == FALLING || flag == SWIMMING,
    ensures
        settled.below(yaw.absolute()) ==> shuffled(0, Some(yaw), settled, latched) == Shuffle::Step(
            yaw,
        ),
        yaw.absolute().at_most(settled) ==> !(shuffled(flags, Some(yaw), settled, latched) is Step),
        any_of(flags, flag) ==> !(shuffled(flags, Some(yaw), settled, latched) is Step),
        !(shuffled(flags, None, settled, latched) is Step),
        shuffled(flags, None, settled, true) == Shuffle::Settle,
        shuffled(flags, None, settled, false) == Shuffle::Keep,
{
    assert((0u32 & (0xfu32 | 0x10 | 0x20 | 0x2000 | 0x20_0000) == 0) && (flags & flag != 0 ==> flags & (
    0xfu32 | 0x10 | 0x20 | 0x2000 | 0x20_0000) != 0)) by (bit_vector)
        requires
            flag == 0x1 || flag == 0x2 || flag == 0x4 || flag == 0x8 || flag == 0x10 || flag == 0x20
                || flag == 0x2000 || flag == 0x20_0000,
    ;
}

/// A swimmer is drawn pitched while it swims along its facing; nobody else is.
pub proof fn a_swimmer_along_its_facing_is_pitched(flags: u32)
    ensures
        any_of(flags, SWIMMING) && (any_of(flags, FORWARD) || any_of(flags, BACKWARD)) <==> pitched(
            flags,
        ),
{
    assert(flags & 0x3 != 0 <==> flags & 0x1 != 0 || flags & 0x2 != 0) by (bit_vector);
}

/// In the air a mover flies on; on the ground and in the water it goes the way its flags say: forward
/// and not back, left and not right, and turning left and not right; opposite flags cancel out.
pub proof fn a_mover_goes_the_way_of_its_flags(flags: u32)
    ensures
        any_of(flags, FALLING) ==> course_of(flags) == Course::Ballistic,
        !any_of(flags, FALLING) ==> (course_of(flags) matches Course::Driven {
            turn,
            along,
            left,
            pitched,
        } && {
            let f = any_of(flags, FORWARD);
            let b = any_of(flags, BACKWARD);
            let l = any_of(flags, STRAFE_LEFT);
            let r = any_of(flags, STRAFE_RIGHT);
            let tl = any_of(flags, TURN_LEFT);
            let tr = any_of(flags, TURN_RIGHT);
            &&& (along == 1 <==> f && !b)
            &&& (along == -1 <==> b && !f)
            &&& (along == 0 <==> f == b)
            &&& (left == 1 <==> l && !r)
            &&& (left == -1 <==> r && !l)
            &&& (left == 0 <==> l == r)
            &&& (turn == 1 <==> tl && !tr)
            &&& (turn == -1 <==> tr && !tl)
            &&& (turn == 0 <==> tl == tr)
            &&& pitched == any_of(flags, SWIMMING)
        }),
{
}

/// A swimmer goes at a swim speed and a walker at a walk or run speed; ahead and sideways at the
/// forward one of the pair, and back at the backward one, never faster than ahead. Walk mode walks, but
/// not backward and not in the water.
pub proof fn flags_choose_the_speed(speeds: MoveSpeeds, flags: u32)
    ensures
        ({
            let back = any_of(flags, BACKWARD) && !any_of(flags, FORWARD);
            let swims = any_of(flags, SWIMMING);
            let walks = any_of(flags, WALK_MODE);
            let speed = implied_speed(speeds, flags);
            &&& swims && !back ==> speed == speeds.swim
            &&& swims && back && speeds.swim_back.at_most(speeds.swim) ==> speed
                == speeds.swim_back
            &&& swims && back && speeds.swim.below(speeds.swim_back) ==> speed == speeds.swim
            &&& !swims && back && speeds.run_back.at_most(speeds.run) ==> speed == speeds.run_back
            &&& !swims && back && speeds.run.below(speeds.run_back) ==> speed == speeds.run
            &&& !swims && !back && walks ==> speed == speeds.walk
            &&& !swims && !back && !walks ==> speed == speeds.run
        }),
{
}

/// A pose and a queue before and after the moves that were due have fired, and their effects.
pub open spec fn drained(
    pose: RemotePose,
    pending: Seq<PendingMove>,
    now_ms: Double,
    pose_after: RemotePose,
    left: Seq<PendingMove>,
    effects: Seq<MoveEffect>,
) -> bool {
    let n = due(pending, now_ms) as int;
    let fired = pending.take(n);
    &&& left == pending.skip(n)
    &&& pose_after == moved_by(pose, fired)
    &&& effects == effects_of(pose, fired)
}

/// Draining fires the moves at the head of the queue whose time has come, each with its effect, and
/// leaves the others in their order, the first of them still to come. The pose is then that of the last
/// move that fired: its place, its facing, its flags and its pitch; and as it was where none did.
pub proof fn draining_fires_what_is_due(
    pose: RemotePose,
    pending: Seq<PendingMove>,
    now_ms: Double,
    pose_after: RemotePose,
    left: Seq<PendingMove>,
    effects: Seq<MoveEffect>,
)
    requires
        drained(pose, pending, now_ms, pose_after, left, effects),
    ensures
        ({
            let n = pending.len() - left.len();
            &&& 0 <= n <= pending.len()
            &&& left == pending.skip(n)
            &&& forall|i: int| 0 <= i < n ==> (#[trigger] pending[i]).fire_ms.at_most(now_ms)
            &&& n < pending.len() ==> !pending[n].fire_ms.at_most(now_ms)
            &&& effects.len() == n
            &&& n == 0 ==> pose_after == pose
            &&& n > 0 ==> {
                let last = pending[n - 1];
                &&& pose_after.position == last.position
                &&& pose_after.orientation == last.orientation
                &&& pose_after.flags == last.flags
                &&& pose_after.pitch == last.pitch
            }
            &&& pose_after.speed == pose.speed
        }),
{
    due_splits_the_queue(pending, now_ms);
    the_last_move_that_fired_stands(pose, pending, now_ms);
}

/// The measures that a remote mover is corrected by.
pub proof fn the_measures_of_a_correction(x: Single)
    requires
        !x.nan(),
    ensures
        missed(x) <==> 0x3a4a_4533 <= x.rank(),
        worth_turning(x) <==> 0x357f_ffb4 <= x.absolute().rank(),
{
}

} // verus!
