//! A cloud: an emitter with its pool, its clocks and its children, and the frame it is given. What a
//! particle is and where the emitter stands are the caller's; that neither moves while the cloud is out
//! of sight is settled here.
use vstd::prelude::*;

use crate::particles::emitter::{ChildEmitter, ParticleEmitter, Visibility};
use crate::particles::sim::{followed, frozen, tick_emitter, ticked, AnchorRule, Sight, Tick};
use crate::single::{zero, Single};

verus! {

/// 0.1: the longest step that is simulated, in seconds; a stall must not fling everything away.
pub const LONGEST_STEP: u32 = 0x3dcc_cccd;

/// The step that a frame simulates: the time it took, capped. None without a camera in the world, and
/// none where no time has passed.
pub open spec fn step_of(camera: bool, delta: Single) -> Option<Single> {
    let dt = delta.lesser(Single::from_bits(LONGEST_STEP));
    if !camera || dt.at_most(zero()) {
        None
    } else {
        Some(dt)
    }
}

/// The step that a frame simulates.
pub fn frame_step(camera: bool, delta: Single) -> (step: Option<Single>)
    ensures
        step == step_of(camera, delta),
{
    let dt = delta.least(Single::from_bits(LONGEST_STEP));
    if !camera || dt.is_at_most(zero()) {
        None
    } else {
        Some(dt)
    }
}

/// A child of an emitter, with the particles that it has.
pub struct ChildCloud<P> {
    pub emitter: ChildEmitter,
    /// Its emission gate was open last frame.
    pub gate_prev: bool,
    /// The births it owes.
    pub owed: Single,
    pub particles: Vec<P>,
}

/// An emitter with its pool and its children.
pub struct Cloud<P, T> {
    pub emitter: ParticleEmitter,
    /// Where the emitter stands, and what its motion has left behind.
    pub placement: T,
    /// Seconds that it has run.
    pub age: Single,
    /// The births it owes.
    pub owed: Single,
    pub particles: Vec<P>,
    pub children: Vec<ChildCloud<P>>,
}

/// A frame, as a cloud meets it.
#[derive(Clone, Copy, Debug, PartialEq, Eq, Structural)]
pub struct CloudFrame {
    /// There is a camera in the world.
    pub camera: bool,
    /// The time since the last frame.
    pub delta: Single,
    pub sight: Sight,
    /// The cloud's age one step on.
    pub aged: Single,
    /// The emitter's track lets it emit at that age.
    pub enabled: bool,
}

/// What a cloud does in a frame.
#[derive(Clone, Copy, Debug, PartialEq, Eq, Structural)]
pub enum CloudTick {
    /// Nothing: its pool and its clocks stand still. `hide` is whether it was showing until now.
    Frozen { hide: bool },
    /// It and everything it drew with go.
    Despawn,
    /// It runs for `dt`: it emits where `emitting`, and it hangs from `anchor`.
    Run { dt: Single, emitting: bool, anchor: AnchorRule },
}

/// The cloud or one of its children has a particle left.
pub open spec fn is_live<P, T>(cloud: Cloud<P, T>) -> bool {
    cloud.particles@.len() > 0 || exists|i: int|
        0 <= i < cloud.children@.len() && (#[trigger] cloud.children@[i]).particles@.len() > 0
}

/// What a cloud does in a frame; nothing is even looked at in a frame that simulates no step.
pub open spec fn cloud_tick<P, T>(cloud: Cloud<P, T>, frame: CloudFrame) -> Option<CloudTick> {
    match step_of(frame.camera, frame.delta) {
        None => None,
        Some(dt) => Some(
            match ticked(cloud.emitter, frame.sight, is_live(cloud), frame.enabled) {
                Tick::Frozen { hide } => CloudTick::Frozen { hide },
                Tick::Despawn => CloudTick::Despawn,
                Tick::Run { emitting, anchor } => CloudTick::Run { dt, emitting, anchor },
            },
        ),
    }
}

/// The cloud once a frame has been decided and before its particles have moved: only one that is not
/// frozen grows older.
pub open spec fn cloud_after<P, T>(cloud: Cloud<P, T>, frame: CloudFrame) -> Cloud<P, T> {
    if step_of(frame.camera, frame.delta) is None {
        cloud
    } else {
        Cloud {
            emitter: followed(cloud.emitter, frame.sight),
            age: if frozen(cloud.emitter, frame.sight) {
                cloud.age
            } else {
                frame.aged
            },
            ..cloud
        }
    }
}

/// The cloud after a run of frames in which nothing moves its particles.
pub open spec fn cloud_over<P, T>(cloud: Cloud<P, T>, frames: Seq<CloudFrame>) -> Cloud<P, T>
    decreases frames.len(),
{
    if frames.len() == 0 {
        cloud
    } else {
        cloud_after(cloud_over(cloud, frames.drop_last()), frames.last())
    }
}

/// A child that was just wired.
pub open spec fn is_new_child<P>(child: ChildCloud<P>, emitter: ChildEmitter) -> bool {
    &&& child.emitter == emitter
    &&& !child.gate_prev
    &&& child.owed == zero()
    &&& child.particles@.len() == 0
}

/// The cloud of an emitter that was just spawned.
pub open spec fn is_new_cloud<P, T>(
    cloud: Cloud<P, T>,
    emitter: ParticleEmitter,
    placement: T,
) -> bool {
    &&& cloud.emitter == emitter
    &&& cloud.placement == placement
    &&& cloud.age == zero()
    &&& cloud.owed == zero()
    &&& cloud.particles@.len() == 0
    &&& cloud.children@.len() == 0
}

impl<P> ChildCloud<P> {
    /// A child that was just wired: it has no particle, owes none, and its gate has not been open.
    pub fn new(emitter: ChildEmitter) -> (child: ChildCloud<P>)
        ensures
            is_new_child(child, emitter),
    {
        ChildCloud { emitter, gate_prev: false, owed: zero(), particles: Vec::new() }
    }
}

impl<P, T> Cloud<P, T> {
    /// The cloud of an emitter that was just spawned: it has run for no time, owes nothing, and has
    /// neither a particle nor a child.
    pub fn new(emitter: ParticleEmitter, placement: T) -> (cloud: Cloud<P, T>)
        ensures
            is_new_cloud(cloud, emitter, placement),
            !is_live(cloud),
    {
        Cloud {
            emitter,
            placement,
            age: zero(),
            owed: zero(),
            particles: Vec::new(),
            children: Vec::new(),
        }
    }

    /// How many particles of its own the emitter has.
    pub fn live(&self) -> (n: usize)
        ensures
            n == self.particles@.len(),
    {
        self.particles.len()
    }

    /// Has the cloud or one of its children a particle left?
    pub fn has_live(&self) -> (live: bool)
        ensures
            live == is_live(*self),
    {
        if self.particles.len() > 0 {
            return true;
        }
        for i in 0..self.children.len()
            invariant
                self.particles@.len() == 0,
                forall|k: int|
                    0 <= k < i ==> (#[trigger] self.children@[k]).particles@.len() == 0,
        {
            if self.children[i].particles.len() > 0 {
                assert(self.children@[i as int].particles@.len() > 0);
                return true;
            }
        }
        false
    }

    /// Decide the frame of a cloud. Where it runs, the caller moves its particles by the step that is
    /// handed back; where it is frozen, or no step is simulated, there is nothing to move.
    pub fn tick(&mut self, frame: CloudFrame) -> (tick: Option<CloudTick>)
        ensures
            tick == cloud_tick(*old(self), frame),
            *final(self) == cloud_after(*old(self), frame),
    {
        match frame_step(frame.camera, frame.delta) {
            None => None,
            Some(dt) => {
                let live = self.has_live();
                match tick_emitter(&mut self.emitter, frame.sight, live, frame.enabled) {
                    Tick::Frozen { hide } => Some(CloudTick::Frozen { hide }),
                    Tick::Despawn => {
                        self.age = frame.aged;
                        Some(CloudTick::Despawn)
                    },
                    Tick::Run { emitting, anchor } => {
                        self.age = frame.aged;
                        Some(CloudTick::Run { dt, emitting, anchor })
                    },
                }
            },
        }
    }
}

/// No step is longer than the longest one, and none goes back or stands.
pub proof fn steps_are_capped(camera: bool, delta: Single)
    ensures
        step_of(camera, delta) matches Some(dt) ==> dt.at_most(Single::from_bits(LONGEST_STEP))
            && !dt.at_most(zero()),
{
}

/// A cloud that is out of the draw set stands still, however long it is: its particles, its age, what
/// it owes, its placement and its seed, and the pools of its children, are what they were. It is
/// hidden, and that is all.
pub proof fn a_culled_cloud_stands_still<P, T>(cloud: Cloud<P, T>, frames: Seq<CloudFrame>)
    requires
        frames.len() > 0,
        forall|i: int|
            0 <= i < frames.len() ==> step_of(
                (#[trigger] frames[i]).camera,
                frames[i].delta,
            ) is Some && frozen(cloud.emitter, frames[i].sight),
    ensures
        cloud_over(cloud, frames) == (Cloud {
            emitter: ParticleEmitter { visibility: Visibility::Hidden, ..cloud.emitter },
            ..cloud
        }),
        cloud_tick(cloud_over(cloud, frames.drop_last()), frames.last()) matches Some(
            CloudTick::Frozen { .. },
        ),
    decreases frames.len(),
{
    let earlier = frames.drop_last();
    if earlier.len() > 0 {
        assert forall|i: int| 0 <= i < earlier.len() implies step_of(
            (#[trigger] earlier[i]).camera,
            earlier[i].delta,
        ) is Some && frozen(cloud.emitter, earlier[i].sight) by {
            assert(earlier[i] == frames[i]);
        }
        a_culled_cloud_stands_still(cloud, earlier);
    } else {
        assert(earlier == Seq::<CloudFrame>::empty());
    }
    assert(frames.last() == frames[frames.len() - 1]);
}

/// The first frame back in the draw set advances a cloud by that one frame's step and catches nothing
/// up: it does what it would have done had it never been out of sight.
pub proof fn a_cloud_resumes_with_one_step<P, T>(
    cloud: Cloud<P, T>,
    frames: Seq<CloudFrame>,
    back: CloudFrame,
)
    requires
        frames.len() > 0,
        forall|i: int|
            0 <= i < frames.len() ==> step_of(
                (#[trigger] frames[i]).camera,
                frames[i].delta,
            ) is Some && frozen(cloud.emitter, frames[i].sight),
        !frozen(cloud.emitter, back.sight),
        step_of(back.camera, back.delta) is Some,
    ensures
        cloud_tick(cloud_over(cloud, frames), back) == cloud_tick(cloud, back),
        cloud_tick(cloud, back) matches Some(CloudTick::Run { dt, .. }) ==> Some(dt) == step_of(
            back.camera,
            back.delta,
        ),
        cloud_after(cloud_over(cloud, frames), back).age == back.aged,
        back.sight.prop_drawn is Some ==> {
            let resumed = cloud_after(cloud_over(cloud, frames), back);
            resumed == cloud_after(cloud, back) && resumed.emitter.visibility
                == Visibility::Inherited
        },
{
    a_culled_cloud_stands_still(cloud, frames);
    let stood = cloud_over(cloud, frames);
    assert(stood.particles == cloud.particles && stood.children == cloud.children);
    assert(is_live(stood) == is_live(cloud));
}

/// A frame simulates the time it took, up to a tenth of a second. Without a camera in the world, and in
/// a frame that took no time or went back, nothing is simulated.
pub proof fn a_frame_simulates_its_time(delta: Single)
    ensures
        step_of(false, delta) is None,
        delta.at_most(zero()) ==> step_of(true, delta) is None,
        zero().below(delta) && delta.at_most(Single::from_bits(0x3dcc_cccd)) ==> step_of(true, delta)
            == Some(delta),
        Single::from_bits(0x3dcc_cccd).below(delta) ==> step_of(true, delta) == Some(
            Single::from_bits(0x3dcc_cccd),
        ),
{
}

/// A new cloud is its emitter's alone, at its placement: no age, no debt, no particle, no child. A new
/// child is the one it was wired for and has nothing either.
pub proof fn a_new_cloud_is_empty<P, T>(
    cloud: Cloud<P, T>,
    emitter: ParticleEmitter,
    placement: T,
    child: ChildCloud<P>,
    wired: ChildEmitter,
)
    requires
        is_new_cloud(cloud, emitter, placement),
        is_new_child(child, wired),
    ensures
        cloud.emitter == emitter && cloud.placement == placement,
        cloud.age.bits == 0 && cloud.owed.bits == 0,
        cloud.particles@.len() == 0 && cloud.children@.len() == 0,
        child.emitter == wired && !child.gate_prev,
        child.owed.bits == 0 && child.particles@.len() == 0,
{
}

/// A cloud lives by its own particles or by any child's, and by nothing else.
pub proof fn a_cloud_lives_by_its_particles<P, T>(cloud: Cloud<P, T>, k: int)
    ensures
        cloud.particles@.len() > 0 ==> is_live(cloud),
        0 <= k < cloud.children@.len() && cloud.children@[k].particles@.len() > 0 ==> is_live(cloud),
        cloud.particles@.len() == 0 && (forall|i: int|
            0 <= i < cloud.children@.len() ==> (#[trigger] cloud.children@[i]).particles@.len() == 0)
            ==> !is_live(cloud),
{
}

/// What a cloud does in a frame is what its emitter does, for the step of the frame; a frame without a
/// step is no frame. It grows older by a frame that it is not frozen in, and nothing else of it moves.
pub proof fn a_cloud_does_as_its_emitter<P, T>(cloud: Cloud<P, T>, frame: CloudFrame)
    ensures
        ({
            let step = step_of(frame.camera, frame.delta);
            let does = ticked(cloud.emitter, frame.sight, is_live(cloud), frame.enabled);
            let after = cloud_after(cloud, frame);
            &&& step is None ==> cloud_tick(cloud, frame) is None && after == cloud
            &&& step matches Some(dt) ==> {
                &&& does matches Tick::Frozen { hide } ==> cloud_tick(cloud, frame) == Some(
                    CloudTick::Frozen { hide },
                )
                &&& does is Despawn ==> cloud_tick(cloud, frame) == Some(CloudTick::Despawn)
                &&& does matches Tick::Run { emitting, anchor } ==> cloud_tick(cloud, frame) == Some(
                    CloudTick::Run { dt, emitting, anchor },
                )
                &&& after.emitter == followed(cloud.emitter, frame.sight)
                &&& does is Frozen ==> after.age == cloud.age
                &&& !(does is Frozen) ==> after.age == frame.aged
            }
            &&& after.placement == cloud.placement
            &&& after.owed == cloud.owed
            &&& after.particles == cloud.particles
            &&& after.children == cloud.children
        }),
{
}

} // verus!
