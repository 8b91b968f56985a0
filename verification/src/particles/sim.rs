//! The frame of an emitter: whether it is in the draw set, whom it follows, whether it still lives,
//! and which of its particles do.
use vstd::prelude::*;

use crate::particles::emitter::{ParticleEmitter, Visibility};
use crate::single::{zero, Single};

verus! {

/// 1/30: the seconds between two readings of the emitter's own motion.
pub const INHERIT_INTERVAL: u32 = 0x3d08_8889;

/// 0.0001: the angular speed below which nothing tumbles.
pub const LEAST_TUMBLE: u32 = 0x38d1_b717;

/// The render layers that something is on, or that a camera sees.
pub struct Layers {
    pub layers: Vec<u32>,
}

impl View for Layers {
    type V = Set<u32>;

    open spec fn view(&self) -> Set<u32> {
        self.layers@.to_set()
    }
}

/// Two sets of layers have one in common.
pub open spec fn overlap(a: Set<u32>, b: Set<u32>) -> bool {
    exists|layer: u32| #[trigger] a.contains(layer) && b.contains(layer)
}

impl Layers {
    /// Is a layer among them?
    pub fn has_layer(&self, layer: u32) -> (r: bool)
        ensures
            r == self@.contains(layer),
    {
        for i in 0..self.layers.len()
            invariant
                forall|k: int| 0 <= k < i ==> self.layers@[k] != layer,
        {
            if self.layers[i] == layer {
                assert(self.layers@.contains(layer));
                return true;
            }
        }
        assert(!self.layers@.contains(layer));
        false
    }

    /// Do the two have a layer in common?
    pub fn intersects(&self, other: &Layers) -> (r: bool)
        ensures
            r == overlap(self@, other@),
    {
        for i in 0..self.layers.len()
            invariant
                forall|k: int| 0 <= k < i ==> !other@.contains(#[trigger] self.layers@[k]),
        {
            if other.has_layer(self.layers[i]) {
                assert(self@.contains(self.layers@[i as int]));
                return true;
            }
        }
        assert forall|layer: u32| self@.contains(layer) implies !other@.contains(layer) by {
            let k = choose|k: int| 0 <= k < self.layers@.len() && self.layers@[k] == layer;
            assert(!other@.contains(self.layers@[k]));
        }
        false
    }
}

/// The first camera that sees any of the layers.
pub open spec fn first_seeing(cameras: Seq<Layers>, layers: Set<u32>) -> Option<usize>
    decreases cameras.len(),
{
    if cameras.len() == 0 {
        None
    } else {
        match first_seeing(cameras.drop_last(), layers) {
            Some(i) => Some(i),
            None => if overlap(cameras.last()@, layers) {
                Some((cameras.len() - 1) as usize)
            } else {
                None
            },
        }
    }
}

/// The first camera that sees any of the layers.
pub fn camera_seeing(layers: &Layers, cameras: &Vec<Layers>) -> (camera: Option<usize>)
    ensures
        camera == first_seeing(cameras@, layers@),
{
    for i in 0..cameras.len()
        invariant
            first_seeing(cameras@.take(i as int), layers@) is None,
    {
        assert(cameras@.take(i + 1).drop_last() == cameras@.take(i as int));
        if cameras[i].intersects(layers) {
            proof {
                assert(first_seeing(cameras@.take(i + 1), layers@) == Some(i));
                first_seeing_is_stable(cameras@, layers@, i + 1);
            }
            return Some(i);
        }
    }
    assert(cameras@.take(cameras.len() as int) == cameras@);
    None
}

/// The camera that an emitter on these layers faces, when it is not the world's.
pub open spec fn booth_of(layers: Option<Set<u32>>, world: Set<u32>, cameras: Seq<Layers>) -> Option<
    usize,
> {
    match layers {
        Some(own) => if overlap(own, world) {
            None
        } else {
            first_seeing(cameras, own)
        },
        None => None,
    }
}

/// The camera that an emitter faces when it is not the world's: for one that is on layers of its own,
/// none of them the world's, the first camera that sees any of them.
pub fn booth_camera(layers: Option<&Layers>, world: &Layers, cameras: &Vec<Layers>) -> (camera: Option<
    usize,
>)
    ensures
        camera == booth_of(
            match layers {
                Some(layers) => Some(layers@),
                None => None,
            },
            world@,
            cameras@,
        ),
{
    match layers {
        Some(own) => if own.intersects(world) {
            None
        } else {
            camera_seeing(own, cameras)
        },
        None => None,
    }
}

proof fn first_seeing_is_stable(cameras: Seq<Layers>, layers: Set<u32>, n: int)
    requires
        0 <= n <= cameras.len(),
        first_seeing(cameras.take(n), layers) is Some,
    ensures
        first_seeing(cameras, layers) == first_seeing(cameras.take(n), layers),
    decreases cameras.len(),
{
    if n < cameras.len() {
        assert(cameras.drop_last().take(n) == cameras.take(n));
        first_seeing_is_stable(cameras.drop_last(), layers, n);
    } else {
        assert(cameras.take(n) == cameras);
    }
}

/// What the draw-set gate reads.
#[derive(Clone, Copy, Debug, PartialEq, Eq, Structural)]
pub struct Sight {
    /// For a placed prop's emitter: is the prop in the draw set?
    pub prop_drawn: Option<bool>,
    /// A booth camera faces it.
    pub booth: bool,
    /// Its owner, where it has one, is still there.
    pub owner_found: bool,
    /// Where it is, is nearer than the far wall.
    pub within_wall: bool,
}

/// An emitter is frozen: a prop's outside the draw set, and any other beyond the far wall. Booth scenes
/// always run; one that drains has to run to get empty; and one whose owner is gone has to notice.
pub open spec fn frozen(emitter: ParticleEmitter, sight: Sight) -> bool {
    match sight.prop_drawn {
        Some(drawn) => !drawn,
        None => !sight.booth && !emitter.draining && (emitter.owner is None || sight.owner_found)
            && !sight.within_wall,
    }
}

/// The draw set says whether the emitter is shown; those it does not apply to are left alone.
pub open spec fn visibility_after(emitter: ParticleEmitter, sight: Sight) -> Visibility {
    if frozen(emitter, sight) {
        Visibility::Hidden
    } else if sight.prop_drawn is Some || (!sight.booth && !emitter.draining && (
    emitter.owner is None || sight.owner_found)) {
        Visibility::Inherited
    } else {
        emitter.visibility
    }
}

/// What anchors the cloud this frame.
#[derive(Clone, Copy, Debug, PartialEq, Eq, Structural)]
pub enum AnchorRule {
    /// The place of the anchor entity, or the last one it had.
    Follow(u64),
    /// The emitter's own placement.
    Placement,
    /// Where it was spawned.
    Stand,
}

/// What an emitter does this frame.
#[derive(Clone, Copy, Debug, PartialEq, Eq, Structural)]
pub enum Tick {
    /// Nothing: its pool and its clocks stand still. `hide` is whether it was showing until now.
    Frozen { hide: bool },
    /// It and everything it drew with go.
    Despawn,
    /// It runs: it emits where `emitting`, and its cloud hangs from `anchor`.
    Run { emitting: bool, anchor: AnchorRule },
}

/// The emitter after a frame that runs: its owner is followed, and losing it starts the drain.
pub open spec fn followed(emitter: ParticleEmitter, sight: Sight) -> ParticleEmitter {
    let shown = ParticleEmitter { visibility: visibility_after(emitter, sight), ..emitter };
    if emitter.owner is Some && !sight.owner_found && !frozen(emitter, sight) {
        ParticleEmitter { owner: None, draining: true, ..shown }
    } else {
        shown
    }
}

/// What an emitter does. `live` is whether it or a child of it has a particle left, and `enabled`
/// whether its track lets it emit at this point of its clip.
pub open spec fn ticked(emitter: ParticleEmitter, sight: Sight, live: bool, enabled: bool) -> Tick {
    let next = followed(emitter, sight);
    if frozen(emitter, sight) {
        Tick::Frozen { hide: emitter.visibility != Visibility::Hidden }
    } else if next.draining && !live {
        Tick::Despawn
    } else {
        Tick::Run {
            emitting: !next.draining && enabled,
            anchor: match next.anchor {
                Some(entity) => AnchorRule::Follow(entity),
                None => if next.owner is None {
                    AnchorRule::Placement
                } else {
                    AnchorRule::Stand
                },
            },
        }
    }
}

/// Decide the frame of an emitter.
pub fn tick_emitter(emitter: &mut ParticleEmitter, sight: Sight, live: bool, enabled: bool) -> (tick:
    Tick)
    ensures
        *final(emitter) == followed(*old(emitter), sight),
        tick == ticked(*old(emitter), sight, live, enabled),
{
    let gated = match sight.prop_drawn {
        Some(_) => true,
        None => !sight.booth && !emitter.draining && (emitter.owner.is_none() || sight.owner_found),
    };
    let drawn = match sight.prop_drawn {
        Some(drawn) => drawn,
        None => sight.within_wall,
    };
    if gated && !drawn {
        let hide = emitter.visibility != Visibility::Hidden;
        emitter.visibility = Visibility::Hidden;
        return Tick::Frozen { hide };
    }
    if gated {
        emitter.visibility = Visibility::Inherited;
    }
    if emitter.owner.is_some() && !sight.owner_found {
        emitter.owner = None;
        emitter.draining = true;
    }
    if emitter.draining && !live {
        return Tick::Despawn;
    }
    let anchor = match emitter.anchor {
        Some(entity) => AnchorRule::Follow(entity),
        None => if emitter.owner.is_none() {
            AnchorRule::Placement
        } else {
            AnchorRule::Stand
        },
    };
    Tick::Run { emitting: !emitter.draining && enabled, anchor }
}

/// How one step moves a particle.
#[derive(Clone, Copy, Debug, PartialEq, Eq, Structural)]
pub struct Step {
    /// It takes the emitter's own motion along.
    pub follow: bool,
    /// It tumbles.
    pub tumble: bool,
    /// It is slowed.
    pub slow: bool,
}

/// The step of a particle.
pub open spec fn stepped(
    fresh: bool,
    age: Single,
    lifespan: Single,
    tumble: Single,
    drag: Single,
) -> Option<Step> {
    if lifespan.at_most(age) {
        None
    } else {
        Some(
            Step {
                follow: !fresh,
                tumble: Single::from_bits(LEAST_TUMBLE).below(tumble),
                slow: drag.nan() || drag.rank() != 0,
            },
        )
    }
}

/// Is a particle still to take its first step?
pub open spec fn fresh_after(fresh: bool, age: Single, lifespan: Single) -> bool {
    fresh && lifespan.at_most(age)
}

/// One step of a particle of this age: `None` where it has lived its span. On its first step a
/// particle does not take the emitter's motion along.
pub fn step_particle(fresh: &mut bool, age: Single, lifespan: Single, tumble: Single, drag: Single) -> (step:
    Option<Step>)
    ensures
        step == stepped(*old(fresh), age, lifespan, tumble, drag),
        *final(fresh) == fresh_after(*old(fresh), age, lifespan),
{
    if lifespan.is_at_most(age) {
        return None;
    }
    let follow = !*fresh;
    *fresh = false;
    let still = drag.is_at_most(zero()) && zero().is_at_most(drag);
    Some(
        Step { follow, tumble: Single::from_bits(LEAST_TUMBLE).is_below(tumble), slow: !still },
    )
}

/// Does a particle die on its way out?
pub open spec fn is_outbound(outward: Option<Single>) -> bool {
    outward is Some && zero().below(outward->0)
}

/// Does a particle die on its way out? `outward` is its step along the way from the origin, where the
/// emitter kills what moves outward.
pub fn dies_outbound(outward: Option<Single>) -> (r: bool)
    ensures
        r == is_outbound(outward),
{
    match outward {
        Some(along) => zero().is_below(along),
        None => false,
    }
}

/// The items whose flag is set, in order.
pub open spec fn surviving<P>(pool: Seq<P>, alive: Seq<bool>) -> Seq<P>
    decreases pool.len(),
{
    if pool.len() == 0 {
        seq![]
    } else if alive[pool.len() - 1] {
        surviving(pool.drop_last(), alive).push(pool.last())
    } else {
        surviving(pool.drop_last(), alive)
    }
}

/// Keep the particles that live, in the order they were born.
pub fn sweep<P>(pool: Vec<P>, alive: &Vec<bool>) -> (kept: Vec<P>)
    requires
        alive.len() == pool.len(),
    ensures
        kept@ == surviving(pool@, alive@),
{
    let ghost whole = pool@;
    let mut kept: Vec<P> = Vec::new();
    let mut i: usize = 0;
    for p in it: pool
        invariant
            it.seq() == whole,
            i == it.index(),
            alive.len() == whole.len(),
            kept@ == surviving(whole.take(i as int), alive@),
    {
        proof {
            assert(whole.take(i + 1).drop_last() == whole.take(i as int));
            assert(whole.take(i + 1).last() == p);
        }
        if alive[i] {
            kept.push(p);
        }
        i += 1;
    }
    assert(whole.take(whole.len() as int) == whole);
    kept
}

/// What becomes of the inherited velocity.
#[derive(Clone, Copy, Debug, PartialEq, Eq, Structural)]
pub enum Inherit {
    /// It stands as it was last read.
    Hold,
    /// It is read anew, and the interval starts over.
    Read,
    /// It is cleared, and the interval starts over.
    Clear,
}

/// What becomes of the inherited velocity, after so much time has gathered.
pub open spec fn inherited(gathered: Single, live: bool) -> Inherit {
    if !Single::from_bits(INHERIT_INTERVAL).below(gathered) {
        Inherit::Hold
    } else if live {
        Inherit::Read
    } else {
        Inherit::Clear
    }
}

/// The velocity that births inherit from the emitter's motion is read anew each time more than the
/// interval has gathered, and cleared then while nothing is live.
pub fn inherit_trigger(gathered: Single, live: bool) -> (r: Inherit)
    ensures
        r == inherited(gathered, live),
{
    if !Single::from_bits(INHERIT_INTERVAL).is_below(gathered) {
        Inherit::Hold
    } else if live {
        Inherit::Read
    } else {
        Inherit::Clear
    }
}

/// Are quads to be drawn?
pub open spec fn quads_drawn(geometry: bool, resident: bool) -> bool {
    !geometry && resident
}

/// Are quads to be drawn: not for an emitter of model instances, and not before the texture is there?
pub fn draws_quads(geometry: bool, resident: bool) -> (r: bool)
    ensures
        r == quads_drawn(geometry, resident),
{
    !geometry && resident
}

/// An emitter that has lost its owner emits nothing more, and drains until it is empty: it goes on the
/// first frame in which nothing of it is left, and not before.
pub proof fn an_orphan_drains_and_goes(emitter: ParticleEmitter, sight: Sight, enabled: bool)
    requires
        emitter.owner is Some,
        !sight.owner_found,
        sight.prop_drawn is None,
    ensures
        followed(emitter, sight).draining,
        ticked(emitter, sight, false, enabled) == Tick::Despawn,
        ticked(emitter, sight, true, enabled) matches Tick::Run { emitting, .. } && !emitting,
{
}

/// One that drains is never frozen, unless it is a placed prop's: it always gets to be empty.
pub proof fn a_draining_emitter_is_never_stranded(
    emitter: ParticleEmitter,
    sight: Sight,
    live: bool,
    enabled: bool,
)
    requires
        emitter.draining,
        sight.prop_drawn is None,
    ensures
        !frozen(emitter, sight),
        !(ticked(emitter, sight, live, enabled) is Frozen),
{
}

/// A frozen emitter stands exactly as it was but for being hidden, and when it comes back into sight
/// it goes on from there.
pub proof fn freezing_keeps_the_emitter(emitter: ParticleEmitter, sight: Sight)
    requires
        frozen(emitter, sight),
    ensures
        followed(emitter, sight) == (ParticleEmitter {
            visibility: Visibility::Hidden,
            ..emitter
        }),
{
}

/// A sweep keeps exactly the living: as many as there are flags set, and never more than there were.
pub proof fn a_sweep_keeps_the_living<P>(pool: Seq<P>, alive: Seq<bool>)
    requires
        pool.len() <= alive.len(),
    ensures
        surviving(pool, alive).len() <= pool.len(),
        (forall|i: int| 0 <= i < pool.len() ==> #[trigger] alive[i]) ==> surviving(pool, alive)
            == pool,
        (forall|i: int| 0 <= i < pool.len() ==> !#[trigger] alive[i]) ==> surviving(
            pool,
            alive,
        ).len() == 0,
    decreases pool.len(),
{
    if pool.len() > 0 {
        a_sweep_keeps_the_living(pool.drop_last(), alive);
    }
}

/// Two sets of layers overlap unless they are disjoint, whichever is asked of the other.
pub proof fn overlap_is_mutual(a: Set<u32>, b: Set<u32>)
    ensures
        overlap(a, b) == overlap(b, a),
        overlap(a, b) == !a.disjoint(b),
        forall|layer: u32| a.contains(layer) && #[trigger] b.contains(layer) ==> overlap(a, b),
{
    assert forall|layer: u32| a.contains(layer) && #[trigger] b.contains(layer) implies overlap(
        a,
        b,
    ) by {
        assert(a.contains(layer));
    }
    if overlap(a, b) {
        let layer = choose|layer: u32| #[trigger] a.contains(layer) && b.contains(layer);
        assert(b.contains(layer) && a.contains(layer));
    }
    if overlap(b, a) {
        let layer = choose|layer: u32| #[trigger] b.contains(layer) && a.contains(layer);
        assert(a.contains(layer) && b.contains(layer));
    }
}

/// The camera that is found sees one of the layers, and none before it does; where none is found none
/// does.
pub proof fn the_first_camera_that_sees(cameras: Seq<Layers>, layers: Set<u32>)
    requires
        cameras.len() <= usize::MAX,
    ensures
        match first_seeing(cameras, layers) {
            Some(i) => i < cameras.len() && overlap(cameras[i as int]@, layers) && forall|k: int|
                0 <= k < i ==> !overlap(#[trigger] cameras[k]@, layers),
            None => forall|k: int| 0 <= k < cameras.len() ==> !overlap(#[trigger] cameras[k]@, layers),
        },
    decreases cameras.len(),
{
    if cameras.len() > 0 {
        let before = cameras.drop_last();
        the_first_camera_that_sees(before, layers);
        assert(forall|k: int| 0 <= k < before.len() ==> before[k] == cameras[k]);
    }
}

/// An emitter on no layer of its own, or on one that the world is on, faces the world; any other faces
/// the first camera that sees it.
pub proof fn only_what_is_apart_has_a_booth(own: Set<u32>, world: Set<u32>, cameras: Seq<Layers>)
    ensures
        booth_of(None, world, cameras) is None,
        overlap(own, world) ==> booth_of(Some(own), world, cameras) is None,
        !overlap(own, world) ==> booth_of(Some(own), world, cameras) == first_seeing(cameras, own),
{
}

/// A prop's emitter is frozen just while its prop is not drawn. Any other is frozen only beyond the far
/// wall, and there not in a booth, nor while it drains, nor with its owner gone.
pub proof fn what_is_out_of_sight_freezes(emitter: ParticleEmitter, sight: Sight)
    ensures
        sight.prop_drawn matches Some(drawn) ==> frozen(emitter, sight) == !drawn,
        sight.prop_drawn is None && sight.within_wall ==> !frozen(emitter, sight),
        sight.prop_drawn is None && sight.booth ==> !frozen(emitter, sight),
        sight.prop_drawn is None && emitter.draining ==> !frozen(emitter, sight),
        sight.prop_drawn is None && emitter.owner is Some && !sight.owner_found ==> !frozen(
            emitter,
            sight,
        ),
        sight.prop_drawn is None && !sight.within_wall && !sight.booth && !emitter.draining && (
        emitter.owner is None || sight.owner_found) ==> frozen(emitter, sight),
{
}

/// A frame hides a frozen emitter, shows one that is in the draw set again, and leaves those alone that
/// the draw set does not apply to. Besides that it only ever takes a lost owner away, which begins the
/// drain; a drain never ends.
pub proof fn a_frame_hides_shows_or_orphans(emitter: ParticleEmitter, sight: Sight)
    ensures
        ({
            let next = followed(emitter, sight);
            let exempt = sight.booth || emitter.draining || emitter.owner is Some
                && !sight.owner_found;
            let lost = emitter.owner is Some && !sight.owner_found && !frozen(emitter, sight);
            &&& frozen(emitter, sight) ==> next.visibility == Visibility::Hidden
            &&& sight.prop_drawn == Some(true) ==> next.visibility == Visibility::Inherited
            &&& sight.prop_drawn is None && !exempt && sight.within_wall ==> next.visibility
                == Visibility::Inherited
            &&& sight.prop_drawn is None && exempt ==> next.visibility == emitter.visibility
            &&& lost ==> next.owner is None && next.draining
            &&& !lost ==> next.owner == emitter.owner && next.draining == emitter.draining
            &&& next.attach == emitter.attach
            &&& next.anchor == emitter.anchor
            &&& next.gate_prev == emitter.gate_prev
            &&& next.rng == emitter.rng
        }),
{
}

/// A frozen emitter does nothing, and says whether it had been showing. One that drains and has nothing
/// left goes. All others run: they emit where their track lets them and they do not drain; and their
/// cloud hangs from its anchor, or without one from the emitter's placement where nobody owns it, or
/// stands where it was spawned.
pub proof fn what_an_emitter_does(
    emitter: ParticleEmitter,
    sight: Sight,
    live: bool,
    enabled: bool,
)
    ensures
        ({
            let tick = ticked(emitter, sight, live, enabled);
            let next = followed(emitter, sight);
            &&& frozen(emitter, sight) ==> (tick matches Tick::Frozen { hide } && (hide
                <==> emitter.visibility == Visibility::Inherited))
            &&& !frozen(emitter, sight) && next.draining && !live ==> tick == Tick::Despawn
            &&& !frozen(emitter, sight) && (live || !next.draining) ==> (tick matches Tick::Run {
                emitting,
                anchor,
            } && {
                &&& emitting <==> enabled && !next.draining
                &&& emitter.anchor matches Some(entity) ==> anchor == AnchorRule::Follow(entity)
                &&& emitter.anchor is None && next.owner is None ==> anchor
                    == AnchorRule::Placement
                &&& emitter.anchor is None && next.owner is Some ==> anchor == AnchorRule::Stand
            })
        }),
{
}

/// A particle that has lived its span takes no step; any other does. It takes the emitter's motion along
/// from its second step on, tumbles above the least speed, and is slowed unless its drag is nought.
pub proof fn a_living_particle_steps(
    fresh: bool,
    age: Single,
    lifespan: Single,
    tumble: Single,
    drag: Single,
)
    ensures
        ({
            let step = stepped(fresh, age, lifespan, tumble, drag);
            &&& lifespan.at_most(age) ==> step is None && fresh_after(fresh, age, lifespan) == fresh
            &&& !lifespan.at_most(age) ==> !fresh_after(fresh, age, lifespan) && (step matches Some(
                s,
            ) && {
                &&& s.follow == !fresh
                &&& s.tumble == Single::from_bits(0x38d1_b717).below(tumble)
                &&& s.slow == !(drag.at_most(zero()) && zero().at_most(drag))
            })
        }),
{
}

/// A particle dies outbound only where that is asked of it, and then when its step leads outward.
pub proof fn only_the_outbound_die(along: Single)
    ensures
        !is_outbound(None),
        is_outbound(Some(along)) <==> zero().below(along),
{
}

/// The velocity that births inherit stands until more than its interval has gathered; then it is read
/// anew while something is live, and cleared while nothing is.
pub proof fn motion_is_read_each_interval(gathered: Single)
    ensures
        ({
            let due = Single::from_bits(0x3d08_8889).below(gathered);
            &&& !due ==> inherited(gathered, true) == Inherit::Hold && inherited(gathered, false)
                == Inherit::Hold
            &&& due ==> inherited(gathered, true) == Inherit::Read && inherited(gathered, false)
                == Inherit::Clear
        }),
{
}

/// Quads are drawn only with their texture there, and not for an emitter of models.
pub proof fn quads_need_their_texture(geometry: bool, resident: bool)
    ensures
        quads_drawn(geometry, resident) ==> resident && !geometry,
        resident && !geometry ==> quads_drawn(geometry, resident),
{
}

/// The survivors are the particles whose own flag is set, in the order in which they were born.
pub proof fn survivors_keep_their_order<P>(pool: Seq<P>, alive: Seq<bool>)
    requires
        pool.len() <= alive.len(),
    ensures
        surviving(pool, alive) == Seq::new(pool.len(), |i: int| (pool[i], alive[i])).filter(
            |p: (P, bool)| p.1,
        ).map_values(|p: (P, bool)| p.0),
    decreases pool.len(),
{
    reveal(Seq::filter);
    let marked = Seq::new(pool.len(), |i: int| (pool[i], alive[i]));
    if pool.len() > 0 {
        let before = pool.drop_last();
        survivors_keep_their_order(before, alive);
        assert(marked.drop_last() =~= Seq::new(before.len(), |i: int| (before[i], alive[i])));
    }
    assert(surviving(pool, alive) =~= marked.filter(|p: (P, bool)| p.1).map_values(
        |p: (P, bool)| p.0,
    ));
}

} // verus!
