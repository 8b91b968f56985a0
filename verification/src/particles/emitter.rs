//! Emitters and their children: which definitions emit at all, and what a fresh emitter starts from.
use vstd::prelude::*;

use crate::particles::rng::{child_seed_start, child_start, next_seed, place_seed, seed_at, spread};
use crate::single::{zero, Point, Single};

verus! {

/// The most emitters of a recursion model that become children.
pub const MAX_CHILDREN: usize = 4;

/// What the spawn rules read of an emitter's definition.
#[derive(Clone, Copy, Debug, PartialEq, Eq, Structural)]
pub struct EmitterDef {
    /// Its texture resolved.
    pub textured: bool,
    /// It draws instances of a model rather than quads.
    pub geometry: bool,
    pub lifespan: Single,
    /// The highest rate of its emission track.
    pub peak_rate: Single,
}

/// The definition lets particles live and lets some be born.
pub open spec fn emits(def: EmitterDef) -> bool {
    !def.lifespan.at_most(zero()) && !def.peak_rate.at_most(zero())
}

fn does_emit(def: &EmitterDef) -> (r: bool)
    ensures
        r == emits(*def),
{
    !def.lifespan.is_at_most(zero()) && !def.peak_rate.is_at_most(zero())
}

/// Whether an emitter's mesh is shown.
#[derive(Clone, Copy, Debug, PartialEq, Eq, Structural)]
pub enum Visibility {
    /// As its parent is.
    Inherited,
    Hidden,
}

/// A live emitter, as far as its lifecycle goes.
#[derive(Clone, Copy, Debug, PartialEq, Eq, Structural)]
pub struct ParticleEmitter {
    /// The entity it follows, if it follows one.
    pub owner: Option<u64>,
    /// The entity whose rotation its cloud is drawn through.
    pub attach: Option<u64>,
    /// The entity whose place carries its cloud.
    pub anchor: Option<u64>,
    /// Its owner is gone: it emits nothing more and goes when it is empty.
    pub draining: bool,
    /// The emission gate was open last frame.
    pub gate_prev: bool,
    pub rng: u32,
    pub visibility: Visibility,
}

/// An emitter that was just spawned.
pub open spec fn fresh_emitter(
    place: Point,
    owner: Option<u64>,
    attach: Option<u64>,
    anchor: Option<u64>,
) -> ParticleEmitter {
    ParticleEmitter {
        owner,
        attach,
        anchor,
        draining: false,
        gate_prev: false,
        rng: place_seed(place),
        visibility: Visibility::Inherited,
    }
}

/// The emitter that is spawned, where one is.
pub open spec fn spawn_of(
    def: EmitterDef,
    disabled: bool,
    place: Point,
    owner: Option<u64>,
    attach: Option<u64>,
    anchor: Option<u64>,
) -> Option<ParticleEmitter> {
    if !disabled && (def.textured || def.geometry) && emits(def) {
        Some(fresh_emitter(place, owner, attach, anchor))
    } else {
        None
    }
}

/// Spawn an emitter at a place, where it has something to draw and something to emit and emitters are
/// not switched off.
pub fn spawn_emitter(
    def: &EmitterDef,
    disabled: bool,
    place: Point,
    owner: Option<u64>,
    attach: Option<u64>,
    anchor: Option<u64>,
) -> (emitter: Option<ParticleEmitter>)
    ensures
        emitter == spawn_of(*def, disabled, place, owner, attach, anchor),
{
    if disabled || (!def.textured && !def.geometry) || !does_emit(def) {
        return None;
    }
    Some(
        ParticleEmitter {
            owner,
            attach,
            anchor,
            draining: false,
            gate_prev: false,
            rng: seed_at(place),
            visibility: Visibility::Inherited,
        },
    )
}

/// A child emitter: which emitter of the recursion model it is, and its seed.
#[derive(Clone, Copy, Debug, PartialEq, Eq, Structural)]
pub struct ChildEmitter {
    pub index: usize,
    pub rng: u32,
}

/// A definition becomes a child: it has a texture and emits.
pub open spec fn wires(def: EmitterDef) -> bool {
    def.textured && emits(def)
}

/// The seed after the children among a run of definitions.
pub open spec fn seed_after(defs: Seq<EmitterDef>, start: u32) -> u32
    decreases defs.len(),
{
    if defs.len() == 0 {
        start
    } else if wires(defs.last()) {
        spread(seed_after(defs.drop_last(), start))
    } else {
        seed_after(defs.drop_last(), start)
    }
}

/// The children among a run of definitions, each with a seed of its own.
pub open spec fn wired(defs: Seq<EmitterDef>, start: u32) -> Seq<ChildEmitter>
    decreases defs.len(),
{
    if defs.len() == 0 {
        seq![]
    } else if wires(defs.last()) {
        wired(defs.drop_last(), start).push(
            ChildEmitter { index: (defs.len() - 1) as usize, rng: seed_after(defs, start) },
        )
    } else {
        wired(defs.drop_last(), start)
    }
}

/// The definitions of a recursion model that are looked at.
pub open spec fn considered(defs: Seq<EmitterDef>) -> Seq<EmitterDef> {
    defs.take(
        if defs.len() < MAX_CHILDREN {
            defs.len() as int
        } else {
            MAX_CHILDREN as int
        },
    )
}

/// Wire the children of an emitter from the emitters of its recursion model: of the first few, those
/// that draw and emit.
pub fn wire_child_emitters(rng: u32, defs: &Vec<EmitterDef>) -> (children: Vec<ChildEmitter>)
    ensures
        children@ == wired(considered(defs@), child_start(rng)),
{
    let limit: usize = if defs.len() < MAX_CHILDREN {
        defs.len()
    } else {
        MAX_CHILDREN
    };
    let mut seed: u32 = child_seed_start(rng);
    let mut children: Vec<ChildEmitter> = Vec::new();
    for i in 0..limit
        invariant
            limit <= defs.len(),
            seed == seed_after(defs@.take(i as int), child_start(rng)),
            children@ == wired(defs@.take(i as int), child_start(rng)),
    {
        assert(defs@.take(i + 1).drop_last() == defs@.take(i as int));
        if defs[i].textured && does_emit(&defs[i]) {
            seed = next_seed(seed);
            children.push(ChildEmitter { index: i, rng: seed });
        }
    }
    children
}

/// No emitter has more than four children, and every child is one of the first emitters of its model,
/// draws, emits, and has a living seed.
pub proof fn children_are_few_and_alive(defs: Seq<EmitterDef>, start: u32)
    ensures
        wired(considered(defs), start).len() <= MAX_CHILDREN,
        forall|i: int|
            0 <= i < wired(considered(defs), start).len() ==> {
                let child = #[trigger] wired(considered(defs), start)[i];
                child.index < defs.len() && child.index < MAX_CHILDREN && wires(
                    defs[child.index as int],
                ) && child.rng != 0
            },
{
    children_are_within(considered(defs), start);
}

proof fn children_are_within(defs: Seq<EmitterDef>, start: u32)
    requires
        defs.len() <= MAX_CHILDREN,
    ensures
        wired(defs, start).len() <= defs.len(),
        forall|i: int|
            0 <= i < wired(defs, start).len() ==> {
                let child = #[trigger] wired(defs, start)[i];
                child.index < defs.len() && wires(defs[child.index as int]) && child.rng != 0
            },
    decreases defs.len(),
{
    if defs.len() > 0 {
        children_are_within(defs.drop_last(), start);
        let seed = seed_after(defs.drop_last(), start);
        let product = seed.wrapping_mul(crate::particles::rng::SEED_SPREAD);
        assert(product | 1 != 0) by (bit_vector);
    }
}

/// An emitter spawns where it has a texture or a model to draw, a life for its particles and a rate to
/// bear them at, and emitters are not switched off. It follows, hangs from and is drawn through what it
/// was given, starts from the seed of its place, and has not emitted yet.
pub proof fn an_emitter_spawns_to_emit(
    def: EmitterDef,
    disabled: bool,
    place: Point,
    owner: Option<u64>,
    attach: Option<u64>,
    anchor: Option<u64>,
)
    ensures
        ({
            let emitter = spawn_of(def, disabled, place, owner, attach, anchor);
            &&& disabled ==> emitter is None
            &&& !def.textured && !def.geometry ==> emitter is None
            &&& def.lifespan.at_most(zero()) ==> emitter is None
            &&& def.peak_rate.at_most(zero()) ==> emitter is None
            &&& !disabled && (def.textured || def.geometry) && zero().below(def.lifespan)
                && zero().below(def.peak_rate) ==> emitter is Some
            &&& emitter matches Some(e) ==> {
                &&& e.owner == owner
                &&& e.attach == attach
                &&& e.anchor == anchor
                &&& !e.draining && !e.gate_prev
                &&& e.rng == place_seed(place)
                &&& e.visibility == Visibility::Inherited
            }
        }),
{
}

/// The children are those of the first four emitters of the model that have a texture and emit: each of
/// them, none of the others, and in their order. The first has the seed after the start, and each that
/// follows the seed after its elder's.
pub proof fn the_first_that_draw_become_children(defs: Seq<EmitterDef>, start: u32)
    ensures
        ({
            let looked_at = considered(defs);
            let children = wired(looked_at, start);
            &&& looked_at.len() == (if defs.len() < 4 {
                defs.len()
            } else {
                4
            })
            &&& looked_at == defs.take(looked_at.len() as int)
            &&& forall|j: int|
                0 <= j < looked_at.len() && (#[trigger] defs[j]).textured && zero().below(
                    defs[j].lifespan,
                ) && zero().below(defs[j].peak_rate) ==> exists|i: int|
                    0 <= i < children.len() && (#[trigger] children[i]).index == j
            &&& forall|i: int|
                0 <= i < children.len() ==> {
                    let own = defs[(#[trigger] children[i]).index as int];
                    &&& children[i].index < looked_at.len()
                    &&& own.textured && !own.lifespan.at_most(zero()) && !own.peak_rate.at_most(
                        zero(),
                    )
                }
            &&& forall|i: int, j: int|
                0 <= i < j < children.len() ==> (#[trigger] children[i]).index < (
                #[trigger] children[j]).index
            &&& children.len() > 0 ==> children[0].rng == spread(start)
            &&& forall|i: int|
                0 < i < children.len() ==> (#[trigger] children[i]).rng == spread(
                    children[i - 1].rng,
                )
        }),
{
    children_are_those_that_draw(considered(defs), start);
    let looked_at = considered(defs);
    assert forall|j: int|
        0 <= j < looked_at.len() && (#[trigger] defs[j]).textured && zero().below(defs[j].lifespan)
            && zero().below(defs[j].peak_rate) implies exists|i: int|
        0 <= i < wired(looked_at, start).len() && (#[trigger] wired(looked_at, start)[i]).index
            == j by {
        assert(looked_at[j] == defs[j]);
    }
}

proof fn children_are_those_that_draw(defs: Seq<EmitterDef>, start: u32)
    requires
        defs.len() <= MAX_CHILDREN,
    ensures
        ({
            let children = wired(defs, start);
            &&& forall|j: int|
                0 <= j < defs.len() && wires(#[trigger] defs[j]) ==> exists|i: int|
                    0 <= i < children.len() && (#[trigger] children[i]).index == j
            &&& forall|i: int|
                0 <= i < children.len() ==> (#[trigger] children[i]).index < defs.len() && wires(
                    defs[children[i].index as int],
                )
            &&& forall|i: int, j: int|
                0 <= i < j < children.len() ==> (#[trigger] children[i]).index < (
                #[trigger] children[j]).index
            &&& children.len() > 0 ==> children[0].rng == spread(start)
            &&& forall|i: int|
                0 < i < children.len() ==> (#[trigger] children[i]).rng == spread(
                    children[i - 1].rng,
                )
            &&& seed_after(defs, start) == (if children.len() > 0 {
                children.last().rng
            } else {
                start
            })
        }),
    decreases defs.len(),
{
    if defs.len() > 0 {
        let before = defs.drop_last();
        children_are_those_that_draw(before, start);
        let children = wired(defs, start);
        let elder = wired(before, start);
        assert forall|j: int| 0 <= j < defs.len() && wires(#[trigger] defs[j]) implies exists|i: int|
            0 <= i < children.len() && (#[trigger] children[i]).index == j by {
            if j < before.len() {
                assert(before[j] == defs[j]);
                let i = choose|i: int| 0 <= i < elder.len() && (#[trigger] elder[i]).index == j;
                assert(children[i] == elder[i]);
            } else {
                assert(children[children.len() - 1].index == j);
            }
        }
        assert forall|i: int| 0 <= i < children.len() implies (#[trigger] children[i]).index
            < defs.len() && wires(defs[children[i].index as int]) by {
            if i < elder.len() {
                assert(children[i] == elder[i]);
                assert(before[elder[i].index as int] == defs[elder[i].index as int]);
            }
        }
        assert forall|i: int, j: int| 0 <= i < j < children.len() implies (#[trigger] children[i]).index
            < (#[trigger] children[j]).index by {
            assert(children[i] == elder[i]);
            if j < elder.len() {
                assert(children[j] == elder[j]);
            }
        }
        assert forall|i: int| 0 < i < children.len() implies (#[trigger] children[i]).rng == spread(
            children[i - 1].rng,
        ) by {
            assert(children[i - 1] == elder[i - 1]);
            if i < elder.len() {
                assert(children[i] == elder[i]);
            }
        }
    }
}

} // verus!
