//! The studio light: every material that goes into a booth has a twin that is lit by it.
use vstd::prelude::*;
use std::collections::HashMap;

verus! {

broadcast use vstd::std_specs::hash::group_hash_axioms;

/// The light of the booths, and the twins made so far, by the material each was made from.
pub struct BoothLight {
    /// Is there a buffer to light them by?
    pub ready: bool,
    pub variants: HashMap<u64, u64>,
}

/// How a twin is made: as its source is, but for the light; and for an authored rig of lights also
/// shaded by that rig and without fog.
#[derive(Clone, Copy, Debug, PartialEq, Eq, Structural)]
pub struct Recipe {
    pub rig: bool,
}

/// A material to draw with, and how to make it where it is new.
#[derive(Clone, Copy, Debug, PartialEq, Eq, Structural)]
pub struct Twin {
    pub material: u64,
    pub make: Option<Recipe>,
}

/// The twin of a material: the one that was made before; the material itself where it cannot be read
/// (`known` is false); or else a new one, under the handle `fresh`.
pub open spec fn twin_of(
    variants: Map<u64, u64>,
    world: u64,
    known: bool,
    fresh: u64,
    rig: bool,
) -> Twin {
    if variants.dom().contains(world) {
        Twin { material: variants[world], make: None }
    } else if !known {
        Twin { material: world, make: None }
    } else {
        Twin { material: fresh, make: Some(Recipe { rig }) }
    }
}

/// The twins after one was asked for.
pub open spec fn twins_after(variants: Map<u64, u64>, world: u64, twin: Twin) -> Map<u64, u64> {
    if twin.make is Some {
        variants.insert(world, twin.material)
    } else {
        variants
    }
}

/// The twin of a material.
pub fn material_variant(
    variants: &mut HashMap<u64, u64>,
    world: u64,
    known: bool,
    fresh: u64,
    rig: bool,
) -> (twin: Twin)
    ensures
        twin == twin_of(old(variants)@, world, known, fresh, rig),
        final(variants)@ == twins_after(old(variants)@, world, twin),
{
    if let Some(twin) = variants.get(&world) {
        return Twin { material: *twin, make: None };
    }
    if !known {
        return Twin { material: world, make: None };
    }
    variants.insert(world, fresh);
    Twin { material: fresh, make: Some(Recipe { rig }) }
}

/// The twin of a material under the studio light.
pub open spec fn studio_twin(
    ready: bool,
    variants: Map<u64, u64>,
    world: u64,
    known: bool,
    fresh: u64,
) -> Twin {
    if ready {
        twin_of(variants, world, known, fresh, false)
    } else {
        Twin { material: world, make: None }
    }
}

/// The twins after one was asked for under the studio light.
pub open spec fn studio_twins(
    ready: bool,
    variants: Map<u64, u64>,
    world: u64,
    twin: Twin,
) -> Map<u64, u64> {
    if ready {
        twins_after(variants, world, twin)
    } else {
        variants
    }
}

impl BoothLight {
    /// No buffer, no twins.
    pub fn new() -> (light: BoothLight)
        ensures
            !light.ready,
            light.variants@ == Map::<u64, u64>::empty(),
    {
        BoothLight { ready: false, variants: HashMap::new() }
    }

    /// The twin of a material under the studio light; the material itself while there is no light.
    pub fn variant(&mut self, world: u64, known: bool, fresh: u64) -> (twin: Twin)
        ensures
            final(self).ready == old(self).ready,
            twin == studio_twin(old(self).ready, old(self).variants@, world, known, fresh),
            final(self).variants@ == studio_twins(
                old(self).ready,
                old(self).variants@,
                world,
                twin,
            ),
    {
        if !self.ready {
            return Twin { material: world, make: None };
        }
        material_variant(&mut self.variants, world, known, fresh, false)
    }
}

/// The twins after a run of materials was relit, each under the handle beside it where it is new;
/// `known` are the materials that can be read.
pub open spec fn twins_over(
    ready: bool,
    variants: Map<u64, u64>,
    worlds: Seq<u64>,
    known: Set<u64>,
    fresh: Seq<u64>,
) -> Map<u64, u64>
    decreases worlds.len(),
{
    if !ready || worlds.len() == 0 {
        variants
    } else {
        let before = twins_over(ready, variants, worlds.drop_last(), known, fresh);
        let world = worlds.last();
        let twin = twin_of(before, world, known.contains(world), fresh[worlds.len() - 1], false);
        twins_after(before, world, twin)
    }
}

/// The twins that are made on the way, each with its source.
pub open spec fn made_over(
    ready: bool,
    variants: Map<u64, u64>,
    worlds: Seq<u64>,
    known: Set<u64>,
    fresh: Seq<u64>,
) -> Seq<(u64, u64)>
    decreases worlds.len(),
{
    if !ready || worlds.len() == 0 {
        Seq::empty()
    } else {
        let made = made_over(ready, variants, worlds.drop_last(), known, fresh);
        let before = twins_over(ready, variants, worlds.drop_last(), known, fresh);
        let world = worlds.last();
        if known.contains(world) && !before.dom().contains(world) {
            made.push((world, fresh[worlds.len() - 1]))
        } else {
            made
        }
    }
}

/// What a material is drawn with in a booth: its twin, or itself where it has none.
pub open spec fn relit(ready: bool, variants: Map<u64, u64>, world: u64) -> u64 {
    if ready && variants.dom().contains(world) {
        variants[world]
    } else {
        world
    }
}

/// Materials under the studio light, and the twins to make for them.
pub struct Relit {
    pub materials: Vec<u64>,
    pub made: Vec<(u64, u64)>,
}

impl BoothLight {
    /// Put a run of materials under the studio light; `textures` has those that can be read.
    pub fn relight(
        &mut self,
        worlds: &Vec<u64>,
        textures: &HashMap<u64, Option<u64>>,
        fresh: &Vec<u64>,
    ) -> (r: Relit)
        requires
            worlds@.len() <= fresh@.len(),
        ensures
            final(self).ready == old(self).ready,
            final(self).variants@ == twins_over(
                old(self).ready,
                old(self).variants@,
                worlds@,
                textures@.dom(),
                fresh@,
            ),
            r.materials@ == worlds@.map_values(
                |world: u64| relit(final(self).ready, final(self).variants@, world),
            ),
            r.made@ == made_over(
                old(self).ready,
                old(self).variants@,
                worlds@,
                textures@.dom(),
                fresh@,
            ),
    {
        let ghost ready = self.ready;
        let ghost start = self.variants@;
        let mut materials: Vec<u64> = Vec::new();
        let mut made: Vec<(u64, u64)> = Vec::new();
        assert(worlds@.take(0) == Seq::<u64>::empty());
        for i in 0..worlds.len()
            invariant
                worlds@.len() <= fresh@.len(),
                self.ready == ready,
                self.variants@ == twins_over(
                    ready,
                    start,
                    worlds@.take(i as int),
                    textures@.dom(),
                    fresh@,
                ),
                made@ == made_over(ready, start, worlds@.take(i as int), textures@.dom(), fresh@),
                materials@.len() == i,
                forall|k: int|
                    0 <= k < i ==> #[trigger] materials@[k] == relit(
                        ready,
                        self.variants@,
                        worlds@[k],
                    ),
                forall|k: int|
                    0 <= k < i && ready && textures@.dom().contains(#[trigger] worlds@[k])
                        ==> self.variants@.dom().contains(worlds@[k]),
        {
            assert(worlds@.take(i + 1).drop_last() == worlds@.take(i as int));
            let world = worlds[i];
            let twin = self.variant(world, textures.contains_key(&world), fresh[i]);
            materials.push(twin.material);
            if twin.make.is_some() {
                made.push((world, twin.material));
            }
        }
        assert(worlds@.take(worlds@.len() as int) == worlds@);
        assert(materials@ =~= worlds@.map_values(
            |world: u64| relit(self.ready, self.variants@, world),
        ));
        Relit { materials, made }
    }
}

/// What was relit once is settled: to relight it again makes nothing and changes no twin.
pub proof fn relighting_settles(
    variants: Map<u64, u64>,
    worlds: Seq<u64>,
    known: Set<u64>,
    fresh: Seq<u64>,
    fresh_again: Seq<u64>,
)
    ensures
        ({
            let after = twins_over(true, variants, worlds, known, fresh);
            &&& twins_over(true, after, worlds, known, fresh_again) == after
            &&& made_over(true, after, worlds, known, fresh_again).len() == 0
        }),
{
    let after = twins_over(true, variants, worlds, known, fresh);
    twins_are_made(variants, worlds, known, fresh);
    nothing_is_made(after, worlds, known, fresh_again);
}

proof fn twins_are_made(
    variants: Map<u64, u64>,
    worlds: Seq<u64>,
    known: Set<u64>,
    fresh: Seq<u64>,
)
    ensures
        forall|k: int|
            0 <= k < worlds.len() && known.contains(#[trigger] worlds[k]) ==> twins_over(
                true,
                variants,
                worlds,
                known,
                fresh,
            ).dom().contains(worlds[k]),
    decreases worlds.len(),
{
    if worlds.len() > 0 {
        let before = worlds.drop_last();
        twins_are_made(variants, before, known, fresh);
        assert forall|k: int|
            0 <= k < worlds.len() && known.contains(#[trigger] worlds[k]) implies twins_over(
            true,
            variants,
            worlds,
            known,
            fresh,
        ).dom().contains(worlds[k]) by {
            if k < before.len() {
                assert(before[k] == worlds[k]);
            }
        }
    }
}

proof fn nothing_is_made(
    variants: Map<u64, u64>,
    worlds: Seq<u64>,
    known: Set<u64>,
    fresh: Seq<u64>,
)
    requires
        forall|k: int|
            0 <= k < worlds.len() && known.contains(#[trigger] worlds[k])
                ==> variants.dom().contains(worlds[k]),
    ensures
        twins_over(true, variants, worlds, known, fresh) == variants,
        made_over(true, variants, worlds, known, fresh).len() == 0,
    decreases worlds.len(),
{
    if worlds.len() > 0 {
        let before = worlds.drop_last();
        assert forall|k: int| 0 <= k < before.len() && known.contains(
            #[trigger] before[k],
        ) implies variants.dom().contains(before[k]) by {
            assert(before[k] == worlds[k]);
        }
        nothing_is_made(variants, before, known, fresh);
        assert(worlds[worlds.len() - 1] == worlds.last());
    }
}

/// A material has one twin: whatever was asked for in between, it is made once, and the same one comes
/// back every time.
pub proof fn a_material_has_one_twin(
    variants: Map<u64, u64>,
    world: u64,
    fresh: u64,
    rig: bool,
    other: u64,
    other_known: bool,
    other_fresh: u64,
    known_again: bool,
    fresh_again: u64,
)
    ensures
        ({
            let first = twin_of(variants, world, true, fresh, rig);
            let after = twins_after(variants, world, first);
            let between = twin_of(after, other, other_known, other_fresh, rig);
            let later = twins_after(after, other, between);
            let again = twin_of(later, world, known_again, fresh_again, rig);
            again.material == first.material && again.make is None
        }),
{
}

/// A material that has a twin is drawn with it. One that has none gets one under the fresh handle, made
/// for the rig of lights that was asked for and kept for the next time; unless it cannot be read, and
/// then it stands for itself and nothing is kept.
pub proof fn a_twin_is_found_or_made(
    variants: Map<u64, u64>,
    world: u64,
    known: bool,
    fresh: u64,
    rig: bool,
)
    ensures
        ({
            let twin = twin_of(variants, world, known, fresh, rig);
            let after = twins_after(variants, world, twin);
            let had = variants.dom().contains(world);
            &&& had ==> twin.material == variants[world] && twin.make is None && after == variants
            &&& !had && known ==> {
                &&& twin.material == fresh
                &&& twin.make == Some(Recipe { rig })
                &&& after == variants.insert(world, fresh)
            }
            &&& !had && !known ==> twin.material == world && twin.make is None && after == variants
        }),
{
}

/// Without a light every material stands for itself and no twin is kept; with one, twins are the
/// studio's, and not those of an authored rig.
pub proof fn no_light_makes_no_twin(variants: Map<u64, u64>, world: u64, known: bool, fresh: u64)
    ensures
        ({
            let dark = studio_twin(false, variants, world, known, fresh);
            let lit = studio_twin(true, variants, world, known, fresh);
            &&& dark.material == world && dark.make is None
            &&& studio_twins(false, variants, world, dark) == variants
            &&& lit == twin_of(variants, world, known, fresh, false)
            &&& studio_twins(true, variants, world, lit) == twins_after(variants, world, lit)
            &&& relit(false, variants, world) == world
            &&& variants.dom().contains(world) ==> relit(true, variants, world) == variants[world]
            &&& !variants.dom().contains(world) ==> relit(true, variants, world) == world
        }),
{
}

/// Relighting keeps every twin that there was. Each material that can be read and had none gets one,
/// under the handle beside the first place where it stands; nothing else does. Those, and no others,
/// are made. Without a light nothing changes.
pub proof fn relighting_makes_what_is_missing(
    variants: Map<u64, u64>,
    worlds: Seq<u64>,
    known: Set<u64>,
    fresh: Seq<u64>,
    world: u64,
    first: int,
)
    requires
        worlds.len() <= fresh.len(),
    ensures
        ({
            let after = twins_over(true, variants, worlds, known, fresh);
            let made = made_over(true, variants, worlds, known, fresh);
            &&& twins_over(false, variants, worlds, known, fresh) == variants
            &&& made_over(false, variants, worlds, known, fresh).len() == 0
            &&& variants.dom().contains(world) ==> after.dom().contains(world) && after[world]
                == variants[world]
            &&& !variants.dom().contains(world) && after.dom().contains(world) ==> known.contains(
                world,
            ) && worlds.contains(world)
            &&& !variants.dom().contains(world) && known.contains(world) && 0 <= first
                < worlds.len() && worlds[first] == world && (forall|j: int|
                0 <= j < first ==> worlds[j] != world) ==> after.dom().contains(world)
                && after[world] == fresh[first] && made.contains((world, fresh[first]))
            &&& forall|i: int|
                0 <= i < made.len() ==> {
                    let (source, twin) = #[trigger] made[i];
                    &&& known.contains(source) && !variants.dom().contains(source)
                    &&& after.dom().contains(source) && after[source] == twin
                }
            &&& forall|i: int, j: int|
                0 <= i < j < made.len() ==> (#[trigger] made[i]).0 != (#[trigger] made[j]).0
        }),
    decreases worlds.len(),
{
    if worlds.len() > 0 {
        let before = worlds.drop_last();
        let last = worlds.last();
        let so_far = twins_over(true, variants, before, known, fresh);
        let made_so_far = made_over(true, variants, before, known, fresh);
        let made = made_over(true, variants, worlds, known, fresh);
        let after = twins_over(true, variants, worlds, known, fresh);
        relighting_makes_what_is_missing(variants, before, known, fresh, world, first);
        relighting_makes_what_is_missing(
            variants,
            before,
            known,
            fresh,
            last,
            worlds.len() - 1,
        );
        if before.contains(world) {
            let k = before.index_of(world);
            assert(worlds[k] == world);
        }
        assert(worlds[worlds.len() - 1] == last);
        assert forall|i: int| 0 <= i < made.len() implies {
            let (source, twin) = #[trigger] made[i];
            &&& known.contains(source) && !variants.dom().contains(source)
            &&& after.dom().contains(source) && after[source] == twin
        } by {
            if i < made_so_far.len() {
                assert(made[i] == made_so_far[i]);
            }
        }
        assert forall|i: int, j: int| 0 <= i < j < made.len() implies (#[trigger] made[i]).0 != (
        #[trigger] made[j]).0 by {
            assert(made[i] == made_so_far[i]);
            if j < made_so_far.len() {
                assert(made[j] == made_so_far[j]);
            }
        }
        if !variants.dom().contains(world) && known.contains(world) && 0 <= first < worlds.len()
            && worlds[first] == world && (forall|j: int| 0 <= j < first ==> worlds[j] != world) {
            if first < before.len() {
                assert(before[first] == world);
                assert(forall|j: int| 0 <= j < first ==> before[j] == worlds[j]);
                let k = made_so_far.index_of((world, fresh[first]));
                assert(made[k] == (world, fresh[first]));
            } else {
                assert(!so_far.dom().contains(world)) by {
                    if so_far.dom().contains(world) {
                        let k = before.index_of(world);
                        assert(worlds[k] == world);
                    }
                }
                assert(made.last() == (world, fresh[first]));
            }
        }
    }
}

} // verus!
