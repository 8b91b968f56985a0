//! The bake of a look: every piece of it under the studio light, on a fresh rig, at the start of its
//! stand.
use vstd::prelude::*;
use std::collections::HashMap;

use crate::portrait::booth::{
    baked_from, spawn_booth_model, BoothBillboardSpec, BoothModel, BoothMotion, BoothPart, BoothRider,
    BoothRig,
};
use crate::portrait::light::{made_over, relit, twins_over, BoothLight};
use crate::portrait::look::{
    key_of, materials_of, parts_key, Look, LookView, PortraitBillboard, PortraitPart, PortraitRider,
};

verus! {

broadcast use vstd::std_specs::hash::group_hash_axioms;

/// What a bake paints with: the studio light, and the materials that can be read, each with its
/// texture where it has one.
pub struct Palette {
    pub light: BoothLight,
    pub textures: HashMap<u64, Option<u64>>,
}

/// What a bake paints with, as its contents.
#[verifier::ext_equal]
pub struct PaletteView {
    pub ready: bool,
    pub variants: Map<u64, u64>,
    pub textures: Map<u64, Option<u64>>,
}

impl View for Palette {
    type V = PaletteView;

    open spec fn view(&self) -> PaletteView {
        PaletteView {
            ready: self.light.ready,
            variants: self.light.variants@,
            textures: self.textures@,
        }
    }
}

impl PaletteView {
    /// What a material is drawn with in a booth.
    pub open spec fn lit(self, world: u64) -> u64 {
        relit(self.ready, self.variants, world)
    }
}

/// A part as it goes into a bake.
pub open spec fn lit_part(palette: PaletteView, part: PortraitPart) -> BoothPart {
    BoothPart {
        skinned: part.skinned_mesh,
        static_mesh: part.static_mesh,
        material: palette.lit(part.material),
        alpha: None,
    }
}

/// A rider as it goes into a bake.
pub open spec fn lit_rider(palette: PaletteView, rider: PortraitRider) -> BoothRider {
    BoothRider {
        mesh: rider.static_mesh,
        material: palette.lit(rider.material),
        bone: rider.bone,
        offset: rider.offset,
    }
}

/// A card as it goes into a bake.
pub open spec fn lit_card(palette: PaletteView, card: PortraitBillboard) -> BoothBillboardSpec {
    BoothBillboardSpec {
        mesh: card.mesh,
        material: palette.lit(card.material),
        bone: card.bone,
        kind: card.kind,
    }
}

/// A look as it goes into a bake.
pub struct Dressed {
    pub parts: Vec<BoothPart>,
    pub riders: Vec<BoothRider>,
    pub billboards: Vec<BoothBillboardSpec>,
    /// The materials of all of these, in the same order.
    pub materials: Vec<u64>,
    /// The twins to make for it, each with its source.
    pub made: Vec<(u64, u64)>,
}

/// The materials that a look is drawn with in a booth, in the order of its key.
pub open spec fn drawn_with(palette: PaletteView, look: LookView) -> Seq<u64> {
    materials_of(look).map_values(|world: u64| palette.lit(world))
}

/// A look was dressed for a bake with a palette.
pub open spec fn dressed_as(dressed: Dressed, look: LookView, palette: PaletteView) -> bool {
    &&& dressed.parts@ == look.parts.map_values(|p: PortraitPart| lit_part(palette, p))
    &&& dressed.riders@ == look.riders.map_values(|r: PortraitRider| lit_rider(palette, r))
    &&& dressed.billboards@ == look.billboards.map_values(
        |b: PortraitBillboard| lit_card(palette, b),
    )
    &&& dressed.materials@ == drawn_with(palette, look)
}

/// The materials that can be read once twins were made: a twin has the texture of its source.
pub open spec fn textures_with(textures: Map<u64, Option<u64>>, made: Seq<(u64, u64)>) -> Map<
    u64,
    Option<u64>,
>
    decreases made.len(),
{
    if made.len() == 0 {
        textures
    } else {
        let before = textures_with(textures, made.drop_last());
        let (world, twin) = made.last();
        if before.dom().contains(world) {
            before.insert(twin, before[world])
        } else {
            before
        }
    }
}

/// The twins that dressing a look makes, each with its source.
pub open spec fn makes(palette: PaletteView, look: LookView, fresh: Seq<u64>) -> Seq<(u64, u64)> {
    made_over(
        palette.ready,
        palette.variants,
        materials_of(look),
        palette.textures.dom(),
        fresh,
    )
}

/// The palette after a look was dressed: the twins it needed have been made.
pub open spec fn palette_after(palette: PaletteView, look: LookView, fresh: Seq<u64>) -> PaletteView {
    PaletteView {
        variants: twins_over(
            palette.ready,
            palette.variants,
            materials_of(look),
            palette.textures.dom(),
            fresh,
        ),
        textures: textures_with(palette.textures, makes(palette, look, fresh)),
        ..palette
    }
}

fn add_twins(textures: &mut HashMap<u64, Option<u64>>, made: &Vec<(u64, u64)>)
    ensures
        final(textures)@ == textures_with(old(textures)@, made@),
{
    let ghost start = textures@;
    for i in 0..made.len()
        invariant
            textures@ == textures_with(start, made@.take(i as int)),
    {
        assert(made@.take(i + 1).drop_last() == made@.take(i as int));
        let (world, twin) = made[i];
        let texture: Option<Option<u64>> = match textures.get(&world) {
            Some(texture) => Some(*texture),
            None => None,
        };
        if let Some(texture) = texture {
            textures.insert(twin, texture);
        }
    }
    assert(made@.take(made@.len() as int) == made@);
}

/// Dress a look for a bake: everything as it is, but with the twins of its materials. A twin that is
/// new gets a handle out of `fresh`.
pub fn dress(look: &Look, palette: &mut Palette, fresh: &Vec<u64>) -> (dressed: Dressed)
    requires
        key_of(look@).len() <= fresh@.len(),
    ensures
        final(palette)@ == palette_after(old(palette)@, look@, fresh@),
        dressed_as(dressed, look@, final(palette)@),
        dressed.made@ == makes(old(palette)@, look@, fresh@),
{
    let key = parts_key(look);
    let mut worlds: Vec<u64> = Vec::new();
    for i in 0..key.len()
        invariant
            worlds@ == key@.take(i as int).map_values(|k: (u64, u64)| k.1),
    {
        worlds.push(key[i].1);
        assert(worlds@ =~= key@.take(i + 1).map_values(|k: (u64, u64)| k.1));
    }
    assert(key@.take(key@.len() as int) == key@);
    assert(worlds@ == materials_of(look@));
    let lit = palette.light.relight(&worlds, &palette.textures, fresh);
    add_twins(&mut palette.textures, &lit.made);
    let ghost after = palette@;
    assert(lit.materials@ =~= drawn_with(after, look@));
    let riders_from: usize = look.parts.len();
    assert(key@.len() == look.parts@.len() + look.riders@.len() + look.billboards@.len());
    let mut parts: Vec<BoothPart> = Vec::new();
    for i in 0..look.parts.len()
        invariant
            lit.materials.len() == look.parts@.len() + look.riders@.len() + look.billboards@.len(),
            forall|k: int|
                0 <= k < look.parts@.len() ==> #[trigger] lit.materials@[k] == after.lit(
                    look.parts@[k].material,
                ),
            parts@ == look.parts@.take(i as int).map_values(|p: PortraitPart| lit_part(after, p)),
    {
        let part = look.parts[i];
        parts.push(
            BoothPart {
                skinned: part.skinned_mesh,
                static_mesh: part.static_mesh,
                material: lit.materials[i],
                alpha: None,
            },
        );
        assert(parts@ =~= look.parts@.take(i + 1).map_values(|p: PortraitPart| lit_part(after, p)));
    }
    assert(look.parts@.take(look.parts@.len() as int) == look.parts@);
    let mut riders: Vec<BoothRider> = Vec::new();
    for i in 0..look.riders.len()
        invariant
            riders_from == look.parts@.len(),
            lit.materials.len() == look.parts@.len() + look.riders@.len() + look.billboards@.len(),
            forall|k: int|
                0 <= k < look.riders@.len() ==> lit.materials@[riders_from + k] == after.lit(
                    (#[trigger] look.riders@[k]).material,
                ),
            riders@ == look.riders@.take(i as int).map_values(
                |r: PortraitRider| lit_rider(after, r),
            ),
    {
        let rider = look.riders[i];
        riders.push(
            BoothRider {
                mesh: rider.static_mesh,
                material: lit.materials[riders_from + i],
                bone: rider.bone,
                offset: rider.offset,
            },
        );
        assert(riders@ =~= look.riders@.take(i + 1).map_values(
            |r: PortraitRider| lit_rider(after, r),
        ));
    }
    assert(look.riders@.take(look.riders@.len() as int) == look.riders@);
    let mut billboards: Vec<BoothBillboardSpec> = Vec::new();
    for i in 0..look.billboards.len()
        invariant
            riders_from == look.parts@.len(),
            lit.materials.len() == look.parts@.len() + look.riders@.len() + look.billboards@.len(),
            forall|k: int|
                0 <= k < look.billboards@.len() ==> lit.materials@[riders_from + look.riders@.len()
                    + k] == after.lit((#[trigger] look.billboards@[k]).material),
            billboards@ == look.billboards@.take(i as int).map_values(
                |b: PortraitBillboard| lit_card(after, b),
            ),
    {
        let card = look.billboards[i];
        billboards.push(
            BoothBillboardSpec {
                mesh: card.mesh,
                material: lit.materials[riders_from + look.riders.len() + i],
                bone: card.bone,
                kind: card.kind,
            },
        );
        assert(billboards@ =~= look.billboards@.take(i + 1).map_values(
            |b: PortraitBillboard| lit_card(after, b),
        ));
    }
    assert(look.billboards@.take(look.billboards@.len() as int) == look.billboards@);
    Dressed { parts, riders, billboards, materials: lit.materials, made: lit.made }
}

/// A bake: the look as it was dressed, and the instance that it was laid out as.
pub struct Bake {
    pub dressed: Dressed,
    pub model: BoothModel,
}

/// A bake is that of a look, begun with a palette: dressed under the studio light, and laid out as a
/// still with its hands open.
pub open spec fn bake_of(
    bake: Bake,
    look: LookView,
    palette: PaletteView,
    fresh: Seq<u64>,
    rig: Option<BoothRig>,
) -> bool {
    &&& dressed_as(bake.dressed, look, palette_after(palette, look, fresh))
    &&& bake.dressed.made@ == makes(palette, look, fresh)
    &&& baked_from(
        bake.model,
        bake.dressed.parts@,
        bake.dressed.riders@,
        rig,
        BoothMotion::Frozen,
        false,
        false,
        bake.dressed.billboards@,
    )
}

/// Bake a look: dressed under the studio light, and laid out as a still with its hands open.
pub fn bake_look(look: &Look, palette: &mut Palette, fresh: &Vec<u64>, rig: &Option<BoothRig>) -> (bake:
    Bake)
    requires
        key_of(look@).len() <= fresh@.len(),
    ensures
        final(palette)@ == palette_after(old(palette)@, look@, fresh@),
        bake_of(bake, look@, old(palette)@, fresh@, *rig),
{
    let dressed = dress(look, palette, fresh);
    let model = spawn_booth_model(
        &dressed.parts,
        &dressed.riders,
        rig,
        BoothMotion::Frozen,
        false,
        false,
        &dressed.billboards,
    );
    Bake { dressed, model }
}

/// A piece goes into a bake as it is, but for its material: that is drawn with its twin, where there is
/// a light and it has one, and stays as it is otherwise.
pub proof fn pieces_go_in_relit(
    palette: PaletteView,
    part: PortraitPart,
    rider: PortraitRider,
    card: PortraitBillboard,
    world: u64,
)
    ensures
        ({
            let twinned = palette.ready && palette.variants.dom().contains(world);
            &&& twinned ==> palette.lit(world) == palette.variants[world]
            &&& !twinned ==> palette.lit(world) == world
        }),
        ({
            let p = lit_part(palette, part);
            &&& p.skinned == part.skinned_mesh && p.static_mesh == part.static_mesh
            &&& p.material == palette.lit(part.material) && p.alpha is None
        }),
        ({
            let r = lit_rider(palette, rider);
            &&& r.mesh == rider.static_mesh && r.material == palette.lit(rider.material)
            &&& r.bone == rider.bone && r.offset == rider.offset
        }),
        ({
            let c = lit_card(palette, card);
            &&& c.mesh == card.mesh && c.material == palette.lit(card.material)
            &&& c.bone == card.bone && c.kind == card.kind
        }),
{
}

/// A twin that is made can be read as its source can: with its source's texture, or without one as its
/// source is. Of a source that cannot be read nothing comes. A run of twins is made one by one.
pub proof fn a_twin_has_its_sources_texture(
    textures: Map<u64, Option<u64>>,
    made: Seq<(u64, u64)>,
    world: u64,
    twin: u64,
)
    ensures
        ({
            let before = textures_with(textures, made);
            let after = textures_with(textures, made.push((world, twin)));
            &&& before.dom().contains(world) ==> after == before.insert(twin, before[world])
            &&& !before.dom().contains(world) ==> after == before
            &&& textures_with(textures, seq![]) == textures
        }),
{
    assert(made.push((world, twin)).drop_last() =~= made);
}

/// Dressing a look leaves the light on or off as it is. The twins it needed and the textures that these
/// are read with are there afterwards, and those that there were still are.
pub proof fn dressing_only_adds_twins(
    palette: PaletteView,
    look: LookView,
    fresh: Seq<u64>,
    world: u64,
)
    requires
        materials_of(look).len() <= fresh.len(),
    ensures
        ({
            let after = palette_after(palette, look, fresh);
            let made = makes(palette, look, fresh);
            &&& after.ready == palette.ready
            &&& after.textures == textures_with(palette.textures, made)
            &&& !palette.ready ==> made.len() == 0 && after.variants == palette.variants
                && after.textures == palette.textures
            &&& palette.variants.dom().contains(world) ==> after.variants.dom().contains(world)
                && after.variants[world] == palette.variants[world]
            &&& palette.ready && palette.textures.dom().contains(world) && materials_of(
                look,
            ).contains(world) ==> after.variants.dom().contains(world)
            &&& forall|i: int|
                0 <= i < made.len() ==> {
                    let (source, twin) = #[trigger] made[i];
                    after.variants.dom().contains(source) && after.variants[source] == twin
                }
        }),
{
    let worlds = materials_of(look);
    let known = palette.textures.dom();
    crate::portrait::light::relighting_makes_what_is_missing(
        palette.variants,
        worlds,
        known,
        fresh,
        world,
        0,
    );
    if palette.ready && known.contains(world) && worlds.contains(world) {
        there_is_a_first(worlds, world);
        let first = choose|k: int|
            #![trigger worlds[k]]
            0 <= k < worlds.len() && worlds[k] == world && forall|j: int|
                0 <= j < k ==> worlds[j] != world;
        crate::portrait::light::relighting_makes_what_is_missing(
            palette.variants,
            worlds,
            known,
            fresh,
            world,
            first,
        );
    }
}

proof fn there_is_a_first(worlds: Seq<u64>, world: u64)
    requires
        worlds.contains(world),
    ensures
        exists|k: int|
            #![trigger worlds[k]]
            0 <= k < worlds.len() && worlds[k] == world && forall|j: int|
                0 <= j < k ==> worlds[j] != world,
    decreases worlds.len(),
{
    let before = worlds.drop_last();
    if before.contains(world) {
        there_is_a_first(before, world);
        let k = choose|k: int|
            #![trigger before[k]]
            0 <= k < before.len() && before[k] == world && forall|j: int|
                0 <= j < k ==> before[j] != world;
        assert(worlds[k] == world);
        assert(forall|j: int| 0 <= j < k ==> worlds[j] == before[j]);
    } else {
        let k = worlds.index_of(world);
        if k < before.len() {
            assert(before[k] == world);
        }
        assert(worlds[worlds.len() - 1] == world);
        assert forall|j: int| 0 <= j < worlds.len() - 1 implies worlds[j] != world by {
            assert(before[j] == worlds[j]);
        }
    }
}

/// A bake shows its look: a mesh for each part, in order, with the material of the light that the look
/// was dressed under. It is a still: its stand is frozen and its hands are open.
pub proof fn a_bake_shows_its_look(
    bake: Bake,
    look: LookView,
    palette: PaletteView,
    fresh: Seq<u64>,
    rig: Option<BoothRig>,
    i: int,
)
    requires
        bake_of(bake, look, palette, fresh, rig),
        0 <= i < look.parts.len(),
    ensures
        ({
            let lit = palette_after(palette, look, fresh);
            let part = bake.dressed.parts@[i];
            &&& bake.dressed.parts@.len() == look.parts.len()
            &&& bake.dressed.riders@.len() == look.riders.len()
            &&& bake.dressed.billboards@.len() == look.billboards.len()
            &&& part.static_mesh == look.parts[i].static_mesh
            &&& part.skinned == look.parts[i].skinned_mesh
            &&& part.material == lit.lit(look.parts[i].material)
            &&& bake.model.parts@.len() == look.parts.len()
            &&& bake.model.parts@[i].material == lit.lit(look.parts[i].material)
            &&& bake.model.pose matches Some(pose) ==> !pose.looping && pose.grips@.len() == 0
            &&& !(bake.model.bones is Driven)
            &&& bake.dressed.materials@.len() == materials_of(look).len()
            &&& forall|k: int|
                0 <= k < materials_of(look).len() ==> #[trigger] bake.dressed.materials@[k]
                    == lit.lit(materials_of(look)[k])
        }),
{
}

} // verus!
