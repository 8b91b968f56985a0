//! How particles are blended and fogged.
use vstd::prelude::*;

verus! {

/// The file flag of an emitter that fog does not touch.
pub const UNFOGGED: u32 = 0x8;

/// The blend of a particle definition.
#[derive(Clone, Copy, Debug, PartialEq, Eq, Structural)]
pub enum ParticleBlend {
    Opaque,
    Alpha,
    Add,
}

/// The blend of the pass that a material draws in.
#[derive(Clone, Copy, Debug, PartialEq, Eq, Structural)]
pub enum AlphaMode {
    Opaque,
    Blend,
    Add,
}

/// What fog does to a material.
#[derive(Clone, Copy, Debug, PartialEq, Eq, Structural)]
pub enum FogPolicy {
    Off,
    /// Toward the scene's fog colour.
    Scene,
    /// Toward black, so that what is added fades.
    Black,
}

/// The material of an emitter. Billboards are never culled.
#[derive(Clone, Copy, Debug, PartialEq, Eq, Structural)]
pub struct ParticleMaterial {
    pub alpha_mode: AlphaMode,
    pub fog: FogPolicy,
    pub mod2x: bool,
}

/// The material of an emitter of this blend and these file flags.
pub open spec fn material_of(blend: ParticleBlend, flags: u32) -> ParticleMaterial {
    ParticleMaterial {
        alpha_mode: match blend {
            ParticleBlend::Add => AlphaMode::Add,
            ParticleBlend::Alpha => AlphaMode::Blend,
            ParticleBlend::Opaque => AlphaMode::Opaque,
        },
        fog: if flags & UNFOGGED != 0 {
            FogPolicy::Off
        } else if blend == ParticleBlend::Add {
            FogPolicy::Black
        } else {
            FogPolicy::Scene
        },
        mod2x: false,
    }
}

/// The material of an emitter of this blend and these file flags.
pub fn particle_material(blend: ParticleBlend, flags: u32) -> (m: ParticleMaterial)
    ensures
        m == material_of(blend, flags),
{
    let alpha_mode = match blend {
        ParticleBlend::Add => AlphaMode::Add,
        ParticleBlend::Alpha => AlphaMode::Blend,
        ParticleBlend::Opaque => AlphaMode::Opaque,
    };
    let fog = if flags & UNFOGGED != 0 {
        FogPolicy::Off
    } else if blend == ParticleBlend::Add {
        FogPolicy::Black
    } else {
        FogPolicy::Scene
    };
    ParticleMaterial { alpha_mode, fog, mod2x: false }
}

/// What tells pipelines of this material apart.
#[derive(Clone, Copy, Debug, PartialEq, Eq, Structural)]
pub struct WowParticleKey {
    pub mod2x: bool,
}

/// The key of a material.
pub open spec fn material_key(material: ParticleMaterial) -> WowParticleKey {
    WowParticleKey { mod2x: material.mod2x }
}

/// The key of a material.
pub fn key_of(material: &ParticleMaterial) -> (key: WowParticleKey)
    ensures
        key == material_key(*material),
{
    WowParticleKey { mod2x: material.mod2x }
}

/// A factor of a blend equation.
#[derive(Clone, Copy, Debug, PartialEq, Eq, Structural)]
pub enum BlendFactor {
    Zero,
    One,
    Src,
    Dst,
}

/// The factors of source and destination, for colour and for alpha; the two products are added.
#[derive(Clone, Copy, Debug, PartialEq, Eq, Structural)]
pub struct BlendFactors {
    pub color_src: BlendFactor,
    pub color_dst: BlendFactor,
    pub alpha_src: BlendFactor,
    pub alpha_dst: BlendFactor,
}

/// What a pipeline changes of the shell it is built from.
#[derive(Clone, Copy, Debug, PartialEq, Eq, Structural)]
pub struct Specialized {
    /// Every fragment passes the depth test.
    pub ignore_depth: bool,
    /// Every fragment is one flat colour.
    pub flat: bool,
    /// The blend that replaces the shell's.
    pub blend: Option<BlendFactors>,
}

/// The pipeline of a key.
pub open spec fn specialized(key: WowParticleKey, no_depth: bool, flat: bool) -> Specialized {
    Specialized {
        ignore_depth: no_depth,
        flat,
        blend: if key.mod2x {
            Some(
                BlendFactors {
                    color_src: BlendFactor::Dst,
                    color_dst: BlendFactor::Src,
                    alpha_src: BlendFactor::Zero,
                    alpha_dst: BlendFactor::One,
                },
            )
        } else {
            None
        },
    }
}

/// The pipeline of a key: doubled modulation replaces the blend by twice the product of source and
/// destination and keeps the destination's alpha. The other two are switches for looking into things.
pub fn specialize(key: WowParticleKey, no_depth: bool, flat: bool) -> (s: Specialized)
    ensures
        s == specialized(key, no_depth, flat),
{
    Specialized {
        ignore_depth: no_depth,
        flat,
        blend: if key.mod2x {
            Some(
                BlendFactors {
                    color_src: BlendFactor::Dst,
                    color_dst: BlendFactor::Src,
                    alpha_src: BlendFactor::Zero,
                    alpha_dst: BlendFactor::One,
                },
            )
        } else {
            None
        },
    }
}

/// Each blend draws in its own pass. Fog fades what is added to black and all else to the scene, and
/// touches nothing that has the flag against it; an emitter's material never doubles.
pub proof fn blends_pass_and_fade(flags: u32)
    ensures
        material_of(ParticleBlend::Add, flags).alpha_mode == AlphaMode::Add,
        material_of(ParticleBlend::Alpha, flags).alpha_mode == AlphaMode::Blend,
        material_of(ParticleBlend::Opaque, flags).alpha_mode == AlphaMode::Opaque,
        forall|blend: ParticleBlend|
            flags & 0x8 != 0 ==> (#[trigger] material_of(blend, flags)).fog == FogPolicy::Off,
        flags & 0x8 == 0 ==> material_of(ParticleBlend::Add, flags).fog == FogPolicy::Black,
        flags & 0x8 == 0 ==> material_of(ParticleBlend::Alpha, flags).fog == FogPolicy::Scene,
        flags & 0x8 == 0 ==> material_of(ParticleBlend::Opaque, flags).fog == FogPolicy::Scene,
        forall|blend: ParticleBlend| !(#[trigger] material_of(blend, flags)).mod2x,
{
}

/// Materials that double are told apart from those that do not. One that doubles multiplies what it
/// draws with what is there, both ways, and leaves the alpha that is there; the others keep the blend
/// they have. The switches are as they were set.
pub proof fn only_doubling_replaces_the_blend(m: ParticleMaterial, no_depth: bool, flat: bool)
    ensures
        ({
            let s = specialized(material_key(m), no_depth, flat);
            &&& s.ignore_depth == no_depth && s.flat == flat
            &&& !m.mod2x ==> s.blend is None
            &&& m.mod2x ==> (s.blend matches Some(b) && {
                &&& b.color_src == BlendFactor::Dst && b.color_dst == BlendFactor::Src
                &&& b.alpha_src == BlendFactor::Zero && b.alpha_dst == BlendFactor::One
            })
        }),
{
}

} // verus!
