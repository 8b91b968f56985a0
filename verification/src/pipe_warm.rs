//! The warm pass: every pipeline that the model lane can reach is compiled behind the loading cover,
//! where a stall is invisible, and the cover is held until that is done.
use vstd::prelude::*;

use crate::single::{zero, Point, Single};
use crate::text::{decimal, push_decimal};
use crate::pipe_warm::describe::{describe, description, PipelineDescriptor};

pub mod describe;

verus! {

/// 0.25: the seconds after which an empty queue means that everything is compiled.
pub const WARM_SETTLE_SECS: u32 = 0x3e80_0000;

/// 10: the seconds after which a cover is released whatever is pending.
pub const WARM_TIMEOUT_SECS: u32 = 0x4120_0000;

/// What the renderer counts.
#[derive(Clone, Copy, Debug, PartialEq, Eq, Structural)]
pub struct PipeWatch {
    /// Pipelines ever queued.
    pub created: usize,
    /// Of those, the ones whose compilation is over.
    pub settled: usize,
    /// Does a cover hide the frame?
    pub covered: bool,
}

impl PipeWatch {
    /// Nothing queued yet, behind a cover.
    #[verifier::allow_in_spec]
    pub fn new() -> PipeWatch
        returns
            (PipeWatch { created: 0, settled: 0, covered: true }),
    {
        PipeWatch { created: 0, settled: 0, covered: true }
    }
}

/// What is counted, once the cover of a frame is known.
pub open spec fn published(watch: PipeWatch, loading: bool, in_world: bool) -> PipeWatch {
    PipeWatch { covered: loading || !in_world, ..watch }
}

/// A frame is covered while the loading screen is up, and everywhere outside the world.
pub fn publish_cover(watch: &mut PipeWatch, loading: bool, in_world: bool)
    ensures
        *final(watch) == published(*old(watch), loading, in_world),
{
    watch.covered = loading || !in_world;
}

/// How far a pipeline is. An error that can still be mended goes back to the queue.
#[derive(Clone, Copy, Debug, PartialEq, Eq, Structural)]
pub enum PipeState {
    Queued,
    Creating,
    Ready,
    Failed,
}

/// A pipeline of the cache.
pub struct CachedPipe {
    pub state: PipeState,
    pub descriptor: PipelineDescriptor,
}

/// A pipeline that is new this frame. A live one was compiled with no cover to hide the stall.
pub struct Compiled {
    pub id: usize,
    pub live: bool,
    pub line: String,
}

/// Is a pipeline's compilation over?
pub open spec fn is_settled(pipe: CachedPipe) -> bool {
    pipe.state is Ready || pipe.state is Failed
}

/// The line of the trace for a new pipeline.
pub open spec fn trace_text(id: nat, covered: bool, line: Seq<char>) -> Seq<char> {
    "["@ + decimal(id) + "] "@ + (if covered {
        "covered"@
    } else {
        "LIVE"@
    }) + " "@ + line
}

/// The line of the trace for a new pipeline.
pub fn trace_line(new: &Compiled) -> (text: String)
    ensures
        text@ == trace_text(new.id as nat, !new.live, new.line@),
{
    let mut text = "[".to_string();
    push_decimal(&mut text, new.id as u64);
    text.append("] ");
    text.append(
        if new.live {
            "LIVE"
        } else {
            "covered"
        },
    );
    text.append(" ");
    text.append(new.line.as_str());
    text
}

/// What is counted of the pipelines of the cache.
pub open spec fn counted(watch: PipeWatch, pipes: Seq<CachedPipe>) -> PipeWatch {
    PipeWatch {
        created: pipes.len() as usize,
        settled: pipes.filter(|p: CachedPipe| is_settled(p)).len() as usize,
        covered: watch.covered,
    }
}

/// These are the pipelines that came after the first so many.
pub open spec fn are_new(
    new: Seq<Compiled>,
    pipes: Seq<CachedPipe>,
    seen: usize,
    covered: bool,
) -> bool {
    &&& new.len() == (if seen < pipes.len() {
        pipes.len() - seen
    } else {
        0
    })
    &&& forall|i: int|
        0 <= i < new.len() ==> {
            &&& (#[trigger] new[i]).id == seen + i
            &&& new[i].live == !covered
            &&& new[i].line@ == description(pipes[seen + i].descriptor)
        }
}

/// Count the pipelines of the cache, and give out the ones that came since the last frame, of which
/// there were `seen`.
pub fn watch_pipelines(pipes: &Vec<CachedPipe>, watch: &mut PipeWatch, seen: &mut usize) -> (new: Vec<
    Compiled,
>)
    ensures
        *final(seen) == pipes@.len(),
        *final(watch) == counted(*old(watch), pipes@),
        final(watch).settled <= final(watch).created,
        are_new(new@, pipes@, *old(seen), old(watch).covered),
{
    let mut new: Vec<Compiled> = Vec::new();
    let mut settled: usize = 0;
    let from: usize = *seen;
    let live = !watch.covered;
    for id in 0..pipes.len()
        invariant
            settled == pipes@.take(id as int).filter(|p: CachedPipe| is_settled(p)).len(),
            settled <= id,
            new@.len() == (if from < id {
                id - from
            } else {
                0
            }),
            forall|i: int|
                0 <= i < new@.len() ==> {
                    &&& (#[trigger] new@[i]).id == from + i
                    &&& new@[i].live == live
                    &&& new@[i].line@ == description(pipes@[from + i].descriptor)
                },
    {
        assert(pipes@.take(id + 1).drop_last() == pipes@.take(id as int));
        reveal(Seq::filter);
        if matches!(pipes[id].state, PipeState::Ready | PipeState::Failed) {
            settled = settled + 1;
        }
        if id >= from {
            let line = describe(&pipes[id].descriptor);
            new.push(Compiled { id, live, line });
        }
    }
    assert(pipes@.take(pipes@.len() as int) == pipes@);
    *seen = pipes.len();
    watch.created = pipes.len();
    watch.settled = settled;
    new
}

/// The state of the warm pass.
#[derive(Clone, Copy, Debug, PartialEq, Eq, Structural)]
pub struct WarmPass {
    /// When the menagerie came up under the present cover.
    pub spawned_at: Option<Single>,
    /// The warm work of this cover is done, or there is none.
    pub done: bool,
}

impl WarmPass {
    /// Nothing spawned, nothing done.
    #[verifier::allow_in_spec]
    pub fn new() -> WarmPass
        returns
            (WarmPass { spawned_at: None, done: false }),
    {
        WarmPass { spawned_at: None, done: false }
    }

    /// May the cover lift?
    #[verifier::allow_in_spec]
    pub fn satisfied(&self) -> bool
        returns
            self.done,
    {
        self.done
    }
}

/// What a frame of the warm pass reads.
#[derive(Clone, Copy, Debug, PartialEq, Eq, Structural)]
pub struct WarmFrame {
    /// Is the loading screen up?
    pub loading: bool,
    pub in_world: bool,
    /// Is a capture scenario running?
    pub capture: bool,
    /// Are the world's camera and its light there?
    pub camera: bool,
    pub light: bool,
    pub now: Single,
    /// The seconds since the menagerie came up; read only while it is up.
    pub elapsed: Single,
    pub watch: PipeWatch,
}

/// What a frame of the warm pass does about the menagerie.
#[derive(Clone, Copy, Debug, PartialEq, Eq, Structural)]
pub enum WarmStep {
    Idle,
    /// Take down whatever is left of it: there is no cover.
    Clear,
    /// Put it up.
    Spawn,
    /// Take it down: everything is compiled.
    Drained,
    /// Take it down: time is up with so many pipelines pending.
    TimedOut { pending: usize },
}

/// The pipelines still to compile.
pub open spec fn pending(watch: PipeWatch) -> int {
    if watch.created >= watch.settled {
        watch.created - watch.settled
    } else {
        0
    }
}

/// What a frame does about the menagerie.
pub open spec fn warm_step(warm: WarmPass, frame: WarmFrame) -> WarmStep {
    if !(frame.loading && frame.in_world) {
        WarmStep::Clear
    } else if frame.capture {
        WarmStep::Idle
    } else if warm.spawned_at is None {
        if frame.camera && frame.light {
            WarmStep::Spawn
        } else {
            WarmStep::Idle
        }
    } else if warm.done {
        WarmStep::Idle
    } else if Single::from_bits(WARM_SETTLE_SECS).at_most(frame.elapsed) && pending(frame.watch)
        == 0 {
        WarmStep::Drained
    } else if Single::from_bits(WARM_TIMEOUT_SECS).at_most(frame.elapsed) {
        WarmStep::TimedOut { pending: pending(frame.watch) as usize }
    } else {
        WarmStep::Idle
    }
}

/// The state after a frame.
pub open spec fn warmed(warm: WarmPass, frame: WarmFrame) -> WarmPass {
    let step = warm_step(warm, frame);
    WarmPass {
        spawned_at: if step is Clear {
            None
        } else if step is Spawn {
            Some(frame.now)
        } else {
            warm.spawned_at
        },
        done: if step is Clear || frame.capture {
            true
        } else if warm.spawned_at is None {
            false
        } else {
            warm.done || step is Drained || step is TimedOut
        },
    }
}

/// Run the warm pass for a frame.
pub fn run_warm_pass(warm: &mut WarmPass, frame: WarmFrame) -> (step: WarmStep)
    ensures
        step == warm_step(*old(warm), frame),
        *final(warm) == warmed(*old(warm), frame),
{
    if !(frame.loading && frame.in_world) {
        warm.done = true;
        warm.spawned_at = None;
        return WarmStep::Clear;
    }
    if frame.capture {
        warm.done = true;
        return WarmStep::Idle;
    }
    if warm.spawned_at.is_none() {
        warm.done = false;
        if !frame.camera || !frame.light {
            return WarmStep::Idle;
        }
        warm.spawned_at = Some(frame.now);
        return WarmStep::Spawn;
    }
    if warm.done {
        return WarmStep::Idle;
    }
    let pending: usize = frame.watch.created.saturating_sub(frame.watch.settled);
    if Single::from_bits(WARM_SETTLE_SECS).is_at_most(frame.elapsed) && pending == 0 {
        warm.done = true;
        WarmStep::Drained
    } else if Single::from_bits(WARM_TIMEOUT_SECS).is_at_most(frame.elapsed) {
        warm.done = true;
        WarmStep::TimedOut { pending }
    } else {
        WarmStep::Idle
    }
}

/// A frame without a cover is never held, and neither is a capture.
pub proof fn only_a_cover_is_held(warm: WarmPass, frame: WarmFrame)
    requires
        !frame.loading || !frame.in_world || frame.capture,
    ensures
        warmed(warm, frame).satisfied(),
{
}

/// A cover that rises in the world is held until the menagerie has come up and its pipelines are done.
pub proof fn a_rising_cover_is_held(warm: WarmPass, before: WarmFrame, frame: WarmFrame)
    requires
        !before.loading || !before.in_world,
        frame.loading && frame.in_world && !frame.capture,
    ensures
        !warmed(warmed(warm, before), frame).satisfied(),
{
}

/// A cover is never held beyond the time it is given.
pub proof fn no_cover_is_held_unbounded(warm: WarmPass, frame: WarmFrame)
    requires
        warm.spawned_at is Some,
        Single::from_bits(WARM_TIMEOUT_SECS).at_most(frame.elapsed),
    ensures
        warmed(warm, frame).satisfied(),
{
}

/// Until that time a held cover lifts only once nothing is pending.
pub proof fn a_cover_lifts_when_all_is_compiled(warm: WarmPass, frame: WarmFrame)
    requires
        frame.loading && frame.in_world && !frame.capture,
        !warm.done,
        !Single::from_bits(WARM_TIMEOUT_SECS).at_most(frame.elapsed),
    ensures
        warmed(warm, frame).satisfied() ==> pending(frame.watch) == 0,
{
}

/// Under one cover the menagerie comes up once: having come up it does not come up again, and a gate
/// that has opened stays open.
pub proof fn a_cover_is_warmed_once(warm: WarmPass, frame: WarmFrame)
    requires
        frame.loading && frame.in_world,
        warm.spawned_at is Some,
    ensures
        warm_step(warm, frame) !is Spawn,
        warmed(warm, frame).spawned_at == warm.spawned_at,
        warm.satisfied() ==> warmed(warm, frame).satisfied(),
{
}

/// How a model's batch blends.
#[derive(Clone, Copy, Debug, PartialEq, Eq, Structural)]
pub enum ModelBlend {
    Opaque,
    AlphaTest,
    Blend,
    Mod,
    Mod2x,
}

/// The families of materials that the model lane reaches.
#[derive(Clone, Copy, Debug, PartialEq, Eq, Structural)]
pub enum Family {
    /// An authored batch.
    Plain { blend: ModelBlend, no_depth_write: bool, no_depth_test: bool },
    /// A glow card, which adds.
    Additive { no_depth_write: bool },
    /// The twin that fades with distance and writes depth.
    Fade,
    /// The twin that writes depth only.
    DepthPrime { cutout: bool },
    /// Ground clutter.
    Clutter,
}

/// A material to warm.
#[derive(Clone, Copy, Debug, PartialEq, Eq, Structural)]
pub struct WarmMaterial {
    pub two_sided: bool,
    pub family: Family,
}

/// A vertex layout of the model lane.
#[derive(Clone, Copy, Debug, PartialEq, Eq, Structural)]
pub struct Layout {
    pub colors: bool,
    pub skinned: bool,
}

/// A quad of the menagerie.
#[derive(Clone, Copy, Debug, PartialEq, Eq, Structural)]
pub struct Variant {
    pub layout: Layout,
    pub material: WarmMaterial,
}

/// How many materials there are.
pub const MATERIALS: usize = 52;

/// How many quads there are.
pub const VARIANTS: usize = 208;

/// The blends, in the order they are warmed.
pub open spec fn blend_at(i: int) -> ModelBlend {
    if i == 0 {
        ModelBlend::Opaque
    } else if i == 1 {
        ModelBlend::AlphaTest
    } else if i == 2 {
        ModelBlend::Blend
    } else if i == 3 {
        ModelBlend::Mod
    } else {
        ModelBlend::Mod2x
    }
}

/// The materials, in the order they are warmed: for each sidedness every blend with every depth
/// setting, the glow cards, the fading twin and the depth-only twins; then the clutter.
pub open spec fn material_at(i: int) -> WarmMaterial {
    if i < 50 {
        let k = i % 25;
        WarmMaterial {
            two_sided: i >= 25,
            family: if k < 20 {
                Family::Plain {
                    blend: blend_at(k / 4),
                    no_depth_write: k % 4 >= 2,
                    no_depth_test: k % 2 == 1,
                }
            } else if k < 22 {
                Family::Additive { no_depth_write: k == 21 }
            } else if k == 22 {
                Family::Fade
            } else {
                Family::DepthPrime { cutout: k == 24 }
            },
        }
    } else {
        WarmMaterial { two_sided: i == 51, family: Family::Clutter }
    }
}

/// The layouts, in the order they are warmed.
pub open spec fn layout_at(i: int) -> Layout {
    Layout { colors: i >= 2, skinned: i % 2 == 1 }
}

/// The quads, in the order they are warmed.
pub open spec fn variant_at(i: int) -> Variant {
    Variant {
        layout: layout_at(i / MATERIALS as int),
        material: material_at(i % MATERIALS as int),
    }
}

/// The menagerie: one quad for every layout with every material.
pub open spec fn menagerie() -> Seq<Variant> {
    Seq::new(VARIANTS as nat, |i: int| variant_at(i))
}

spec fn bit(b: bool) -> int {
    if b {
        1
    } else {
        0
    }
}

spec fn place_of_blend(blend: ModelBlend) -> int {
    match blend {
        ModelBlend::Opaque => 0,
        ModelBlend::AlphaTest => 1,
        ModelBlend::Blend => 2,
        ModelBlend::Mod => 3,
        ModelBlend::Mod2x => 4,
    }
}

spec fn place_of_material(m: WarmMaterial) -> int {
    match m.family {
        Family::Plain { blend, no_depth_write, no_depth_test } => 25 * bit(m.two_sided) + 4
            * place_of_blend(blend) + 2 * bit(no_depth_write) + bit(no_depth_test),
        Family::Additive { no_depth_write } => 25 * bit(m.two_sided) + 20 + bit(no_depth_write),
        Family::Fade => 25 * bit(m.two_sided) + 22,
        Family::DepthPrime { cutout } => 25 * bit(m.two_sided) + 23 + bit(cutout),
        Family::Clutter => 50 + bit(m.two_sided),
    }
}

proof fn materials_have_places(i: int)
    requires
        0 <= i < MATERIALS,
    ensures
        place_of_material(material_at(i)) == i,
{
    if i < 50 {
        let k = i % 25;
        assert(i == 25 * bit(i >= 25) + k);
        if k < 20 {
            let b = k / 4;
            let r = k % 4;
            assert(k == 4 * b + r && 0 <= b < 5 && 0 <= r < 4);
            assert(place_of_blend(blend_at(b)) == b);
            assert(2 * bit(r >= 2) + bit(k % 2 == 1) == r);
        }
    }
}

proof fn places_hold_materials(m: WarmMaterial)
    ensures
        0 <= place_of_material(m) < MATERIALS,
        material_at(place_of_material(m)) == m,
{
    let at = place_of_material(m);
    if !(m.family is Clutter) {
        let k = at - 25 * bit(m.two_sided);
        assert(0 <= k < 25);
        assert(at % 25 == k);
        if m.family is Plain {
            let r = 2 * bit(m.family->Plain_no_depth_write) + bit(m.family->Plain_no_depth_test);
            let b = place_of_blend(m.family->Plain_blend);
            assert(k == 4 * b + r);
            assert(k / 4 == b && k % 4 == r);
            assert(k % 2 == r % 2);
        }
    }
}

/// Every reachable variant is in the menagerie.
pub proof fn every_variant_is_warmed(v: Variant)
    ensures
        menagerie().contains(v),
{
    places_hold_materials(v.material);
    let l = 2 * bit(v.layout.colors) + bit(v.layout.skinned);
    let m = place_of_material(v.material);
    let at = MATERIALS * l + m;
    assert(0 <= at < VARIANTS);
    assert(at / MATERIALS as int == l && at % MATERIALS as int == m);
    assert(layout_at(l) == v.layout);
    assert(menagerie()[at] == v);
}

/// No variant is in the menagerie twice.
pub proof fn no_variant_is_warmed_twice(i: int, j: int)
    requires
        0 <= i < VARIANTS,
        0 <= j < VARIANTS,
        menagerie()[i] == menagerie()[j],
    ensures
        i == j,
{
    materials_have_places(i % MATERIALS as int);
    materials_have_places(j % MATERIALS as int);
    assert(layout_at(i / MATERIALS as int) == layout_at(j / MATERIALS as int));
    assert(i / MATERIALS as int == j / MATERIALS as int);
    assert(i % MATERIALS as int == j % MATERIALS as int);
}

fn blends() -> (v: Vec<ModelBlend>)
    ensures
        v.len() == 5,
        forall|i: int| 0 <= i < 5 ==> #[trigger] v[i] == blend_at(i),
{
    vec![
        ModelBlend::Opaque,
        ModelBlend::AlphaTest,
        ModelBlend::Blend,
        ModelBlend::Mod,
        ModelBlend::Mod2x,
    ]
}

/// A material with the depth settings of the place `r` among the four of its blend.
spec fn plain(two_sided: bool, blend: ModelBlend, r: int) -> WarmMaterial {
    WarmMaterial {
        two_sided,
        family: Family::Plain { blend, no_depth_write: r >= 2, no_depth_test: r % 2 == 1 },
    }
}

proof fn plain_materials_stand_in_fours(two_sided: bool, b: int, r: int)
    requires
        0 <= b < 5,
        0 <= r < 4,
    ensures
        material_at(25 * bit(two_sided) + (4 * b + r)) == plain(two_sided, blend_at(b), r),
{
    let k = 4 * b + r;
    let i = 25 * bit(two_sided) + k;
    assert(i % 25 == k);
    assert(k / 4 == b && k % 4 == r);
    assert(k % 2 == r % 2);
}

fn blend_materials(two_sided: bool, blend: ModelBlend, mats: &mut Vec<WarmMaterial>)
    ensures
        final(mats)@ == old(mats)@ + Seq::new(4, |r: int| plain(two_sided, blend, r)),
{
    for r in 0..4usize
        invariant
            mats@ == old(mats)@ + Seq::new(r as nat, |k: int| plain(two_sided, blend, k)),
    {
        mats.push(
            WarmMaterial {
                two_sided,
                family: Family::Plain { blend, no_depth_write: r >= 2, no_depth_test: r % 2 == 1 },
            },
        );
        assert(mats@ =~= old(mats)@ + Seq::new(
            (r + 1) as nat,
            |k: int| plain(two_sided, blend, k),
        ));
    }
}

fn sided_materials(two_sided: bool, mats: &mut Vec<WarmMaterial>)
    ensures
        final(mats)@ == old(mats)@ + Seq::new(25, |k: int| material_at(25 * bit(two_sided) + k)),
{
    let blends = blends();
    for b in 0..5usize
        invariant
            blends.len() == 5,
            forall|i: int| 0 <= i < 5 ==> #[trigger] blends[i] == blend_at(i),
            mats@.len() == old(mats)@.len() + 4 * b,
            mats@.take(old(mats)@.len() as int) == old(mats)@,
            forall|k: int|
                0 <= k < 4 * b ==> #[trigger] mats@[old(mats)@.len() + k] == material_at(
                    25 * bit(two_sided) + k,
                ),
    {
        let ghost before = mats@;
        let ghost start = old(mats)@.len() as int;
        blend_materials(two_sided, blends[b], mats);
        proof {
            assert(mats@.take(start) =~= before.take(start));
            assert forall|k: int| 0 <= k < 4 * (b + 1) implies #[trigger] mats@[start + k]
                == material_at(25 * bit(two_sided) + k) by {
                if k < 4 * b {
                    assert(mats@[start + k] == before[start + k]);
                } else {
                    let r = k - 4 * b;
                    plain_materials_stand_in_fours(two_sided, b as int, r);
                    assert(mats@[start + k] == plain(two_sided, blends@[b as int], r));
                }
            }
        }
    }
    let ghost plain_ones = mats@;
    let ghost start = old(mats)@.len() as int;
    mats.push(WarmMaterial { two_sided, family: Family::Additive { no_depth_write: false } });
    mats.push(WarmMaterial { two_sided, family: Family::Additive { no_depth_write: true } });
    mats.push(WarmMaterial { two_sided, family: Family::Fade });
    mats.push(WarmMaterial { two_sided, family: Family::DepthPrime { cutout: false } });
    mats.push(WarmMaterial { two_sided, family: Family::DepthPrime { cutout: true } });
    proof {
        let all = old(mats)@ + Seq::new(25, |k: int| material_at(25 * bit(two_sided) + k));
        assert forall|i: int| 0 <= i < all.len() implies mats@[i] == all[i] by {
            if i < start {
                assert(plain_ones.take(start)[i] == old(mats)@[i]);
            } else if i < start + 20 {
                assert(plain_ones[start + (i - start)] == material_at(
                    25 * bit(two_sided) + (i - start),
                ));
            }
        }
        assert(mats@ =~= all);
    }
}

/// The materials of the menagerie.
pub fn warm_materials() -> (mats: Vec<WarmMaterial>)
    ensures
        mats@ == Seq::new(MATERIALS as nat, |i: int| material_at(i)),
{
    let mut mats: Vec<WarmMaterial> = Vec::new();
    sided_materials(false, &mut mats);
    sided_materials(true, &mut mats);
    mats.push(WarmMaterial { two_sided: false, family: Family::Clutter });
    mats.push(WarmMaterial { two_sided: true, family: Family::Clutter });
    mats
}

/// The quads of the menagerie. A static one brings its bounds along; a skinned one has them worked out.
pub fn spawn_menagerie() -> (variants: Vec<Variant>)
    ensures
        variants@ == menagerie(),
{
    let mats = warm_materials();
    let mut variants: Vec<Variant> = Vec::new();
    for l in 0..4usize
        invariant
            mats@ == Seq::new(MATERIALS as nat, |i: int| material_at(i)),
            variants@ == menagerie().take(MATERIALS * l),
    {
        let layout = Layout { colors: l >= 2, skinned: l % 2 == 1 };
        for m in 0..MATERIALS
            invariant
                l < 4,
                layout == layout_at(l as int),
                mats@ == Seq::new(MATERIALS as nat, |i: int| material_at(i)),
                variants@ == menagerie().take(MATERIALS * l + m),
        {
            variants.push(Variant { layout, material: mats[m] });
            assert((MATERIALS * l + m) / MATERIALS as int == l);
            assert((MATERIALS * l + m) % MATERIALS as int == m);
            assert(variants@ =~= menagerie().take(MATERIALS * l + m + 1));
        }
    }
    variants
}

/// 1.
#[verifier::allow_in_spec]
pub fn one() -> Single
    returns
        (Single { bits: 0x3f80_0000 }),
{
    Single { bits: 0x3f80_0000 }
}

/// The vertices of a quad of the menagerie.
pub struct WarmQuad {
    pub positions: Vec<Point>,
    pub normals: Vec<Point>,
    pub uvs: Vec<(Single, Single)>,
    pub indices: Vec<u32>,
    /// Four joints and their weights for each vertex; none where it is not skinned.
    pub joints: Vec<(u16, u16, u16, u16)>,
    pub weights: Vec<(Single, Single, Single, Single)>,
    /// A colour for each vertex; none where it is not coloured.
    pub vertex_colors: Vec<(Single, Single, Single, Single)>,
}

fn four<T: Copy>(value: T) -> (v: Vec<T>)
    ensures
        v@ == seq![value, value, value, value],
{
    vec![value, value, value, value]
}

/// This is a unit quad with the attributes of a layout.
pub open spec fn is_warm_quad(quad: WarmQuad, layout: Layout) -> bool {
    &&& quad.positions@ == seq![
        corner(zero(), zero()),
        corner(one(), zero()),
        corner(one(), one()),
        corner(zero(), one()),
    ]
    &&& quad.normals@ == Seq::new(4, |i: int| Point { x: zero(), y: zero(), z: one() })
    &&& quad.uvs@ == seq![(zero(), zero()), (one(), zero()), (one(), one()), (zero(), one())]
    &&& quad.indices@ == seq![0u32, 1, 2, 0, 2, 3]
    &&& quad.joints@ == Seq::new(
        if layout.skinned {
            4nat
        } else {
            0nat
        },
        |i: int| (0u16, 0u16, 0u16, 0u16),
    )
    &&& quad.weights@ == Seq::new(
        if layout.skinned {
            4nat
        } else {
            0nat
        },
        |i: int| (one(), zero(), zero(), zero()),
    )
    &&& quad.vertex_colors@ == Seq::new(
        if layout.colors {
            4nat
        } else {
            0nat
        },
        |i: int| (one(), one(), one(), one()),
    )
}

/// A unit quad with the attributes of a layout.
pub fn warm_quad(layout: Layout) -> (quad: WarmQuad)
    ensures
        is_warm_quad(quad, layout),
{
    let no = zero();
    let yes = one();
    let quad = WarmQuad {
        positions: vec![
            corner(no, no),
            corner(yes, no),
            corner(yes, yes),
            corner(no, yes),
        ],
        normals: four(Point { x: no, y: no, z: yes }),
        uvs: vec![(no, no), (yes, no), (yes, yes), (no, yes)],
        indices: vec![0, 1, 2, 0, 2, 3],
        joints: if layout.skinned {
            four((0, 0, 0, 0))
        } else {
            Vec::new()
        },
        weights: if layout.skinned {
            four((yes, no, no, no))
        } else {
            Vec::new()
        },
        vertex_colors: if layout.colors {
            four((yes, yes, yes, yes))
        } else {
            Vec::new()
        },
    };
    proof {
        assert(quad.normals@ =~= Seq::new(
            4,
            |i: int| Point { x: zero(), y: zero(), z: one() },
        ));
        let corners: nat = if layout.skinned {
            4
        } else {
            0
        };
        let coloured: nat = if layout.colors {
            4
        } else {
            0
        };
        assert(quad.joints@ =~= Seq::new(corners, |i: int| (0u16, 0u16, 0u16, 0u16)));
        assert(quad.weights@ =~= Seq::new(corners, |i: int| (one(), zero(), zero(), zero())));
        assert(quad.vertex_colors@ =~= Seq::new(
            coloured,
            |i: int| (one(), one(), one(), one()),
        ));
    }
    quad
}

/// A corner in the plane of the quad.
#[verifier::allow_in_spec]
pub fn corner(x: Single, y: Single) -> Point
    returns
        (Point { x, y, z: zero() }),
{
    Point { x, y, z: zero() }
}

/// A frame is covered under the loading screen and outside the world, and nowhere else; what was counted
/// stays.
pub proof fn frames_are_covered_or_live(watch: PipeWatch, loading: bool, in_world: bool)
    ensures
        published(watch, loading, in_world).covered <==> loading || !in_world,
        published(watch, loading, in_world).created == watch.created,
        published(watch, loading, in_world).settled == watch.settled,
{
}

/// A pipeline is settled once it is ready or has failed for good. Each pipeline counts once as created
/// and, when it is settled, once as that; the cover stays.
pub proof fn every_pipeline_is_counted(watch: PipeWatch, pipes: Seq<CachedPipe>, pipe: CachedPipe)
    requires
        pipes.len() < usize::MAX,
    ensures
        is_settled(pipe) <==> pipe.state == PipeState::Ready || pipe.state == PipeState::Failed,
        ({
            let before = counted(watch, pipes);
            let after = counted(watch, pipes.push(pipe));
            &&& after.created == before.created + 1
            &&& is_settled(pipe) ==> after.settled == before.settled + 1
            &&& !is_settled(pipe) ==> after.settled == before.settled
            &&& after.covered == watch.covered
            &&& counted(watch, seq![]).created == 0 && counted(watch, seq![]).settled == 0
        }),
{
    reveal(Seq::filter);
    let done = |p: CachedPipe| is_settled(p);
    pipes.lemma_filter_len(done);
    assert(pipes.push(pipe).drop_last() =~= pipes);
}

/// A pipeline is new once: those that were seen are not given out, and each of the others is, under its
/// own number and by its own description, live where no cover hid it.
pub proof fn new_pipelines_are_given_out(
    new: Seq<Compiled>,
    pipes: Seq<CachedPipe>,
    seen: usize,
    covered: bool,
    id: int,
)
    requires
        are_new(new, pipes, seen, covered),
        seen <= id < pipes.len(),
    ensures
        new.len() == pipes.len() - seen,
        new[id - seen].id == id,
        new[id - seen].live <==> !covered,
        new[id - seen].line@ == description(pipes[id].descriptor),
{
}

/// Where every pipeline was seen none is new.
pub proof fn nothing_new_is_nothing_given_out(
    new: Seq<Compiled>,
    pipes: Seq<CachedPipe>,
    seen: usize,
    covered: bool,
)
    requires
        are_new(new, pipes, seen, covered),
        pipes.len() <= seen,
    ensures
        new.len() == 0,
{
}

/// A line of the trace gives the number in brackets, whether a cover hid it, and the description.
pub proof fn the_trace_tells_live_from_covered(id: nat, line: Seq<char>)
    ensures
        trace_text(id, true, line) == "["@ + decimal(id) + "] "@ + "covered"@ + " "@ + line,
        trace_text(id, false, line) == "["@ + decimal(id) + "] "@ + "LIVE"@ + " "@ + line,
{
}

/// What is pending is what was created and is not settled, and never less than nothing.
pub proof fn what_is_not_settled_is_pending(watch: PipeWatch)
    ensures
        watch.settled <= watch.created ==> pending(watch) + watch.settled == watch.created,
        watch.settled > watch.created ==> pending(watch) == 0,
{
}

/// Without a cover in the world the menagerie is cleared and nothing holds. A capture leaves it alone
/// and holds nothing either. Under a cover it comes up once camera and light are there, at that time,
/// and holds until then and on; it comes down drained, from a quarter of a second on with nothing
/// pending, or with so many pending at ten seconds; from then on nothing is done.
pub proof fn how_a_cover_is_warmed(warm: WarmPass, frame: WarmFrame)
    ensures
        ({
            let step = warm_step(warm, frame);
            let after = warmed(warm, frame);
            let covered = frame.loading && frame.in_world;
            let settled = Single::from_bits(0x3e80_0000).at_most(frame.elapsed);
            let late = Single::from_bits(0x4120_0000).at_most(frame.elapsed);
            let drained = settled && pending(frame.watch) == 0;
            &&& !covered ==> step == WarmStep::Clear && after.done && after.spawned_at is None
            &&& covered && frame.capture ==> step == WarmStep::Idle && after.done
                && after.spawned_at == warm.spawned_at
            &&& covered && !frame.capture && warm.spawned_at is None ==> {
                &&& !after.done
                &&& frame.camera && frame.light ==> step == WarmStep::Spawn && after.spawned_at
                    == Some(frame.now)
                &&& !(frame.camera && frame.light) ==> step == WarmStep::Idle
                    && after.spawned_at is None
            }
            &&& covered && !frame.capture && warm.spawned_at is Some ==> {
                &&& after.spawned_at == warm.spawned_at
                &&& warm.done ==> step == WarmStep::Idle && after.done
                &&& !warm.done && drained ==> step == WarmStep::Drained && after.done
                &&& !warm.done && !drained && late ==> step == (WarmStep::TimedOut {
                    pending: pending(frame.watch) as usize,
                }) && after.done
                &&& !warm.done && !drained && !late ==> step == WarmStep::Idle && !after.done
            }
        }),
{
}

/// The menagerie is warmed layout by layout: bare, skinned, coloured, and both; and in each the
/// materials in one order: one-sided before two-sided, the blends in turn with their four depth settings,
/// the glow cards, the fading twin, the depth-only twins, and the clutter at the end.
pub proof fn the_menagerie_is_in_order(
    colors: bool,
    skinned: bool,
    two_sided: bool,
    blend: ModelBlend,
    no_depth_write: bool,
    no_depth_test: bool,
)
    ensures
        ({
            let one = |b: bool|
                if b {
                    1int
                } else {
                    0int
                };
            let layout = Layout { colors, skinned };
            let first = 52 * (2 * one(colors) + one(skinned));
            let side = 25 * one(two_sided);
            let nth = match blend {
                ModelBlend::Opaque => 0int,
                ModelBlend::AlphaTest => 1,
                ModelBlend::Blend => 2,
                ModelBlend::Mod => 3,
                ModelBlend::Mod2x => 4,
            };
            let at = |k: int| menagerie()[first + k];
            let of = |family: Family| Variant { layout, material: WarmMaterial { two_sided, family } };
            &&& menagerie().len() == 208
            &&& at(side + 4 * nth + 2 * one(no_depth_write) + one(no_depth_test)) == of(
                Family::Plain { blend, no_depth_write, no_depth_test },
            )
            &&& at(side + 20 + one(no_depth_write)) == of(Family::Additive { no_depth_write })
            &&& at(side + 22) == of(Family::Fade)
            &&& at(side + 23 + one(no_depth_test)) == of(
                Family::DepthPrime { cutout: no_depth_test },
            )
            &&& at(50 + one(two_sided)) == of(Family::Clutter)
        }),
{
    let layout = Layout { colors, skinned };
    let f1 = Family::Plain { blend, no_depth_write, no_depth_test };
    let f2 = Family::Additive { no_depth_write };
    let f3 = Family::DepthPrime { cutout: no_depth_test };
    a_variant_stands_at(layout, WarmMaterial { two_sided, family: f1 });
    a_variant_stands_at(layout, WarmMaterial { two_sided, family: f2 });
    a_variant_stands_at(layout, WarmMaterial { two_sided, family: Family::Fade });
    a_variant_stands_at(layout, WarmMaterial { two_sided, family: f3 });
    a_variant_stands_at(layout, WarmMaterial { two_sided, family: Family::Clutter });
}

proof fn a_variant_stands_at(layout: Layout, material: WarmMaterial)
    ensures
        0 <= place_of_material(material) < 52,
        menagerie()[52 * (2 * bit(layout.colors) + bit(layout.skinned)) + place_of_material(
            material,
        )] == (Variant { layout, material }),
{
    places_hold_materials(material);
    let l = 2 * bit(layout.colors) + bit(layout.skinned);
    let m = place_of_material(material);
    let at = 52 * l + m;
    assert(0 <= at < VARIANTS);
    assert(at / MATERIALS as int == l && at % MATERIALS as int == m);
    assert(layout_at(l) == layout);
}

/// A quad is a unit square in its plane, facing forward, its texture laid over it corner on corner, and
/// is drawn as two triangles over its diagonal. A skinned one hangs wholly on its first joint; a coloured
/// one is white; and one that is neither has no such vertices at all.
pub proof fn a_quad_is_a_unit_square(quad: WarmQuad, layout: Layout, k: int)
    requires
        is_warm_quad(quad, layout),
        0 <= k < 4,
    ensures
        ({
            let right = k == 1 || k == 2;
            let up = k >= 2;
            let unit = Single::from_bits(0x3f80_0000);
            let none = Single::from_bits(0);
            &&& quad.positions@.len() == 4 && quad.normals@.len() == 4 && quad.uvs@.len() == 4
            &&& quad.positions@[k].x == (if right {
                unit
            } else {
                none
            })
            &&& quad.positions@[k].y == (if up {
                unit
            } else {
                none
            })
            &&& quad.positions@[k].z == none
            &&& quad.uvs@[k].0 == quad.positions@[k].x && quad.uvs@[k].1 == quad.positions@[k].y
            &&& quad.normals@[k].x == none && quad.normals@[k].y == none && quad.normals@[k].z
                == unit
            &&& quad.indices@ == seq![0u32, 1, 2, 0, 2, 3]
            &&& layout.skinned ==> quad.joints@.len() == 4 && quad.weights@.len() == 4
                && quad.joints@[k] == (0u16, 0u16, 0u16, 0u16) && quad.weights@[k] == (
                unit,
                none,
                none,
                none,
            )
            &&& !layout.skinned ==> quad.joints@.len() == 0 && quad.weights@.len() == 0
            &&& layout.colors ==> quad.vertex_colors@.len() == 4 && quad.vertex_colors@[k] == (
                unit,
                unit,
                unit,
                unit,
            )
            &&& !layout.colors ==> quad.vertex_colors@.len() == 0
        }),
{
}

} // verus!
