//! Keeping the booths in step with the units: what is baked and when, what the interface shows, and
//! when a booth's camera sleeps.
use vstd::prelude::*;
use std::collections::{HashMap, HashSet};

use crate::portrait::bake::{
    bake_look, bake_of, drawn_with, palette_after, Bake, Palette, PaletteView,
};
use crate::portrait::booth::BoothRig;
use crate::portrait::look::{key_of, parts_key, Look};
use crate::portrait::slots::Slot;
use crate::portrait::stand_in::{portrait_file, temporary_portrait, StandIn};
use crate::single::Single;

verus! {

broadcast use vstd::std_specs::hash::group_hash_axioms;

/// How many frames a booth renders after something in it changed.
pub const BOOTH_SETTLE_FRAMES: u32 = 4;

/// 0.61: the yaw of the body pane before anyone turns it, a three-quarter view.
pub const DEFAULT_YAW: u32 = 0x3f1c_28f6;

/// A booth.
pub struct Booth {
    /// The image it renders into.
    pub target: u64,
    /// What identifies the look that is baked; `None` for an empty booth.
    pub baked: Option<Vec<(u64, u64)>>,
    /// The frames for which its camera stays awake.
    pub wake: u32,
    /// The textures of the last bake that may not have arrived.
    pub pending: Vec<u64>,
}

/// A booth.
#[verifier::ext_equal]
pub struct BoothView {
    pub target: u64,
    pub baked: Option<Seq<(u64, u64)>>,
    pub wake: u32,
    pub pending: Seq<u64>,
}

impl View for Booth {
    type V = BoothView;

    open spec fn view(&self) -> BoothView {
        BoothView {
            target: self.target,
            baked: match self.baked {
                Some(key) => Some(key@),
                None => None,
            },
            wake: self.wake,
            pending: self.pending@,
        }
    }
}

impl Booth {
    /// An empty booth, asleep.
    pub fn new(target: u64) -> (booth: Booth)
        ensures
            booth@ == (BoothView { target, baked: None, wake: 0, pending: Seq::empty() }),
    {
        Booth { target, baked: None, wake: 0, pending: Vec::new() }
    }
}

/// What a slot of the interface shows: a booth's image, or a file.
pub enum PortraitSource {
    Live { image: u64 },
    File { path: String },
}

/// What is to be done about the model in a booth.
#[derive(Clone, Copy, Debug, PartialEq, Eq, Structural)]
pub enum BoothWork {
    Keep,
    /// Take it out.
    Empty,
    /// Take it out, bake the look anew, and aim the camera.
    Bake,
}

/// A body to bake: its dressed look, its rig, and the handles that are kept ready for the twins of its
/// materials.
pub struct Body {
    pub look: Look,
    pub rig: Option<BoothRig>,
    pub fresh: Vec<u64>,
}

/// There is a handle for every material of a body.
pub open spec fn provided(body: Body) -> bool {
    key_of(body.look@).len() <= body.fresh@.len()
}

/// The textures of some materials: of those that can be read and have one.
pub open spec fn textures_of(textures: Map<u64, Option<u64>>, materials: Seq<u64>) -> Seq<u64>
    decreases materials.len(),
{
    if materials.len() == 0 {
        Seq::empty()
    } else {
        let before = textures_of(textures, materials.drop_last());
        match textures.index(materials.last()) {
            Some(texture) if textures.dom().contains(materials.last()) => before.push(texture),
            _ => before,
        }
    }
}

/// The palette after a body was baked.
pub open spec fn painted(palette: PaletteView, body: Body) -> PaletteView {
    palette_after(palette, body.look@, body.fresh@)
}

/// A booth after a body was baked in it. It waits for the textures of what it draws with: the twins,
/// and not the materials that they were made from.
pub open spec fn baked_with(booth: BoothView, body: Body, palette: PaletteView) -> BoothView {
    let after = painted(palette, body);
    BoothView {
        baked: Some(key_of(body.look@)),
        wake: BOOTH_SETTLE_FRAMES,
        pending: textures_of(after.textures, drawn_with(after, body.look@)),
        ..booth
    }
}

/// A booth after it was emptied. The empty stage is rendered too, so that the departed face is gone
/// from the image before the camera sleeps.
pub open spec fn emptied(booth: BoothView) -> BoothView {
    if booth.baked is Some {
        BoothView { baked: None, wake: BOOTH_SETTLE_FRAMES, pending: Seq::empty(), ..booth }
    } else {
        booth
    }
}

/// A booth after a bake was installed in it.
pub open spec fn woken(
    booth: BoothView,
    textures: Map<u64, Option<u64>>,
    twins: Seq<u64>,
) -> BoothView {
    BoothView {
        wake: BOOTH_SETTLE_FRAMES,
        pending: textures_of(textures, twins),
        ..booth
    }
}

/// Wake a booth after a bake: for the settling frames, and for as long as one of the textures of the
/// twins that were installed has not arrived.
pub fn wake_booth(booth: &mut Booth, textures: &HashMap<u64, Option<u64>>, twins: &Vec<u64>)
    ensures
        final(booth)@ == woken(old(booth)@, textures@, twins@),
{
    let mut pending: Vec<u64> = Vec::new();
    for i in 0..twins.len()
        invariant
            pending@ == textures_of(textures@, twins@.take(i as int)),
    {
        assert(twins@.take(i + 1).drop_last() == twins@.take(i as int));
        if let Some(texture) = textures.get(&twins[i]) {
            if let Some(texture) = texture {
                pending.push(*texture);
            }
        }
    }
    assert(twins@.take(twins@.len() as int) == twins@);
    booth.wake = BOOTH_SETTLE_FRAMES;
    booth.pending = pending;
}

/// Bake a body into a booth.
fn rebake(booth: &mut Booth, body: &Body, key: Vec<(u64, u64)>, palette: &mut Palette) -> (bake: Bake)
    requires
        provided(*body),
        key@ == key_of(body.look@),
    ensures
        final(booth)@ == baked_with(old(booth)@, *body, old(palette)@),
        final(palette)@ == painted(old(palette)@, *body),
        bake_of(bake, body.look@, old(palette)@, body.fresh@, body.rig),
{
    let bake = bake_look(&body.look, palette, &body.fresh, &body.rig);
    wake_booth(booth, &palette.textures, &bake.dressed.materials);
    booth.baked = Some(key);
    bake
}

fn same_key(a: &Vec<(u64, u64)>, b: &Vec<(u64, u64)>) -> (r: bool)
    ensures
        r == (a@ == b@),
{
    if a.len() != b.len() {
        return false;
    }
    for i in 0..a.len()
        invariant
            a.len() == b.len(),
            forall|k: int| 0 <= k < i ==> a@[k] == b@[k],
    {
        if a[i].0 != b[i].0 || a[i].1 != b[i].1 {
            assert(a@[i as int] != b@[i as int]);
            return false;
        }
    }
    assert(a@ == b@);
    true
}

fn is_baked(booth: &Booth, key: &Vec<(u64, u64)>) -> (r: bool)
    ensures
        r == (booth@.baked == Some(key@)),
{
    match &booth.baked {
        Some(baked) => same_key(baked, key),
        None => false,
    }
}

fn clear(booth: &mut Booth) -> (work: BoothWork)
    ensures
        final(booth)@ == emptied(old(booth)@),
        work == (if old(booth)@.baked is Some {
            BoothWork::Empty
        } else {
            BoothWork::Keep
        }),
{
    if booth.baked.is_none() {
        return BoothWork::Keep;
    }
    booth.baked = None;
    booth.wake = BOOTH_SETTLE_FRAMES;
    booth.pending = Vec::new();
    BoothWork::Empty
}

/// A unit that a slot shows: its body, and what stands in for it while its look is bare.
pub struct UnitBody {
    pub body: Body,
    pub stand_in: StandIn,
}

/// What is to be done about a slot's booth.
pub open spec fn slot_work(booth: BoothView, unit: Option<UnitBody>) -> BoothWork {
    match unit {
        None => if booth.baked is Some {
            BoothWork::Empty
        } else {
            BoothWork::Keep
        },
        Some(unit) => if unit.body.look@.parts.len() == 0 || booth.baked == Some(
            key_of(unit.body.look@),
        ) {
            BoothWork::Keep
        } else {
            BoothWork::Bake
        },
    }
}

/// A slot's booth after that.
pub open spec fn slot_after(
    booth: BoothView,
    unit: Option<UnitBody>,
    palette: PaletteView,
) -> BoothView {
    match slot_work(booth, unit) {
        BoothWork::Keep => booth,
        BoothWork::Empty => emptied(booth),
        BoothWork::Bake => baked_with(booth, unit->0.body, palette),
    }
}

/// The palette after a slot.
pub open spec fn slot_paint(
    booth: BoothView,
    unit: Option<UnitBody>,
    palette: PaletteView,
) -> PaletteView {
    if slot_work(booth, unit) is Bake {
        painted(palette, unit->0.body)
    } else {
        palette
    }
}

/// The file that a slot shows; `None` where it shows its booth.
pub open spec fn slot_file(unit: Option<UnitBody>) -> Option<Seq<char>> {
    match unit {
        Some(unit) if unit.body.look@.parts.len() == 0 => Some(portrait_file(unit.stand_in)),
        _ => None,
    }
}

/// What a slot shows is as it should be.
pub open spec fn shows(source: PortraitSource, booth: BoothView, unit: Option<UnitBody>) -> bool {
    match slot_file(unit) {
        Some(file) => source is File && source->path@ == file,
        None => source == (PortraitSource::Live { image: booth.target }),
    }
}

/// What came of a slot: the work to do in its booth, the bake where there is one, and what it shows.
pub struct SlotStep {
    pub work: BoothWork,
    pub bake: Option<Bake>,
    pub source: PortraitSource,
}

/// A slot's step is as it should be.
pub open spec fn slot_stepped(
    step: SlotStep,
    booth: BoothView,
    unit: Option<UnitBody>,
    palette: PaletteView,
) -> bool {
    &&& step.work == slot_work(booth, unit)
    &&& step.bake is Some <==> step.work is Bake
    &&& step.bake matches Some(bake) ==> bake_of(
        bake,
        unit->0.body.look@,
        palette,
        unit->0.body.fresh@,
        unit->0.body.rig,
    )
    &&& shows(step.source, booth, unit)
}

/// Keep a slot in step with its unit. Without one the booth is emptied; while the model of one is
/// loading, the slot shows the picture that stands in for it and the booth keeps its last bake; and a
/// look other than the one that is baked is baked.
pub fn sync_slot(booth: &mut Booth, unit: &Option<UnitBody>, palette: &mut Palette) -> (step: SlotStep)
    requires
        unit matches Some(u) ==> provided(u.body),
    ensures
        slot_stepped(step, old(booth)@, *unit, old(palette)@),
        final(booth)@ == slot_after(old(booth)@, *unit, old(palette)@),
        final(palette)@ == slot_paint(old(booth)@, *unit, old(palette)@),
{
    match unit {
        None => {
            let work = clear(booth);
            let source = PortraitSource::Live { image: booth.target };
            SlotStep { work, bake: None, source }
        },
        Some(unit) => {
            if unit.body.look.parts.len() == 0 {
                let source = PortraitSource::File { path: temporary_portrait(unit.stand_in) };
                return SlotStep { work: BoothWork::Keep, bake: None, source };
            }
            let source = PortraitSource::Live { image: booth.target };
            let key = parts_key(&unit.body.look);
            if is_baked(booth, &key) {
                return SlotStep { work: BoothWork::Keep, bake: None, source };
            }
            let bake = rebake(booth, &unit.body, key, palette);
            SlotStep { work: BoothWork::Bake, bake: Some(bake), source }
        },
    }
}

/// The palette that a slot meets: the slots before it have made their twins.
pub open spec fn palette_at(
    palette: PaletteView,
    booths: Seq<Booth>,
    units: Seq<Option<UnitBody>>,
    slot: nat,
) -> PaletteView
    decreases slot,
{
    if slot == 0 {
        palette
    } else {
        let n = (slot - 1) as nat;
        slot_paint(booths[n as int]@, units[n as int], palette_at(palette, booths, units, n))
    }
}

/// The portraits before and after a frame, and the steps that came of it.
pub open spec fn portraits_stepped(
    test: bool,
    booths: Seq<Booth>,
    units: Seq<Option<UnitBody>>,
    palette: PaletteView,
    booths_after: Seq<Booth>,
    palette_after: PaletteView,
    steps: Seq<SlotStep>,
) -> bool {
    &&& booths_after.len() == booths.len()
    &&& test ==> {
        &&& steps.len() == 0
        &&& booths_after == booths
        &&& palette_after == palette
    }
    &&& !test ==> {
        &&& steps.len() == units.len()
        &&& palette_after == palette_at(palette, booths, units, units.len())
        &&& forall|i: int|
            0 <= i < units.len() ==> {
                let met = palette_at(palette, booths, units, i as nat);
                &&& slot_stepped(#[trigger] steps[i], booths[i]@, units[i], met)
                &&& booths_after[i]@ == slot_after(booths[i]@, units[i], met)
            }
    }
}

/// Keep the portraits in step with their units, slot by slot. While the debug bake owns the booths
/// nothing is done.
#[verifier::spinoff_prover]
pub fn sync_portraits(
    test: bool,
    booths: &mut Vec<Booth>,
    units: &Vec<Option<UnitBody>>,
    palette: &mut Palette,
) -> (steps: Vec<SlotStep>)
    requires
        old(booths)@.len() == units@.len(),
        forall|i: int|
            0 <= i < units@.len() ==> (#[trigger] units@[i] matches Some(u) ==> provided(u.body)),
    ensures
        portraits_stepped(
            test,
            old(booths)@,
            units@,
            old(palette)@,
            final(booths)@,
            final(palette)@,
            steps@,
        ),
{
    let mut steps: Vec<SlotStep> = Vec::new();
    if test {
        return steps;
    }
    let ghost start = booths@;
    let ghost paint = palette@;
    for i in 0..units.len()
        invariant
            booths@.len() == start.len(),
            start.len() == units@.len(),
            steps@.len() == i,
            palette@ == palette_at(paint, start, units@, i as nat),
            forall|k: int|
                0 <= k < units@.len() ==> (#[trigger] units@[k] matches Some(u) ==> provided(
                    u.body,
                )),
            forall|k: int| i <= k < start.len() ==> #[trigger] booths@[k] == start[k],
            forall|k: int|
                0 <= k < i ==> {
                    let met = palette_at(paint, start, units@, k as nat);
                    &&& slot_stepped(#[trigger] steps@[k], start[k]@, units@[k], met)
                    &&& booths@[k]@ == slot_after(start[k]@, units@[k], met)
                },
    {
        let ghost held = booths@;
        let ghost came = steps@;
        let step = sync_slot(&mut booths[i], &units[i], palette);
        steps.push(step);
        proof {
            assert forall|k: int| 0 <= k < i + 1 implies {
                let met = palette_at(paint, start, units@, k as nat);
                &&& slot_stepped(#[trigger] steps@[k], start[k]@, units@[k], met)
                &&& booths@[k]@ == slot_after(start[k]@, units@[k], met)
            } by {
                if k < i {
                    assert(steps@[k] == came[k]);
                    assert(booths@[k] == held[k]);
                }
            }
        }
    }
    steps
}

/// Where the units of the slots come from.
pub struct UnitSources {
    pub player: Option<u64>,
    pub target: Option<u64>,
    pub npc: Option<u64>,
    /// The party, by identity and in order.
    pub party: Vec<u64>,
    /// The entities that have streamed in, by identity.
    pub streamed: HashMap<u64, u64>,
}

/// The party member that a slot shows, counted from 0.
pub open spec fn member_of(slot: Slot) -> Option<int> {
    match slot {
        Slot::Party1 => Some(0int),
        Slot::Party2 => Some(1int),
        Slot::Party3 => Some(2int),
        Slot::Party4 => Some(3int),
        _ => None,
    }
}

/// The unit that a slot shows. A party member has one only while it has streamed in.
pub open spec fn unit_of(slot: Slot, sources: UnitSources) -> Option<u64> {
    match slot {
        Slot::Player | Slot::PaperDoll => sources.player,
        Slot::Target => sources.target,
        Slot::Npc => sources.npc,
        _ => {
            let n = member_of(slot)->0;
            if n < sources.party@.len() && sources.streamed@.dom().contains(sources.party@[n]) {
                Some(sources.streamed@[sources.party@[n]])
            } else {
                None
            }
        },
    }
}

/// The unit that a slot shows.
pub fn slot_unit(slot: Slot, sources: &UnitSources) -> (unit: Option<u64>)
    ensures
        unit == unit_of(slot, *sources),
{
    let n: usize = match slot {
        Slot::Player | Slot::PaperDoll => return sources.player,
        Slot::Target => return sources.target,
        Slot::Npc => return sources.npc,
        Slot::Party1 => 0,
        Slot::Party2 => 1,
        Slot::Party3 => 2,
        Slot::Party4 => 3,
    };
    if n >= sources.party.len() {
        return None;
    }
    match sources.streamed.get(&sources.party[n]) {
        Some(entity) => Some(*entity),
        None => None,
    }
}

/// A look that is baked is what its unit looks like, and to look again changes nothing.
pub proof fn the_bake_follows_the_look(
    booth: BoothView,
    unit: Option<UnitBody>,
    palette: PaletteView,
)
    ensures
        ({
            let after = slot_after(booth, unit, palette);
            let paint = slot_paint(booth, unit, palette);
            &&& unit is None ==> after.baked is None
            &&& unit matches Some(u) ==> {
                &&& u.body.look@.parts.len() > 0 ==> after.baked == Some(key_of(u.body.look@))
                &&& u.body.look@.parts.len() == 0 ==> after == booth
            }
            &&& slot_work(after, unit) is Keep
            &&& slot_after(after, unit, paint) == after
            &&& slot_paint(after, unit, paint) == paint
        }),
{
}

/// `a == b`, as numbers.
pub open spec fn equal(a: Single, b: Single) -> bool {
    a.at_most(b) && b.at_most(a)
}

/// The yaw of the body pane is not the one that was applied.
pub open spec fn turned(last: Option<Single>, yaw: Single) -> bool {
    match last {
        Some(last) => !equal(last, yaw),
        None => true,
    }
}

/// What came of the body pane: the work to do in its booth, and whether its model is turned.
#[derive(Clone, Copy, Debug, PartialEq, Eq, Structural)]
pub struct PaneStep {
    pub work: BoothWork,
    pub turn: bool,
}

/// A step of the body pane, with the bake where there is one.
pub struct PaneTurn {
    pub step: PaneStep,
    pub bake: Option<Bake>,
}

/// Is there anything to show in the body pane?
pub open spec fn dressed(body: Option<Body>) -> bool {
    body matches Some(body) && body.look@.parts.len() > 0
}

/// What comes of the body pane.
pub open spec fn pane_step(
    booth: BoothView,
    last_yaw: Option<Single>,
    body: Option<Body>,
    yaw: Single,
) -> PaneStep {
    if !dressed(body) {
        PaneStep {
            work: if booth.baked is Some {
                BoothWork::Empty
            } else {
                BoothWork::Keep
            },
            turn: false,
        }
    } else {
        let bake = booth.baked != Some(key_of(body->0.look@));
        PaneStep {
            work: if bake {
                BoothWork::Bake
            } else {
                BoothWork::Keep
            },
            turn: bake || turned(last_yaw, yaw),
        }
    }
}

/// The body pane's booth after that.
pub open spec fn pane_after(
    booth: BoothView,
    body: Option<Body>,
    palette: PaletteView,
    step: PaneStep,
) -> BoothView {
    let worked = match step.work {
        BoothWork::Keep => booth,
        BoothWork::Empty => emptied(booth),
        BoothWork::Bake => baked_with(booth, body->0, palette),
    };
    BoothView {
        wake: if step.turn && worked.wake < BOOTH_SETTLE_FRAMES {
            BOOTH_SETTLE_FRAMES
        } else {
            worked.wake
        },
        ..worked
    }
}

/// The palette after the body pane.
pub open spec fn pane_paint(body: Option<Body>, palette: PaletteView, step: PaneStep) -> PaletteView {
    if step.work is Bake {
        painted(palette, body->0)
    } else {
        palette
    }
}

/// The yaw that the pane's model has after a step.
pub open spec fn yaw_after(last_yaw: Option<Single>, yaw: Single, step: PaneStep) -> Option<Single> {
    if step.turn {
        Some(yaw)
    } else if step.work is Empty {
        None
    } else {
        last_yaw
    }
}

/// Keep the body pane in step with the player: baked like a portrait, and turned to the pane's yaw when
/// it is baked and when the yaw moves. An empty booth has no yaw, and it is always the booth that is
/// shown. While the debug bake owns the booths nothing is done.
pub fn sync_paperdoll(
    test: bool,
    booth: &mut Booth,
    last_yaw: &mut Option<Single>,
    body: &Option<Body>,
    yaw: Single,
    palette: &mut Palette,
) -> (step: Option<PaneTurn>)
    requires
        body matches Some(b) ==> provided(*b),
    ensures
        step is Some <==> !test,
        test ==> {
            &&& final(booth)@ == old(booth)@
            &&& *final(last_yaw) == *old(last_yaw)
            &&& final(palette)@ == old(palette)@
        },
        step matches Some(t) ==> {
            let s = t.step;
            &&& s == pane_step(old(booth)@, *old(last_yaw), *body, yaw)
            &&& t.bake is Some <==> s.work is Bake
            &&& t.bake matches Some(made) ==> bake_of(
                made,
                body->0.look@,
                old(palette)@,
                body->0.fresh@,
                body->0.rig,
            )
            &&& final(booth)@ == pane_after(old(booth)@, *body, old(palette)@, s)
            &&& final(palette)@ == pane_paint(*body, old(palette)@, s)
            &&& *final(last_yaw) == yaw_after(*old(last_yaw), yaw, s)
        },
{
    if test {
        return None;
    }
    let bare = match body {
        Some(worn) => worn.look.parts.len() == 0,
        None => true,
    };
    if bare {
        let work = clear(booth);
        if matches!(work, BoothWork::Empty) {
            *last_yaw = None;
        }
        return Some(PaneTurn { step: PaneStep { work, turn: false }, bake: None });
    }
    let worn = body.as_ref().unwrap();
    let key = parts_key(&worn.look);
    let bake = if is_baked(booth, &key) {
        None
    } else {
        Some(rebake(booth, worn, key, palette))
    };
    let baked = bake.is_some();
    let moved = match *last_yaw {
        Some(last) => !(last.is_at_most(yaw) && yaw.is_at_most(last)),
        None => true,
    };
    let turn = baked || moved;
    if turn {
        *last_yaw = Some(yaw);
        if booth.wake < BOOTH_SETTLE_FRAMES {
            booth.wake = BOOTH_SETTLE_FRAMES;
        }
    }
    let work = if baked {
        BoothWork::Bake
    } else {
        BoothWork::Keep
    };
    Some(PaneTurn { step: PaneStep { work, turn }, bake })
}

/// The pane is turned only by a bake or by a yaw that moved: with the same look and the same number for
/// a yaw the next frame does nothing.
pub proof fn an_idle_pane_is_left_alone(
    booth: BoothView,
    last_yaw: Option<Single>,
    body: Option<Body>,
    yaw: Single,
    palette: PaletteView,
)
    requires
        dressed(body),
        !yaw.nan(),
    ensures
        ({
            let step = pane_step(booth, last_yaw, body, yaw);
            let after = pane_after(booth, body, palette, step);
            let yaw_after = if step.turn {
                Some(yaw)
            } else {
                last_yaw
            };
            let again = pane_step(after, yaw_after, body, yaw);
            &&& again.work is Keep
            &&& !again.turn
            &&& pane_after(after, body, pane_paint(body, palette, step), again) == after
        }),
{
}

/// What keeps a booth's camera awake beside its own state.
#[derive(Clone, Copy, Debug, PartialEq, Eq, Structural)]
pub struct Gate {
    /// The debug bake wants every camera live.
    pub test: bool,
    /// The booth shows a scene that moves.
    pub live_scene: bool,
}

/// The textures still to come.
pub open spec fn missing(pending: Seq<u64>, resident: Set<u64>) -> Seq<u64> {
    pending.filter(|t: u64| !resident.contains(t))
}

/// A booth's frames once the textures that arrived are off its list: the last one to arrive is worth a
/// frame.
pub open spec fn roused(booth: BoothView, resident: Set<u64>) -> u32 {
    if booth.pending.len() > 0 && missing(booth.pending, resident).len() == 0 && booth.wake == 0 {
        1
    } else {
        booth.wake
    }
}

/// Does a booth's camera render this frame?
pub open spec fn renders(booth: BoothView, resident: Set<u64>, gate: Gate) -> bool {
    gate.test || gate.live_scene || roused(booth, resident) > 0 || missing(
        booth.pending,
        resident,
    ).len() > 0
}

/// A booth after a frame.
pub open spec fn after_frame(booth: BoothView, resident: Set<u64>, gate: Gate) -> BoothView {
    let wake = roused(booth, resident);
    BoothView {
        pending: missing(booth.pending, resident),
        wake: if renders(booth, resident, gate) && wake > 0 {
            (wake - 1) as u32
        } else {
            wake
        },
        ..booth
    }
}

/// Does a booth's camera render this frame? It does while there is something new to show: for the
/// settling frames after a change, and until every texture of the bake has arrived and been rendered.
pub fn gate_booth_camera(booth: &mut Booth, resident: &HashSet<u64>, gate: Gate) -> (active: bool)
    ensures
        active == renders(old(booth)@, resident@, gate),
        final(booth)@ == after_frame(old(booth)@, resident@, gate),
{
    let had_pending = booth.pending.len() > 0;
    let mut left: Vec<u64> = Vec::new();
    for i in 0..booth.pending.len()
        invariant
            left@ == missing(booth.pending@.take(i as int), resident@),
    {
        assert(booth.pending@.take(i + 1).drop_last() == booth.pending@.take(i as int));
        reveal(Seq::filter);
        if !resident.contains(&booth.pending[i]) {
            left.push(booth.pending[i]);
        }
    }
    assert(booth.pending@.take(booth.pending@.len() as int) == booth.pending@);
    booth.pending = left;
    if had_pending && booth.pending.len() == 0 && booth.wake < 1 {
        booth.wake = 1;
    }
    let active = gate.test || gate.live_scene || booth.wake > 0 || booth.pending.len() > 0;
    if active {
        booth.wake = booth.wake.saturating_sub(1);
    }
    active
}

/// Which booths' cameras render this frame; `scenes` are the booths that show a scene that moves.
pub fn gate_booth_cameras(
    test: bool,
    booths: &mut Vec<Booth>,
    scenes: &Vec<bool>,
    resident: &HashSet<u64>,
) -> (active: Vec<bool>)
    requires
        old(booths)@.len() == scenes@.len(),
    ensures
        active@.len() == old(booths)@.len(),
        final(booths)@.len() == old(booths)@.len(),
        forall|i: int|
            0 <= i < old(booths)@.len() ==> active@[i] == renders(
                (#[trigger] old(booths)@[i])@,
                resident@,
                Gate { test, live_scene: scenes@[i] },
            ),
        forall|i: int|
            0 <= i < old(booths)@.len() ==> (#[trigger] final(booths)@[i])@ == after_frame(
                old(booths)@[i]@,
                resident@,
                Gate { test, live_scene: scenes@[i] },
            ),
{
    let mut active: Vec<bool> = Vec::new();
    let ghost start = booths@;
    for i in 0..scenes.len()
        invariant
            booths@.len() == start.len(),
            start.len() == scenes@.len(),
            active@.len() == i,
            forall|k: int| i <= k < start.len() ==> #[trigger] booths@[k] == start[k],
            forall|k: int|
                0 <= k < i ==> active@[k] == renders(
                    (#[trigger] start[k])@,
                    resident@,
                    Gate { test, live_scene: scenes@[k] },
                ),
            forall|k: int|
                0 <= k < i ==> (#[trigger] booths@[k])@ == after_frame(
                    start[k]@,
                    resident@,
                    Gate { test, live_scene: scenes@[k] },
                ),
    {
        let gate = Gate { test, live_scene: scenes[i] };
        let renders_now = gate_booth_camera(&mut booths[i], resident, gate);
        active.push(renders_now);
    }
    active
}

/// A booth after so many frames on its own.
pub open spec fn after_frames(booth: BoothView, resident: Set<u64>, frames: nat) -> BoothView
    decreases frames,
{
    if frames == 0 {
        booth
    } else {
        after_frame(
            after_frames(booth, resident, (frames - 1) as nat),
            resident,
            Gate { test: false, live_scene: false },
        )
    }
}

/// A booth with nothing pending renders for exactly the frames it is awake, and then sleeps with its
/// bake kept.
pub proof fn a_still_settles_and_sleeps(booth: BoothView, resident: Set<u64>, frames: nat)
    requires
        booth.pending.len() == 0,
    ensures
        ({
            let b = after_frames(booth, resident, frames);
            &&& b.pending.len() == 0
            &&& b.baked == booth.baked
            &&& b.wake == (if frames < booth.wake {
                booth.wake - frames
            } else {
                0
            })
            &&& renders(b, resident, Gate { test: false, live_scene: false }) == (frames
                < booth.wake)
        }),
    decreases frames,
{
    reveal(Seq::filter);
    if frames > 0 {
        a_still_settles_and_sleeps(booth, resident, (frames - 1) as nat);
    }
}

/// A booth sleeps only when every texture of its bake has arrived, and the frame in which the last one
/// arrives is rendered.
pub proof fn no_texture_is_left_out(booth: BoothView, resident: Set<u64>, gate: Gate)
    requires
        booth.pending.len() > 0,
    ensures
        renders(booth, resident, gate),
{
}

/// The textures of some materials are those of the materials that can be read and have one, in order.
pub proof fn textures_come_in_order(textures: Map<u64, Option<u64>>, materials: Seq<u64>)
    ensures
        textures_of(textures, materials) == materials.filter(
            |m: u64| textures.dom().contains(m) && textures[m] is Some,
        ).map_values(|m: u64| textures[m]->0),
    decreases materials.len(),
{
    reveal(Seq::filter);
    let read = |m: u64| textures.dom().contains(m) && textures[m] is Some;
    if materials.len() > 0 {
        textures_come_in_order(textures, materials.drop_last());
    }
    assert(textures_of(textures, materials) =~= materials.filter(read).map_values(
        |m: u64| textures[m]->0,
    ));
}

/// A booth that was baked is known by the key of its body's look, keeps its image, renders for four
/// frames, and waits for the textures of the twins that it draws with. One that is woken keeps its bake.
pub proof fn a_bake_wakes_its_booth(booth: BoothView, body: Body, palette: PaletteView)
    ensures
        ({
            let after = baked_with(booth, body, palette);
            let paint = palette_after(palette, body.look@, body.fresh@);
            let twins = drawn_with(paint, body.look@);
            let awake = woken(booth, paint.textures, twins);
            &&& after.target == booth.target
            &&& after.baked == Some(key_of(body.look@))
            &&& after.wake == 4
            &&& after.pending == textures_of(paint.textures, twins)
            &&& painted(palette, body) == paint
            &&& awake.target == booth.target && awake.baked == booth.baked
            &&& awake.wake == 4 && awake.pending == after.pending
        }),
{
}

/// A booth that is emptied keeps its image, has nothing baked and nothing to wait for, and renders its
/// empty stage for four frames; one that was empty is left alone.
pub proof fn an_emptied_booth_shows_it(booth: BoothView)
    ensures
        booth.baked is None ==> emptied(booth) == booth,
        booth.baked is Some ==> {
            let after = emptied(booth);
            &&& after.target == booth.target
            &&& after.baked is None
            &&& after.wake == 4
            &&& after.pending.len() == 0
        },
{
}

/// What is done about a slot. Without a unit a booth that shows one is emptied. A unit whose look is
/// bare leaves the booth as it is and the slot shows its stand-in; any other is baked where it is not
/// yet, and its slot shows the booth. Only a bake paints.
pub proof fn what_is_done_about_a_slot(
    booth: BoothView,
    unit: Option<UnitBody>,
    palette: PaletteView,
    step: SlotStep,
)
    requires
        slot_stepped(step, booth, unit, palette),
    ensures
        ({
            let after = slot_after(booth, unit, palette);
            let paint = slot_paint(booth, unit, palette);
            &&& unit is None ==> {
                &&& after == emptied(booth)
                &&& booth.baked is Some ==> step.work == BoothWork::Empty
                &&& booth.baked is None ==> step.work == BoothWork::Keep
                &&& step.source == (PortraitSource::Live { image: booth.target })
                &&& paint == palette
                &&& step.bake is None
            }
            &&& unit matches Some(u) ==> {
                let bare = u.body.look@.parts.len() == 0;
                let shown = booth.baked == Some(key_of(u.body.look@));
                &&& bare ==> step.work == BoothWork::Keep && (step.source matches PortraitSource::File {
                    path,
                } && path@ == portrait_file(u.stand_in))
                &&& !bare ==> step.source == (PortraitSource::Live { image: booth.target })
                &&& !bare && shown ==> step.work == BoothWork::Keep
                &&& bare || shown ==> after == booth && paint == palette && step.bake is None
                &&& !bare && !shown ==> {
                    &&& step.work == BoothWork::Bake
                    &&& after == baked_with(booth, u.body, palette)
                    &&& paint == palette_after(palette, u.body.look@, u.body.fresh@)
                    &&& step.bake matches Some(bake) && bake_of(
                        bake,
                        u.body.look@,
                        palette,
                        u.body.fresh@,
                        u.body.rig,
                    )
                }
            }
        }),
{
}

/// The slots are painted one after the other: the first meets the palette as it was, and each that
/// follows meets what the one before it left.
pub proof fn slots_are_painted_in_turn(
    palette: PaletteView,
    booths: Seq<Booth>,
    units: Seq<Option<UnitBody>>,
    slot: nat,
)
    ensures
        palette_at(palette, booths, units, 0) == palette,
        palette_at(palette, booths, units, slot + 1) == slot_paint(
            booths[slot as int]@,
            units[slot as int],
            palette_at(palette, booths, units, slot),
        ),
{
}

/// The slots of the player and of the body pane show the player, those of the target and of the npc
/// their own, and each of the party's the member of its number, where there is one and it has streamed
/// in.
pub proof fn slots_show_their_units(sources: UnitSources, n: int)
    requires
        0 <= n < 4,
    ensures
        unit_of(Slot::Player, sources) == sources.player,
        unit_of(Slot::PaperDoll, sources) == sources.player,
        unit_of(Slot::Target, sources) == sources.target,
        unit_of(Slot::Npc, sources) == sources.npc,
        ({
            let slot = if n == 0 {
                Slot::Party1
            } else if n == 1 {
                Slot::Party2
            } else if n == 2 {
                Slot::Party3
            } else {
                Slot::Party4
            };
            let here = n < sources.party@.len() && sources.streamed@.dom().contains(
                sources.party@[n],
            );
            &&& here ==> unit_of(slot, sources) == Some(sources.streamed@[sources.party@[n]])
            &&& !here ==> unit_of(slot, sources) is None
        }),
{
}

/// The body pane shows a body that has parts: baked where it is not yet, and turned when it is baked and
/// when its yaw is another number than the one it was turned to. Without such a body it is emptied, and
/// is turned by nothing.
pub proof fn what_is_done_about_the_pane(
    booth: BoothView,
    last_yaw: Option<Single>,
    body: Option<Body>,
    yaw: Single,
    palette: PaletteView,
)
    ensures
        ({
            let step = pane_step(booth, last_yaw, body, yaw);
            let after = pane_after(booth, body, palette, step);
            let paint = pane_paint(body, palette, step);
            let shows = body is Some && (body->0).look@.parts.len() > 0;
            let same = last_yaw matches Some(last) && last.at_most(yaw) && yaw.at_most(last);
            &&& !shows ==> {
                &&& !step.turn
                &&& booth.baked is Some ==> step.work == BoothWork::Empty && yaw_after(
                    last_yaw,
                    yaw,
                    step,
                ) is None
                &&& booth.baked is None ==> step.work == BoothWork::Keep && yaw_after(
                    last_yaw,
                    yaw,
                    step,
                ) == last_yaw
                &&& after == emptied(booth)
                &&& paint == palette
            }
            &&& shows ==> {
                let worn = body->0;
                let baked = booth.baked == Some(key_of(worn.look@));
                &&& baked ==> step.work == BoothWork::Keep && paint == palette
                &&& !baked ==> {
                    &&& step.work == BoothWork::Bake
                    &&& after == baked_with(booth, worn, palette)
                    &&& paint == palette_after(palette, worn.look@, worn.fresh@)
                }
                &&& step.turn <==> !baked || !same
                &&& step.turn ==> yaw_after(last_yaw, yaw, step) == Some(yaw)
                &&& !step.turn ==> yaw_after(last_yaw, yaw, step) == last_yaw && after == booth
                &&& baked && step.turn ==> {
                    &&& after.target == booth.target
                    &&& after.baked == booth.baked
                    &&& after.pending == booth.pending
                    &&& booth.wake >= 4 ==> after.wake == booth.wake
                    &&& booth.wake < 4 ==> after.wake == 4
                }
            }
        }),
{
}

/// A booth's camera renders while it is awake, while a texture is missing and in the frame in which the
/// last one comes; with a scene that moves and in the debug bake always; and otherwise it sleeps.
pub proof fn a_camera_renders_what_is_new(booth: BoothView, resident: Set<u64>, gate: Gate)
    ensures
        gate.test ==> renders(booth, resident, gate),
        gate.live_scene ==> renders(booth, resident, gate),
        booth.wake > 0 ==> renders(booth, resident, gate),
        booth.pending.len() > 0 ==> renders(booth, resident, gate),
        !gate.test && !gate.live_scene && booth.wake == 0 && booth.pending.len() == 0 ==> !renders(
            booth,
            resident,
            gate,
        ),
{
    reveal(Seq::filter);
}

/// A frame takes the textures that have arrived off a booth's list, keeps the others in their order, and
/// takes one from the frames that it is awake where it renders; the image and the bake stay.
pub proof fn what_a_frame_does_to_a_booth(booth: BoothView, resident: Set<u64>, gate: Gate)
    ensures
        ({
            let after = after_frame(booth, resident, gate);
            &&& after.target == booth.target
            &&& after.baked == booth.baked
            &&& after.pending == booth.pending.filter(|t: u64| !resident.contains(t))
            &&& booth.wake > 0 ==> after.wake == booth.wake - 1
            &&& booth.wake == 0 ==> after.wake == 0
        }),
{
}

/// The booth that the laws speak of is the one that is held.
pub proof fn the_view_shows_the_booth(booth: Booth)
    ensures
        booth@.target == booth.target,
        booth@.wake == booth.wake,
        booth@.pending == booth.pending@,
        booth.baked is None ==> booth@.baked is None,
        booth.baked matches Some(key) ==> booth@.baked == Some(key@),
{
}

/// In the debug bake the portraits are left alone. Otherwise every slot takes its step, with its own unit
/// and its own booth, and the palette is what the last of them left.
pub proof fn every_slot_takes_its_step(
    test: bool,
    booths: Seq<Booth>,
    units: Seq<Option<UnitBody>>,
    palette: PaletteView,
    booths_after: Seq<Booth>,
    palette_after: PaletteView,
    steps: Seq<SlotStep>,
    i: int,
)
    requires
        portraits_stepped(test, booths, units, palette, booths_after, palette_after, steps),
        0 <= i < units.len(),
    ensures
        test ==> steps.len() == 0 && booths_after == booths && palette_after == palette,
        !test ==> {
            let met = palette_at(palette, booths, units, i as nat);
            &&& steps.len() == units.len()
            &&& slot_stepped(steps[i], booths[i]@, units[i], met)
            &&& booths_after[i]@ == slot_after(booths[i]@, units[i], met)
            &&& palette_after == palette_at(palette, booths, units, units.len())
        },
        booths_after.len() == booths.len(),
{
}

} // verus!
