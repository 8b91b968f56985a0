//! The bake: how a look becomes a fresh instance, posed at its stand, that a booth's camera shoots.
use vstd::prelude::*;

use crate::particles::sim::{camera_seeing, first_seeing, Layers};
use crate::single::Point;

verus! {

/// What a mesh carries to its shader: the slot of its rig's palette, the slot of its light probe, and
/// the alpha it is drawn with, out of [`OPAQUE`].
#[derive(Clone, Copy, Debug, PartialEq, Eq, Structural)]
pub struct MeshTag {
    pub rig: u16,
    pub probe: u16,
    pub alpha: u8,
}

/// The alpha of what is not see-through.
pub const OPAQUE: u8 = 63;

/// A mesh that goes into a bake.
#[derive(Clone, Copy, Debug, PartialEq, Eq, Structural)]
pub struct BoothPart {
    pub skinned: Option<u64>,
    pub static_mesh: u64,
    pub material: u64,
    /// The alpha that the batch's own animation starts at, where it has one.
    pub alpha: Option<u8>,
}

/// Something that rides a bone into a bake.
#[derive(Clone, Copy, Debug, PartialEq, Eq, Structural)]
pub struct BoothRider {
    pub mesh: u64,
    pub material: u64,
    pub bone: u16,
    pub offset: Point,
}

/// A card on a bone that goes into a bake.
#[derive(Clone, Copy, Debug, PartialEq, Eq, Structural)]
pub struct BoothBillboardSpec {
    pub mesh: u64,
    pub material: u64,
    pub bone: u16,
    pub kind: u32,
}

/// A still, frozen at the start of the stand; or a scene in which the stand loops.
#[derive(Clone, Copy, Debug, PartialEq, Eq, Structural)]
pub enum BoothMotion {
    Frozen,
    Loop,
}

/// The animations of a rig.
pub struct RigAnimations {
    /// The bones that are keyed to a clock of their own.
    pub global_bones: Vec<u16>,
    /// The stand, where the model has one.
    pub stand: Option<u32>,
    /// The overlays that close the right hand and the left.
    pub close_right: Option<u32>,
    pub close_left: Option<u32>,
}

/// A skeleton: how many joints it has, the palette slot it was given (0 where there was none left),
/// and its animations.
pub struct BoothRig {
    pub joints: usize,
    pub slot: u16,
    pub animations: Option<RigAnimations>,
}

/// A mesh of the bake.
#[derive(Clone, Copy, Debug, PartialEq, Eq, Structural)]
pub struct SpawnedPart {
    pub mesh: u64,
    pub material: u64,
    pub tag: Option<MeshTag>,
    /// Is its alpha written as its animation runs?
    pub alpha_driven: bool,
    /// Is it bound to the rig?
    pub rigged: bool,
}

/// What becomes of the bones with a clock of their own.
pub enum GlobalBones {
    Untouched,
    /// They run.
    Driven,
    /// These are set to where they start.
    Frozen { bones: Vec<u16> },
}

/// The animation that a bake plays.
pub struct Pose {
    pub stand: u32,
    pub looping: bool,
    /// The overlays over it.
    pub grips: Vec<u32>,
}

/// A bake.
pub struct BoothModel {
    pub parts: Vec<SpawnedPart>,
    /// Which of the riders, and of the cards, are seated on their joint.
    pub riders: Vec<usize>,
    pub billboards: Vec<usize>,
    pub bones: GlobalBones,
    pub pose: Option<Pose>,
}

/// The joints of a rig; none without one.
pub open spec fn joints_of(rig: Option<BoothRig>) -> nat {
    match rig {
        Some(rig) => rig.joints as nat,
        None => 0,
    }
}

/// The palette slot of a rig that has joints; 0 without.
pub open spec fn slot_of(rig: Option<BoothRig>) -> u16 {
    match rig {
        Some(rig) if rig.joints > 0 => rig.slot,
        _ => 0,
    }
}

/// The animations of a rig that has joints.
pub open spec fn animations_of(rig: Option<BoothRig>) -> Option<RigAnimations> {
    match rig {
        Some(rig) if rig.joints > 0 => rig.animations,
        _ => None,
    }
}

/// A mesh of the bake: with its skin where there is one and a slot to bind it to, and tagged with the
/// slot, and with its own alpha or as opaque; one that is neither bound nor has an alpha is untagged.
pub open spec fn part_plan(part: BoothPart, slot: u16) -> SpawnedPart {
    let rigged = part.skinned is Some && slot != 0;
    SpawnedPart {
        mesh: if rigged {
            part.skinned->0
        } else {
            part.static_mesh
        },
        material: part.material,
        tag: if part.alpha is Some || rigged {
            Some(
                MeshTag {
                    rig: if rigged {
                        slot
                    } else {
                        0
                    },
                    probe: 0,
                    alpha: match part.alpha {
                        Some(alpha) => alpha,
                        None => OPAQUE,
                    },
                },
            )
        } else {
            None
        },
        alpha_driven: part.alpha is Some,
        rigged,
    }
}

/// Which of some bones a skeleton has.
pub open spec fn seats(bones: Seq<u16>, joints: nat) -> Seq<usize>
    decreases bones.len(),
{
    if bones.len() == 0 {
        Seq::empty()
    } else {
        let before = seats(bones.drop_last(), joints);
        if bones.last() < joints {
            before.push((bones.len() - 1) as usize)
        } else {
            before
        }
    }
}

/// The bones that a skeleton has.
pub open spec fn had(bones: Seq<u16>, joints: nat) -> Seq<u16> {
    bones.filter(|bone: u16| bone < joints)
}

/// The overlays for the hands that are to be closed, the right one first.
pub open spec fn grips_of(animations: RigAnimations, right: bool, left: bool) -> Seq<u32> {
    (match animations.close_right {
        Some(node) if right => seq![node],
        _ => Seq::empty(),
    }) + (match animations.close_left {
        Some(node) if left => seq![node],
        _ => Seq::empty(),
    })
}

/// A bake is laid out as it should be.
pub open spec fn baked_from(
    model: BoothModel,
    parts: Seq<BoothPart>,
    riders: Seq<BoothRider>,
    rig: Option<BoothRig>,
    motion: BoothMotion,
    right: bool,
    left: bool,
    billboards: Seq<BoothBillboardSpec>,
) -> bool {
    &&& model.parts@ == parts.map_values(|p: BoothPart| part_plan(p, slot_of(rig)))
    &&& model.riders@ == seats(riders.map_values(|r: BoothRider| r.bone), joints_of(rig))
    &&& model.billboards@ == seats(
        billboards.map_values(|b: BoothBillboardSpec| b.bone),
        joints_of(rig),
    )
    &&& match (animations_of(rig), motion) {
        (Some(_), BoothMotion::Loop) => model.bones is Driven,
        (Some(animations), BoothMotion::Frozen) => model.bones is Frozen
            && model.bones->Frozen_bones@ == had(animations.global_bones@, joints_of(rig)),
        (None, _) => model.bones is Untouched,
    }
    &&& match animations_of(rig) {
        Some(animations) => {
            &&& model.pose is Some <==> animations.stand is Some
            &&& model.pose matches Some(pose) ==> {
                &&& animations.stand == Some(pose.stand)
                &&& pose.looping == (motion is Loop)
                &&& pose.grips@ == grips_of(animations, right, left)
            }
        },
        None => model.pose is None,
    }
}

fn plan_part(part: &BoothPart, slot: u16) -> (plan: SpawnedPart)
    ensures
        plan == part_plan(*part, slot),
{
    let mesh = match part.skinned {
        Some(skinned) if slot != 0 => skinned,
        _ => part.static_mesh,
    };
    let rigged = part.skinned.is_some() && slot != 0;
    let rig: u16 = if rigged {
        slot
    } else {
        0
    };
    let tag = match part.alpha {
        Some(alpha) => Some(MeshTag { rig, probe: 0, alpha }),
        None => if rigged {
            Some(MeshTag { rig, probe: 0, alpha: OPAQUE })
        } else {
            None
        },
    };
    SpawnedPart { mesh, material: part.material, tag, alpha_driven: part.alpha.is_some(), rigged }
}

fn seat_riders(riders: &Vec<BoothRider>, joints: usize) -> (seated: Vec<usize>)
    ensures
        seated@ == seats(riders@.map_values(|r: BoothRider| r.bone), joints as nat),
{
    let ghost bones = riders@.map_values(|r: BoothRider| r.bone);
    let mut seated: Vec<usize> = Vec::new();
    for i in 0..riders.len()
        invariant
            bones == riders@.map_values(|r: BoothRider| r.bone),
            seated@ == seats(bones.take(i as int), joints as nat),
    {
        assert(bones.take(i + 1).drop_last() == bones.take(i as int));
        if (riders[i].bone as usize) < joints {
            seated.push(i);
        }
    }
    assert(bones.take(bones.len() as int) == bones);
    seated
}

fn seat_billboards(billboards: &Vec<BoothBillboardSpec>, joints: usize) -> (seated: Vec<usize>)
    ensures
        seated@ == seats(billboards@.map_values(|b: BoothBillboardSpec| b.bone), joints as nat),
{
    let ghost bones = billboards@.map_values(|b: BoothBillboardSpec| b.bone);
    let mut seated: Vec<usize> = Vec::new();
    for i in 0..billboards.len()
        invariant
            bones == billboards@.map_values(|b: BoothBillboardSpec| b.bone),
            seated@ == seats(bones.take(i as int), joints as nat),
    {
        assert(bones.take(i + 1).drop_last() == bones.take(i as int));
        if (billboards[i].bone as usize) < joints {
            seated.push(i);
        }
    }
    assert(bones.take(bones.len() as int) == bones);
    seated
}

fn bones_within(bones: &Vec<u16>, joints: usize) -> (kept: Vec<u16>)
    ensures
        kept@ == had(bones@, joints as nat),
{
    let mut kept: Vec<u16> = Vec::new();
    for i in 0..bones.len()
        invariant
            kept@ == had(bones@.take(i as int), joints as nat),
    {
        assert(bones@.take(i + 1).drop_last() == bones@.take(i as int));
        reveal(Seq::filter);
        if (bones[i] as usize) < joints {
            kept.push(bones[i]);
        }
    }
    assert(bones@.take(bones@.len() as int) == bones@);
    kept
}

fn take_pose(animations: &RigAnimations, motion: BoothMotion, right: bool, left: bool) -> (pose: Option<
    Pose,
>)
    ensures
        pose is Some <==> animations.stand is Some,
        pose matches Some(p) ==> {
            &&& animations.stand == Some(p.stand)
            &&& p.looping == (motion is Loop)
            &&& p.grips@ == grips_of(*animations, right, left)
        },
{
    match animations.stand {
        Some(stand) => {
            let mut grips: Vec<u32> = Vec::new();
            if let (true, Some(node)) = (right, animations.close_right) {
                grips.push(node);
            }
            if let (true, Some(node)) = (left, animations.close_left) {
                grips.push(node);
            }
            assert(grips@ =~= grips_of(*animations, right, left));
            Some(Pose { stand, looping: matches!(motion, BoothMotion::Loop), grips })
        },
        None => None,
    }
}

/// Lay out a bake. With a rig that has joints the parts are bound to it, what rides a bone is seated on
/// its joint (a bone that the skeleton lacks drops it), the stand is played, frozen or looping, and the
/// hands that hold something close over it. Without one there is only the body at rest.
pub fn spawn_booth_model(
    parts: &Vec<BoothPart>,
    riders: &Vec<BoothRider>,
    rig: &Option<BoothRig>,
    motion: BoothMotion,
    grip_right: bool,
    grip_left: bool,
    billboards: &Vec<BoothBillboardSpec>,
) -> (model: BoothModel)
    ensures
        baked_from(
            model,
            parts@,
            riders@,
            *rig,
            motion,
            grip_right,
            grip_left,
            billboards@,
        ),
{
    let (joints, slot): (usize, u16) = match rig {
        Some(rig) => if rig.joints > 0 {
            (rig.joints, rig.slot)
        } else {
            (0, 0)
        },
        None => (0, 0),
    };
    let mut meshes: Vec<SpawnedPart> = Vec::new();
    for i in 0..parts.len()
        invariant
            slot == slot_of(*rig),
            meshes@ == parts@.take(i as int).map_values(
                |p: BoothPart| part_plan(p, slot_of(*rig)),
            ),
    {
        meshes.push(plan_part(&parts[i], slot));
        assert(meshes@ =~= parts@.take(i + 1).map_values(
            |p: BoothPart| part_plan(p, slot_of(*rig)),
        ));
    }
    assert(parts@.take(parts@.len() as int) == parts@);
    let mut bones = GlobalBones::Untouched;
    let mut pose: Option<Pose> = None;
    if let Some(rig) = rig {
        if rig.joints > 0 {
            if let Some(animations) = &rig.animations {
                bones = match motion {
                    BoothMotion::Loop => GlobalBones::Driven,
                    BoothMotion::Frozen => GlobalBones::Frozen {
                        bones: bones_within(&animations.global_bones, rig.joints),
                    },
                };
                pose = take_pose(animations, motion, grip_right, grip_left);
            }
        }
    }
    BoothModel {
        parts: meshes,
        riders: seat_riders(riders, joints),
        billboards: seat_billboards(billboards, joints),
        bones,
        pose,
    }
}

/// What is seated has its joint, and everything whose joint there is is seated.
pub proof fn seats_are_the_joints_there_are(bones: Seq<u16>, joints: nat, i: usize)
    requires
        bones.len() <= usize::MAX,
    ensures
        seats(bones, joints).contains(i) <==> i < bones.len() && bones[i as int] < joints,
    decreases bones.len(),
{
    if bones.len() > 0 {
        let before = seats(bones.drop_last(), joints);
        seats_are_the_joints_there_are(bones.drop_last(), joints, i);
        let last = (bones.len() - 1) as usize;
        if bones.last() < joints {
            assert(before.push(last)[before.len() as int] == last);
            if before.contains(i) {
                let k = before.index_of(i);
                assert(before.push(last)[k] == i);
            }
            if before.push(last).contains(i) && i != last {
                let k = before.push(last).index_of(i);
                assert(before[k] == i);
            }
        }
    } else {
        assert(seats(bones, joints) == Seq::<usize>::empty());
    }
}

/// A part of a booth whose alpha may be animated.
#[derive(Clone, Copy, Debug, PartialEq, Eq, Structural)]
pub struct TaggedPart {
    /// Is it a booth's to write?
    pub booth: bool,
    /// What its animation says.
    pub current: u8,
    pub tag: MeshTag,
}

/// A part after its alpha was written.
pub open spec fn alpha_written(part: TaggedPart) -> TaggedPart {
    if part.booth {
        TaggedPart { tag: MeshTag { alpha: part.current, ..part.tag }, ..part }
    } else {
        part
    }
}

/// Write the animated alphas of the booths' parts, and nothing else.
pub fn push_booth_mat_alpha(parts: &mut Vec<TaggedPart>)
    ensures
        final(parts)@ == old(parts)@.map_values(|p: TaggedPart| alpha_written(p)),
{
    let ghost start = parts@;
    let count: usize = parts.len();
    for i in 0..count
        invariant
            parts.len() == start.len(),
            count == start.len(),
            forall|k: int| 0 <= k < i ==> #[trigger] parts@[k] == alpha_written(start[k]),
            forall|k: int| i <= k < start.len() ==> #[trigger] parts@[k] == start[k],
    {
        let part = parts[i];
        if part.booth && part.tag.alpha != part.current {
            parts.set(
                i,
                TaggedPart { tag: MeshTag { alpha: part.current, ..part.tag }, ..part },
            );
        }
    }
    assert(parts@ =~= start.map_values(|p: TaggedPart| alpha_written(p)));
}

/// An alpha write leaves the palette slot and the probe slot alone, and leaves alone altogether what
/// is no booth's.
pub proof fn an_alpha_write_keeps_the_slots(part: TaggedPart)
    ensures
        alpha_written(part).tag.rig == part.tag.rig,
        alpha_written(part).tag.probe == part.tag.probe,
        !part.booth ==> alpha_written(part) == part,
        alpha_written(alpha_written(part)) == alpha_written(part),
{
}

/// A card in a booth: its layers, and whether the joint it hangs on is still there.
pub struct BoothCard {
    pub layers: Layers,
    pub jointed: bool,
}

/// The camera that a card is turned to.
pub open spec fn faces(card: BoothCard, cameras: Seq<Layers>) -> Option<usize> {
    if card.jointed {
        first_seeing(cameras, card.layers@)
    } else {
        None
    }
}

/// Which camera each card is turned to: the first one that sees any of its layers. A card whose camera
/// or whose joint is gone is left as it is.
pub fn face_booth_billboards(cards: &Vec<BoothCard>, cameras: &Vec<Layers>) -> (facing: Vec<
    Option<usize>,
>)
    ensures
        facing@ == cards@.map_values(|card: BoothCard| faces(card, cameras@)),
{
    let mut facing: Vec<Option<usize>> = Vec::new();
    for i in 0..cards.len()
        invariant
            facing.len() == i,
            forall|k: int|
                0 <= k < i ==> #[trigger] facing@[k] == (if cards@[k].jointed {
                    first_seeing(cameras@, cards@[k].layers@)
                } else {
                    None
                }),
    {
        facing.push(
            if cards[i].jointed {
                camera_seeing(&cards[i].layers, cameras)
            } else {
                None
            },
        );
    }
    facing
}

/// A rig without joints is no rig: it has no slot and no animation. One with joints has its own.
pub proof fn only_joints_make_a_rig(rig: BoothRig)
    ensures
        joints_of(None) == 0 && slot_of(None) == 0 && animations_of(None) is None,
        joints_of(Some(rig)) == rig.joints,
        rig.joints == 0 ==> slot_of(Some(rig)) == 0 && animations_of(Some(rig)) is None,
        rig.joints > 0 ==> slot_of(Some(rig)) == rig.slot && animations_of(Some(rig))
            == rig.animations,
{
}

/// A part that has a skin is bound to the slot, where there is one: it shows its skinned mesh, tagged
/// with that slot. Any other shows its mesh at rest and belongs to no slot. What has an alpha carries it
/// and is written as it runs; what has none is opaque, and untagged where it is not bound. Its material
/// stays its own.
pub proof fn a_part_is_bound_where_it_can_be(part: BoothPart, slot: u16)
    ensures
        ({
            let plan = part_plan(part, slot);
            let bound = part.skinned is Some && slot != 0;
            &&& plan.material == part.material
            &&& plan.rigged == bound
            &&& bound ==> Some(plan.mesh) == part.skinned
            &&& !bound ==> plan.mesh == part.static_mesh
            &&& plan.alpha_driven == part.alpha is Some
            &&& plan.tag is Some <==> bound || part.alpha is Some
            &&& plan.tag matches Some(tag) ==> {
                &&& bound ==> tag.rig == slot
                &&& !bound ==> tag.rig == 0
                &&& tag.probe == 0
                &&& part.alpha matches Some(alpha) ==> tag.alpha == alpha
                &&& part.alpha is None ==> tag.alpha == 63
            }
        }),
{
}

/// What is seated stays in its order.
pub proof fn seats_keep_their_order(bones: Seq<u16>, joints: nat)
    requires
        bones.len() <= usize::MAX,
    ensures
        forall|i: int, j: int|
            0 <= i < j < seats(bones, joints).len() ==> #[trigger] seats(bones, joints)[i]
                < #[trigger] seats(bones, joints)[j],
        forall|i: int|
            0 <= i < seats(bones, joints).len() ==> #[trigger] seats(bones, joints)[i] < bones.len(),
    decreases bones.len(),
{
    if bones.len() > 0 {
        seats_keep_their_order(bones.drop_last(), joints);
        let before = seats(bones.drop_last(), joints);
        let all = seats(bones, joints);
        assert forall|i: int| 0 <= i < all.len() implies #[trigger] all[i] < bones.len() by {
            if i < before.len() {
                assert(all[i] == before[i]);
            }
        }
        assert forall|i: int, j: int| 0 <= i < j < all.len() implies #[trigger] all[i]
            < #[trigger] all[j] by {
            assert(all[i] == before[i]);
            if j < before.len() {
                assert(all[j] == before[j]);
            }
        }
    }
}

/// A hand closes where it is to be and the model has the overlay for it: the right by the right one's
/// and the left by the left one's, and the right comes first.
pub proof fn hands_close_by_their_own(animations: RigAnimations, right: bool, left: bool)
    ensures
        ({
            let grips = grips_of(animations, right, left);
            let r = right && animations.close_right is Some;
            let l = left && animations.close_left is Some;
            &&& r && l ==> grips == seq![animations.close_right->0, animations.close_left->0]
            &&& r && !l ==> grips == seq![animations.close_right->0]
            &&& !r && l ==> grips == seq![animations.close_left->0]
            &&& !r && !l ==> grips.len() == 0
        }),
{
}

/// What a bake holds: every part in its order, planned for the rig's slot; of the riders and the cards
/// those whose joint there is. With animations it takes the stand, where there is one, looping in a
/// scene and frozen in a still, with the hands closed as asked; its bones with a clock of their own run
/// in a scene, and in a still those that the skeleton has are set to their start. Without, it has
/// neither.
pub proof fn what_a_bake_holds(
    model: BoothModel,
    parts: Seq<BoothPart>,
    riders: Seq<BoothRider>,
    rig: Option<BoothRig>,
    motion: BoothMotion,
    right: bool,
    left: bool,
    cards: Seq<BoothBillboardSpec>,
    i: usize,
)
    requires
        baked_from(model, parts, riders, rig, motion, right, left, cards),
        riders.len() <= usize::MAX,
        cards.len() <= usize::MAX,
    ensures
        model.parts@.len() == parts.len(),
        i < parts.len() ==> model.parts@[i as int] == part_plan(parts[i as int], slot_of(rig)),
        model.riders@.contains(i) <==> i < riders.len() && riders[i as int].bone < joints_of(rig),
        model.billboards@.contains(i) <==> i < cards.len() && cards[i as int].bone < joints_of(rig),
        animations_of(rig) is None ==> model.bones is Untouched && model.pose is None,
        animations_of(rig) matches Some(a) ==> {
            &&& motion is Loop ==> model.bones is Driven
            &&& motion is Frozen ==> (model.bones matches GlobalBones::Frozen { bones } && bones@
                == a.global_bones@.filter(|bone: u16| bone < joints_of(rig)))
            &&& a.stand is None ==> model.pose is None
            &&& a.stand matches Some(stand) ==> (model.pose matches Some(pose) && pose.stand == stand
                && pose.looping == (motion is Loop) && pose.grips@ == grips_of(a, right, left))
        },
{
    let ridden = riders.map_values(|r: BoothRider| r.bone);
    let hung = cards.map_values(|b: BoothBillboardSpec| b.bone);
    seats_are_the_joints_there_are(ridden, joints_of(rig), i);
    seats_are_the_joints_there_are(hung, joints_of(rig), i);
}

/// A booth's part takes the alpha that its animation says.
pub proof fn a_booths_part_takes_its_alpha(part: TaggedPart)
    ensures
        part.booth ==> alpha_written(part).tag.alpha == part.current,
        alpha_written(part).booth == part.booth,
        alpha_written(part).current == part.current,
{
}

/// A card with its joint is turned to the first camera that sees it, and one without is left.
pub proof fn a_card_faces_its_camera(card: BoothCard, cameras: Seq<Layers>)
    ensures
        card.jointed ==> faces(card, cameras) == first_seeing(cameras, card.layers@),
        !card.jointed ==> faces(card, cameras) is None,
{
}

} // verus!
