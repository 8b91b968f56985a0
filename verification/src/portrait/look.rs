//! A unit's dressed look: what hangs under it that a booth mirrors.
use vstd::prelude::*;

use crate::single::Point;

verus! {

/// A part of the body: its mesh at rest and with a skin, and its steady material.
#[derive(Clone, Copy, Debug, PartialEq, Eq, Structural)]
pub struct PortraitPart {
    pub static_mesh: u64,
    pub skinned_mesh: Option<u64>,
    pub material: u64,
}

/// Something that rides a bone: a helm, a shoulder, a held item.
#[derive(Clone, Copy, Debug, PartialEq, Eq, Structural)]
pub struct PortraitRider {
    pub static_mesh: u64,
    pub material: u64,
    pub bone: u16,
    pub offset: Point,
}

/// A card on a bone that faces the camera: a glow in the eyes.
#[derive(Clone, Copy, Debug, PartialEq, Eq, Structural)]
pub struct PortraitBillboard {
    pub mesh: u64,
    pub material: u64,
    pub bone: u16,
    pub kind: u32,
}

/// An entity and what hangs under it.
pub struct Node {
    /// Is it the body of a mount?
    pub mount: bool,
    pub part: Option<PortraitPart>,
    pub rider: Option<PortraitRider>,
    pub billboard: Option<PortraitBillboard>,
    pub children: Vec<Node>,
}

/// A dressed look.
pub struct Look {
    pub parts: Vec<PortraitPart>,
    pub riders: Vec<PortraitRider>,
    pub billboards: Vec<PortraitBillboard>,
}

/// A dressed look.
#[verifier::ext_equal]
pub struct LookView {
    pub parts: Seq<PortraitPart>,
    pub riders: Seq<PortraitRider>,
    pub billboards: Seq<PortraitBillboard>,
}

impl View for Look {
    type V = LookView;

    open spec fn view(&self) -> LookView {
        LookView { parts: self.parts@, riders: self.riders@, billboards: self.billboards@ }
    }
}

/// What an option holds, as a sequence.
pub open spec fn held<T>(option: Option<T>) -> Seq<T> {
    match option {
        Some(t) => seq![t],
        None => Seq::empty(),
    }
}

impl LookView {
    /// Nothing.
    pub open spec fn bare() -> LookView {
        LookView { parts: Seq::empty(), riders: Seq::empty(), billboards: Seq::empty() }
    }

    /// One look, and then another.
    pub open spec fn and(self, other: LookView) -> LookView {
        LookView {
            parts: self.parts + other.parts,
            riders: self.riders + other.riders,
            billboards: self.billboards + other.billboards,
        }
    }
}

/// What an entity brings itself: under a mount only what rides a bone.
pub open spec fn own(node: Node, in_mount: bool) -> LookView {
    LookView {
        parts: if in_mount {
            Seq::empty()
        } else {
            held(node.part)
        },
        riders: held(node.rider),
        billboards: if in_mount {
            Seq::empty()
        } else {
            held(node.billboard)
        },
    }
}

/// The look of an entity and all that hangs under it, the last child first. A mount is a creature of
/// its own: its body is left out, and so is all under it but what rides a bone, for while a unit is
/// mounted its own joints hang there.
pub open spec fn look_of(node: Node, in_mount: bool) -> LookView
    decreases node, 0int,
{
    let mounted = in_mount || node.mount;
    own(node, mounted).and(looks_of(node.children@, mounted))
}

/// The look of some children, the last one first.
pub open spec fn looks_of(children: Seq<Node>, in_mount: bool) -> LookView
    decreases children, 1int,
{
    if children.len() == 0 {
        LookView::bare()
    } else {
        look_of(children.last(), in_mount).and(looks_of(children.drop_last(), in_mount))
    }
}

fn gather(node: &Node, in_mount: bool, look: &mut Look)
    ensures
        final(look)@ == old(look)@.and(look_of(*node, in_mount)),
    decreases node,
{
    let ghost start = look@;
    let mounted = in_mount || node.mount;
    if !mounted {
        if let Some(part) = node.part {
            look.parts.push(part);
        }
        if let Some(billboard) = node.billboard {
            look.billboards.push(billboard);
        }
    }
    if let Some(rider) = node.rider {
        look.riders.push(rider);
    }
    assert(look@ == start.and(own(*node, mounted)));
    let mut left: usize = node.children.len();
    assert(node.children@.take(left as int) == node.children@);
    while left > 0
        invariant
            left <= node.children.len(),
            look@.and(looks_of(node.children@.take(left as int), mounted)) == start.and(
                look_of(*node, in_mount),
            ),
        decreases left,
    {
        left = left - 1;
        let ghost before = look@;
        assert(node.children@.take(left + 1).drop_last() == node.children@.take(left as int));
        gather(&node.children[left], mounted, look);
    }
    assert(look@ == look@.and(LookView::bare()));
}

/// The dressed look of a unit.
pub fn collect(unit: &Node) -> (look: Look)
    ensures
        look@ == look_of(*unit, false),
{
    let mut look = Look { parts: Vec::new(), riders: Vec::new(), billboards: Vec::new() };
    gather(unit, false, &mut look);
    assert(look@ == look_of(*unit, false));
    look
}

/// Nothing of a mount's own shows: under one there is neither a part nor a card.
pub proof fn a_mount_shows_nothing(node: Node)
    ensures
        look_of(node, true).parts == Seq::<PortraitPart>::empty(),
        look_of(node, true).billboards == Seq::<PortraitBillboard>::empty(),
    decreases node, 0int,
{
    mounts_show_nothing(node.children@);
}

proof fn mounts_show_nothing(children: Seq<Node>)
    ensures
        looks_of(children, true).parts == Seq::<PortraitPart>::empty(),
        looks_of(children, true).billboards == Seq::<PortraitBillboard>::empty(),
    decreases children, 1int,
{
    if children.len() > 0 {
        a_mount_shows_nothing(children.last());
        mounts_show_nothing(children.drop_last());
    }
}

/// What rides a bone shows the same whether or not it hangs under a mount.
pub proof fn riders_show_mounted_or_not(node: Node)
    ensures
        look_of(node, true).riders == look_of(node, false).riders,
    decreases node, 0int,
{
    children_ride_mounted_or_not(node.children@);
}

proof fn children_ride_mounted_or_not(children: Seq<Node>)
    ensures
        looks_of(children, true).riders == looks_of(children, false).riders,
    decreases children, 1int,
{
    if children.len() > 0 {
        riders_show_mounted_or_not(children.last());
        children_ride_mounted_or_not(children.drop_last());
    }
}

/// What identifies a look: the mesh and the material of everything in it.
pub open spec fn key_of(look: LookView) -> Seq<(u64, u64)> {
    look.parts.map_values(|p: PortraitPart| (p.static_mesh, p.material)) + look.riders.map_values(
        |r: PortraitRider| (r.static_mesh, r.material),
    ) + look.billboards.map_values(|b: PortraitBillboard| (b.mesh, b.material))
}

/// The materials of a look, in the order of its key.
pub open spec fn materials_of(look: LookView) -> Seq<u64> {
    key_of(look).map_values(|k: (u64, u64)| k.1)
}

/// What identifies a look.
pub fn parts_key(look: &Look) -> (key: Vec<(u64, u64)>)
    ensures
        key@ == key_of(look@),
{
    let mut key: Vec<(u64, u64)> = Vec::new();
    for i in 0..look.parts.len()
        invariant
            key@ == look.parts@.take(i as int).map_values(
                |p: PortraitPart| (p.static_mesh, p.material),
            ),
    {
        key.push((look.parts[i].static_mesh, look.parts[i].material));
        assert(key@ =~= look.parts@.take(i + 1).map_values(
            |p: PortraitPart| (p.static_mesh, p.material),
        ));
    }
    let ghost parts = look.parts@.map_values(|p: PortraitPart| (p.static_mesh, p.material));
    assert(key@ == parts);
    for i in 0..look.riders.len()
        invariant
            key@ == parts + look.riders@.take(i as int).map_values(
                |r: PortraitRider| (r.static_mesh, r.material),
            ),
    {
        key.push((look.riders[i].static_mesh, look.riders[i].material));
        assert(key@ =~= parts + look.riders@.take(i + 1).map_values(
            |r: PortraitRider| (r.static_mesh, r.material),
        ));
    }
    let ghost body = parts + look.riders@.map_values(
        |r: PortraitRider| (r.static_mesh, r.material),
    );
    assert(key@ == body);
    for i in 0..look.billboards.len()
        invariant
            key@ == body + look.billboards@.take(i as int).map_values(
                |b: PortraitBillboard| (b.mesh, b.material),
            ),
    {
        key.push((look.billboards[i].mesh, look.billboards[i].material));
        assert(key@ =~= body + look.billboards@.take(i + 1).map_values(
            |b: PortraitBillboard| (b.mesh, b.material),
        ));
    }
    assert(key@ == key_of(look@));
    key
}

/// What an entity brings: its part, its rider and its card where it has them, each once; under a mount
/// only its rider.
pub proof fn what_an_entity_brings(node: Node)
    ensures
        node.part matches Some(part) ==> own(node, false).parts == seq![part],
        node.part is None ==> own(node, false).parts.len() == 0,
        node.billboard matches Some(card) ==> own(node, false).billboards == seq![card],
        node.billboard is None ==> own(node, false).billboards.len() == 0,
        node.rider matches Some(rider) ==> own(node, false).riders == seq![rider] && own(
            node,
            true,
        ).riders == seq![rider],
        node.rider is None ==> own(node, false).riders.len() == 0 && own(node, true).riders.len()
            == 0,
        own(node, true).parts.len() == 0 && own(node, true).billboards.len() == 0,
{
}

/// Looks are put together piece by piece, each kind behind its own; nothing added is nothing changed.
pub proof fn looks_are_put_together(a: LookView, b: LookView)
    ensures
        a.and(b).parts == a.parts + b.parts,
        a.and(b).riders == a.riders + b.riders,
        a.and(b).billboards == a.billboards + b.billboards,
        a.and(LookView::bare()) == a,
        LookView::bare().and(a) == a,
{
    assert(a.and(LookView::bare()) =~= a);
    assert(LookView::bare().and(a) =~= a);
}

/// An entity alone looks as it is; what hangs under one comes behind it. Of some children the last one's
/// look comes first. Everything under a mount is looked at as under a mount, the mount itself among it.
pub proof fn a_look_goes_down_the_tree(node: Node, children: Seq<Node>, child: Node, in_mount: bool)
    ensures
        node.children@.len() == 0 ==> look_of(node, in_mount) == own(node, in_mount || node.mount),
        look_of(node, in_mount) == own(node, in_mount || node.mount).and(
            looks_of(node.children@, in_mount || node.mount),
        ),
        looks_of(children.push(child), in_mount) == look_of(child, in_mount).and(
            looks_of(children, in_mount),
        ),
        looks_of(seq![], in_mount) == LookView::bare(),
        node.mount ==> look_of(node, false) == look_of(node, true),
{
    assert(children.push(child).drop_last() =~= children);
    looks_are_put_together(own(node, in_mount || node.mount), LookView::bare());
}

/// The key of a look names the mesh and the material of each of its parts, then of each rider, then of
/// each card, in their order; its materials are those of the key.
pub proof fn a_key_names_every_piece(look: LookView, i: int)
    ensures
        ({
            let key = key_of(look);
            let parts = look.parts.len() as int;
            let riders = look.riders.len() as int;
            &&& key.len() == parts + riders + look.billboards.len()
            &&& 0 <= i < parts ==> key[i] == (look.parts[i].static_mesh, look.parts[i].material)
            &&& 0 <= i < riders ==> key[parts + i] == (
                look.riders[i].static_mesh,
                look.riders[i].material,
            )
            &&& 0 <= i < look.billboards.len() ==> key[parts + riders + i] == (
                look.billboards[i].mesh,
                look.billboards[i].material,
            )
            &&& materials_of(look).len() == key.len()
            &&& 0 <= i < key.len() ==> materials_of(look)[i] == key[i].1
        }),
{
}

/// The look that the laws speak of is the one that is held.
pub proof fn the_view_shows_the_look(look: Look)
    ensures
        look@.parts == look.parts@,
        look@.riders == look.riders@,
        look@.billboards == look.billboards@,
{
}

} // verus!
