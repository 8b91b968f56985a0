//! Ribbon trails: a ring of edges that are laid at the head, age, and go at the tail, drawn as a
//! strip of quads.
use vstd::prelude::*;
use std::collections::{HashMap, VecDeque};

use crate::single::{zero, Point, Single};

verus! {

broadcast use vstd::std_specs::hash::group_hash_axioms;

/// The most edges that a trail keeps.
pub const MAX_EDGES: usize = 512;

/// 0.001: the alpha of a model at or below which its trails are not drawn.
pub const LEAST_ALPHA: u32 = 0x3a83_126f;

/// 0.1: the longest step that is simulated, in seconds.
pub const LONGEST_STEP: u32 = 0x3dcc_cccd;

/// The step that a frame simulates trails by: the time it took, capped, be it none at all. Without a
/// camera in the world nothing is simulated.
pub open spec fn step_of(camera: bool, delta: Single) -> Option<Single> {
    if camera {
        Some(delta.lesser(Single::from_bits(LONGEST_STEP)))
    } else {
        None
    }
}

/// The step that a frame simulates trails by.
pub fn frame_step(camera: bool, delta: Single) -> (step: Option<Single>)
    ensures
        step == step_of(camera, delta),
{
    if camera {
        Some(delta.least(Single::from_bits(LONGEST_STEP)))
    } else {
        None
    }
}

/// No step is longer than the longest one.
pub proof fn steps_are_capped(camera: bool, delta: Single)
    ensures
        step_of(camera, delta) matches Some(dt) ==> dt.at_most(Single::from_bits(LONGEST_STEP)),
{
}

/// One edge of a trail: its two ends, and when it was laid.
#[derive(Clone, Copy, Debug, PartialEq, Eq, Structural)]
pub struct Edge {
    pub top: Point,
    pub bottom: Point,
    pub born: Single,
}

/// A live trail.
pub struct RibbonTrail {
    /// The entity it rides; `None` once that is gone, and then it drains.
    pub owner: Option<u64>,
    /// The model whose alpha decides whether it is drawn.
    pub alpha_src: Option<u64>,
    /// Edges, oldest first.
    pub edges: VecDeque<Edge>,
}

/// What the spawn rules read of a trail's definition.
pub struct RibbonDef {
    pub textured: bool,
    pub edges_per_second: Single,
    /// The greatest heights of its two tracks.
    pub peak_above: Single,
    pub peak_below: Single,
    /// The animations it shows in; `None` for all of them.
    pub visible_in_anim: Option<HashMap<u16, bool>>,
}

/// Does a trail show in an animation? As it says, or as it says of the first animation, or else yes.
pub open spec fn shows_in(visible: Map<u16, bool>, anim: u16) -> bool {
    if visible.dom().contains(anim) {
        visible[anim]
    } else if visible.dom().contains(0) {
        visible[0]
    } else {
        true
    }
}

/// Is there something to trail: edges, and a height for them?
pub open spec fn trails(def: RibbonDef) -> bool {
    !def.edges_per_second.at_most(zero()) && (zero().below(def.peak_above) || zero().below(
        def.peak_below,
    ))
}

/// Does a trail spawn?
pub open spec fn spawns(def: RibbonDef, current_anim: Option<u16>) -> bool {
    &&& def.visible_in_anim matches Some(visible) ==> shows_in(
        visible@,
        match current_anim {
            Some(anim) => anim,
            None => 0,
        },
    )
    &&& def.textured
    &&& trails(def)
}

/// A trail spawned, or none did.
pub open spec fn spawned(
    trail: Option<RibbonTrail>,
    def: RibbonDef,
    disabled: bool,
    owner: u64,
    current_anim: Option<u16>,
    alpha_src: Option<u64>,
) -> bool {
    &&& trail is Some <==> !disabled && spawns(def, current_anim)
    &&& trail matches Some(t) ==> t.owner == Some(owner) && t.alpha_src == alpha_src && t.edges@
        == Seq::<Edge>::empty()
}

/// Spawn a trail that rides `owner`, where it shows in the owner's animation, has a texture, and has
/// something to trail, and trails are not switched off.
pub fn spawn_ribbon(
    def: &RibbonDef,
    disabled: bool,
    owner: u64,
    current_anim: Option<u16>,
    alpha_src: Option<u64>,
) -> (trail: Option<RibbonTrail>)
    ensures
        spawned(trail, *def, disabled, owner, current_anim, alpha_src),
{
    if disabled {
        return None;
    }
    if let Some(visible) = &def.visible_in_anim {
        let anim: u16 = match current_anim {
            Some(anim) => anim,
            None => 0,
        };
        let shown = match visible.get(&anim) {
            Some(v) => *v,
            None => match visible.get(&0) {
                Some(v) => *v,
                None => true,
            },
        };
        if !shown {
            return None;
        }
    }
    if !def.textured {
        return None;
    }
    if def.edges_per_second.is_at_most(zero()) || !(zero().is_below(def.peak_above)
        || zero().is_below(def.peak_below)) {
        return None;
    }
    Some(RibbonTrail { owner: Some(owner), alpha_src, edges: VecDeque::new() })
}

/// How many edges at the tail have lived their span; `ages` are the ages of the edges, oldest first.
pub open spec fn expired(ages: Seq<Single>, lifetime: Single) -> nat
    decreases ages.len(),
{
    if ages.len() == 0 || !lifetime.at_most(ages[0]) {
        0
    } else {
        1 + expired(ages.drop_first(), lifetime)
    }
}

/// The count of expired edges is the whole of the tail that has expired: every edge it counts has, and
/// the one after them has not.
pub proof fn expiry_splits_the_trail(ages: Seq<Single>, lifetime: Single)
    ensures
        expired(ages, lifetime) <= ages.len(),
        forall|i: int|
            0 <= i < expired(ages, lifetime) ==> lifetime.at_most(#[trigger] ages[i]),
        expired(ages, lifetime) < ages.len() ==> !lifetime.at_most(
            ages[expired(ages, lifetime) as int],
        ),
    decreases ages.len(),
{
    if ages.len() > 0 {
        let rest = ages.drop_first();
        expiry_splits_the_trail(rest, lifetime);
        assert forall|i: int| 0 <= i < expired(ages, lifetime) implies lifetime.at_most(
            #[trigger] ages[i],
        ) by {
            if i > 0 {
                assert(rest[i - 1] == ages[i]);
            }
        }
    }
}

/// A trail before and after the beginning of a frame, and whether it is gone.
pub open spec fn began(
    before: RibbonTrail,
    owner_found: bool,
    after: RibbonTrail,
    gone: bool,
) -> bool {
    &&& after.owner == (if owner_found {
        before.owner
    } else {
        None
    })
    &&& after.edges == before.edges
    &&& after.alpha_src == before.alpha_src
    &&& gone == (after.owner is None && before.edges@.len() == 0)
}

/// A trail before and after the edges at its tail went that have lived their span.
pub open spec fn aged(
    before: RibbonTrail,
    ages: Seq<Single>,
    lifetime: Single,
    after: RibbonTrail,
) -> bool {
    &&& after.edges@ == before.edges@.skip(expired(ages, lifetime) as int)
    &&& after.owner == before.owner
    &&& after.alpha_src == before.alpha_src
}

/// A trail before and after an edge came to its head, and whether that was laid.
pub open spec fn committed(
    before: RibbonTrail,
    edge: Edge,
    after: RibbonTrail,
    laid: bool,
) -> bool {
    &&& laid == (before.owner is Some && before.edges@.len() < MAX_EDGES)
    &&& after.edges@ == (if laid {
        before.edges@.push(edge)
    } else {
        before.edges@
    })
    &&& after.owner == before.owner
    &&& after.alpha_src == before.alpha_src
}

/// Is there a strip to draw?
pub open spec fn is_drawn(trail: RibbonTrail, resident: bool, alpha: Single) -> bool {
    resident && !(trail.alpha_src is Some && alpha.at_most(Single::from_bits(LEAST_ALPHA)))
        && sections_count(trail) >= 2
}

impl RibbonTrail {
    /// How many edges are committed.
    pub fn committed(&self) -> (n: usize)
        ensures
            n == self.edges@.len(),
    {
        self.edges.len()
    }

    /// Begin a frame: follow the owner, or start to drain where it is gone. Does the trail go, having
    /// neither an owner nor an edge left?
    pub fn begin_frame(&mut self, owner_found: bool) -> (gone: bool)
        ensures
            began(*old(self), owner_found, *final(self), gone),
    {
        if self.owner.is_some() && !owner_found {
            self.owner = None;
        }
        self.owner.is_none() && self.edges.len() == 0
    }

    /// Drop the edges at the tail that have lived their span.
    pub fn expire(&mut self, ages: &Vec<Single>, lifetime: Single)
        requires
            ages@.len() == old(self).edges@.len(),
        ensures
            aged(*old(self), ages@, lifetime, *final(self)),
    {
        let ghost whole = self.edges@;
        let ghost n = expired(ages@, lifetime) as int;
        let mut i: usize = 0;
        proof {
            expiry_splits_the_trail(ages@, lifetime);
            assert(whole.skip(0) == whole);
        }
        while i < ages.len() && lifetime.is_at_most(ages[i])
            invariant
                whole == old(self).edges@,
                ages@.len() == whole.len(),
                n == expired(ages@, lifetime),
                i <= n <= ages@.len(),
                n < ages@.len() ==> !lifetime.at_most(ages@[n]),
                self.edges@ == whole.skip(i as int),
                self.owner == old(self).owner,
                self.alpha_src == old(self).alpha_src,
            decreases ages.len() - i,
        {
            proof {
                if i == n {
                    assert(!lifetime.at_most(ages@[n]));
                }
            }
            let _ = self.edges.pop_front();
            assert(self.edges@ =~= whole.skip(i + 1));
            i += 1;
        }
        proof {
            if i < n {
                expiry_splits_the_trail(ages@, lifetime);
                assert(lifetime.at_most(ages@[i as int]));
            }
        }
    }

    /// Lay an edge at the head, while there is an owner to lay it at and room for it. Was it laid?
    pub fn commit(&mut self, edge: Edge) -> (laid: bool)
        ensures
            committed(*old(self), edge, *final(self), laid),
            old(self).edges@.len() <= MAX_EDGES ==> final(self).edges@.len() <= MAX_EDGES,
    {
        if self.owner.is_some() && self.edges.len() < MAX_EDGES {
            self.edges.push_back(edge);
            true
        } else {
            false
        }
    }

    /// Is there a strip to draw: the texture is there, the model is not invisible, and there are two
    /// cross-sections to span? `alpha` is that of the model whose alpha decides.
    pub fn draws(&self, resident: bool, alpha: Single) -> (r: bool)
        ensures
            r == is_drawn(*self, resident, alpha),
    {
        if !resident {
            return false;
        }
        if self.alpha_src.is_some() && alpha.is_at_most(Single::from_bits(LEAST_ALPHA)) {
            return false;
        }
        if self.owner.is_some() {
            self.edges.len() >= 1
        } else {
            self.edges.len() >= 2
        }
    }
}

/// The cross-sections of a trail: its edges, and the head while there is an owner.
pub open spec fn sections_count(trail: RibbonTrail) -> int {
    trail.edges@.len() + (if trail.owner is Some {
        1int
    } else {
        0int
    })
}

/// A cross-section of a strip: its two ends, and how far through its life it is.
#[derive(Clone, Copy, Debug, PartialEq, Eq, Structural)]
pub struct Section {
    pub top: Point,
    pub bottom: Point,
    pub age: Single,
}

/// The cross-sections from the head back: the live head first, then the edges, newest to oldest.
/// `ages` are the fractions of their lives that the edges have behind them, oldest first.
pub open spec fn strip_of(head: Option<Section>, edges: Seq<Edge>, ages: Seq<Single>) -> Seq<Section> {
    (match head {
        Some(section) => seq![section],
        None => seq![],
    }) + Seq::new(
        edges.len(),
        |i: int|
            {
                let k = edges.len() - 1 - i;
                Section { top: edges[k].top, bottom: edges[k].bottom, age: ages[k] }
            },
    )
}

/// Line up the cross-sections of a strip.
pub fn strip(head: Option<Section>, trail: &RibbonTrail, ages: &Vec<Single>) -> (sections: Vec<Section>)
    requires
        ages@.len() == trail.edges@.len(),
    ensures
        sections@ == strip_of(head, trail.edges@, ages@),
{
    let mut sections: Vec<Section> = Vec::new();
    if let Some(section) = head {
        sections.push(section);
    }
    let ghost first = sections@;
    let n: usize = trail.edges.len();
    let mut i: usize = 0;
    while i < n
        invariant
            n == trail.edges@.len(),
            ages@.len() == n,
            i <= n,
            sections@ == first + strip_of(None, trail.edges@, ages@).take(i as int),
        decreases n - i,
    {
        let k: usize = n - 1 - i;
        let edge = trail.edges[k];
        sections.push(Section { top: edge.top, bottom: edge.bottom, age: ages[k] });
        assert(sections@ =~= first + strip_of(None, trail.edges@, ages@).take(i + 1));
        i += 1;
    }
    assert(sections@ =~= strip_of(head, trail.edges@, ages@));
    sections
}

/// One corner of a quad: where it is, how far along the texture, and on which side.
#[derive(Clone, Copy, Debug, PartialEq, Eq, Structural)]
pub struct Corner {
    pub pos: Point,
    pub age: Single,
    pub bottom: bool,
}

/// One quad of a strip.
#[derive(Clone, Copy, Debug, PartialEq, Eq, Structural)]
pub struct Quad {
    pub a: Corner,
    pub b: Corner,
    pub c: Corner,
    pub d: Corner,
}

/// The quad between two cross-sections: along the bottom, and back along the top.
pub open spec fn quad_between(near: Section, far: Section) -> Quad {
    Quad {
        a: Corner { pos: near.bottom, age: near.age, bottom: true },
        b: Corner { pos: far.bottom, age: far.age, bottom: true },
        c: Corner { pos: far.top, age: far.age, bottom: false },
        d: Corner { pos: near.top, age: near.age, bottom: false },
    }
}

/// The quads of a strip, one between each two neighbours.
pub open spec fn quads_of(sections: Seq<Section>) -> Seq<Quad> {
    Seq::new(
        (if sections.len() == 0 {
            0
        } else {
            sections.len() - 1
        }) as nat,
        |i: int| quad_between(sections[i], sections[i + 1]),
    )
}

/// Build the quads of a strip.
pub fn strip_quads(sections: &Vec<Section>) -> (quads: Vec<Quad>)
    ensures
        quads@ == quads_of(sections@),
{
    let mut quads: Vec<Quad> = Vec::new();
    let mut i: usize = 1;
    while i < sections.len()
        invariant
            1 <= i,
            sections.len() > 0 ==> i <= sections.len(),
            sections.len() == 0 ==> i == 1,
            quads@ == quads_of(sections@).take(i - 1),
        decreases sections.len() - i,
    {
        let near = sections[i - 1];
        let far = sections[i];
        quads.push(
            Quad {
                a: Corner { pos: near.bottom, age: near.age, bottom: true },
                b: Corner { pos: far.bottom, age: far.age, bottom: true },
                c: Corner { pos: far.top, age: far.age, bottom: false },
                d: Corner { pos: near.top, age: near.age, bottom: false },
            },
        );
        assert(quads@ =~= quads_of(sections@).take(i as int));
        i += 1;
    }
    assert(quads@ =~= quads_of(sections@));
    quads
}

/// A strip has no gaps: each quad begins on the cross-section that the one before it ended on.
pub proof fn a_strip_has_no_gaps(sections: Seq<Section>, i: int)
    requires
        0 <= i,
        i + 1 < quads_of(sections).len(),
    ensures
        quads_of(sections)[i].b == quads_of(sections)[i + 1].a,
        quads_of(sections)[i].c == quads_of(sections)[i + 1].d,
{
}

/// A strip runs from the live head, where there is one, to the oldest edge.
pub proof fn a_strip_runs_from_head_to_tail(head: Section, edges: Seq<Edge>, ages: Seq<Single>)
    requires
        edges.len() > 0,
        ages.len() == edges.len(),
    ensures
        strip_of(Some(head), edges, ages)[0] == head,
        strip_of(Some(head), edges, ages).last().top == edges[0].top,
        strip_of(Some(head), edges, ages).len() == edges.len() + 1,
        quads_of(strip_of(Some(head), edges, ages)).len() == edges.len(),
{
}

/// Each cross-section of a strip is that of its own edge: counted from the newest on, and after the head
/// where there is one, it has that edge's top as its top, that edge's bottom as its bottom, and that
/// edge's age. A head stands first, as it is, and nothing else is in the strip.
pub proof fn a_section_is_that_of_its_edge(
    head: Option<Section>,
    edges: Seq<Edge>,
    ages: Seq<Single>,
    i: int,
)
    requires
        ages.len() == edges.len(),
        0 <= i < edges.len(),
    ensures
        ({
            let sections = strip_of(head, edges, ages);
            let heads = if head is Some {
                1int
            } else {
                0
            };
            let own = sections[heads + i];
            let newest = edges.len() - 1;
            &&& sections.len() == heads + edges.len()
            &&& head matches Some(first) ==> sections[0] == first
            &&& own.top == edges[newest - i].top
            &&& own.bottom == edges[newest - i].bottom
            &&& own.age == ages[newest - i]
        }),
{
}

/// A strip without edges is its head alone, or nothing.
pub proof fn a_strip_without_edges_is_its_head(head: Section)
    ensures
        strip_of(Some(head), seq![], seq![]) == seq![head],
        strip_of(None, seq![], seq![]).len() == 0,
{
}

/// A quad spans two neighbouring cross-sections: its bottom corners are their bottoms, its top corners
/// their tops, each with its own section's age, and it goes round: near to far along the bottom and
/// back along the top. There is one quad fewer than there are sections.
pub proof fn a_quad_spans_two_neighbours(sections: Seq<Section>, i: int)
    requires
        0 <= i,
        i + 1 < sections.len(),
    ensures
        ({
            let quads = quads_of(sections);
            let near = sections[i];
            let far = sections[i + 1];
            let q = quads[i];
            &&& quads.len() == sections.len() - 1
            &&& q.a.bottom && q.b.bottom && !q.c.bottom && !q.d.bottom
            &&& q.a.pos == near.bottom && q.a.age == near.age
            &&& q.d.pos == near.top && q.d.age == near.age
            &&& q.b.pos == far.bottom && q.b.age == far.age
            &&& q.c.pos == far.top && q.c.age == far.age
        }),
{
}

/// With fewer than two cross-sections there is no quad.
pub proof fn one_section_has_no_quad(sections: Seq<Section>)
    requires
        sections.len() < 2,
    ensures
        quads_of(sections).len() == 0,
{
}

/// A frame simulates the time it took up to a tenth of a second; without a camera it simulates nothing.
pub proof fn a_frame_simulates_its_time(delta: Single)
    ensures
        step_of(false, delta) is None,
        delta.at_most(Single::from_bits(0x3dcc_cccd)) && !delta.nan() ==> step_of(true, delta)
            == Some(delta),
        Single::from_bits(0x3dcc_cccd).below(delta) ==> step_of(true, delta) == Some(
            Single::from_bits(0x3dcc_cccd),
        ),
{
}

/// A trail shows as it says of the animation that its owner is in; as it says of the first where it says
/// nothing of that one, and always where it says nothing of either.
pub proof fn a_trail_shows_as_it_says(visible: Map<u16, bool>, anim: u16)
    ensures
        visible.dom().contains(anim) ==> shows_in(visible, anim) == visible[anim],
        !visible.dom().contains(anim) && visible.dom().contains(0) ==> shows_in(visible, anim)
            == visible[0],
        !visible.dom().contains(anim) && !visible.dom().contains(0) ==> shows_in(visible, anim),
{
}

/// A trail that spawns is textured, lays edges and has a height on one side; it shows in its owner's
/// animation, the first where that is in none; it rides its owner, takes the alpha it was given, and
/// has no edge yet. Trails that are switched off do not spawn.
pub proof fn a_trail_spawns_where_it_shows(
    trail: Option<RibbonTrail>,
    def: RibbonDef,
    disabled: bool,
    owner: u64,
    anim: Option<u16>,
    alpha_src: Option<u64>,
)
    requires
        spawned(trail, def, disabled, owner, anim, alpha_src),
    ensures
        ({
            let now = if anim is Some {
                anim->0
            } else {
                0
            };
            let shows = def.visible_in_anim is None || shows_in((def.visible_in_anim->0)@, now);
            let high = zero().below(def.peak_above) || zero().below(def.peak_below);
            let still = def.edges_per_second.at_most(zero());
            &&& disabled ==> trail is None
            &&& !def.textured ==> trail is None
            &&& !shows ==> trail is None
            &&& still ==> trail is None
            &&& !high ==> trail is None
            &&& !disabled && def.textured && shows && !still && high ==> (trail matches Some(t) && t.owner
                == Some(owner) && t.alpha_src == alpha_src && t.edges@.len() == 0)
        }),
{
}

/// A trail whose owner is found keeps it and stays. One whose owner is gone drains: it keeps its edges
/// and goes once there are none. A drained trail never finds an owner again.
pub proof fn a_trail_drains_without_its_owner(
    before: RibbonTrail,
    owner_found: bool,
    after: RibbonTrail,
    gone: bool,
)
    requires
        began(before, owner_found, after, gone),
    ensures
        owner_found ==> after.owner == before.owner,
        !owner_found ==> after.owner is None,
        before.owner is None ==> after.owner is None,
        after.edges == before.edges && after.alpha_src == before.alpha_src,
        gone ==> after.owner is None && after.edges@.len() == 0,
        after.owner is Some ==> !gone,
        after.edges@.len() > 0 ==> !gone,
        after.owner is None && after.edges@.len() == 0 ==> gone,
{
}

/// Edges go from the tail only and only when they have lived their span: what stays is the newest of
/// them in their order, and the oldest that stays has not lived it.
pub proof fn only_old_edges_go(
    before: RibbonTrail,
    ages: Seq<Single>,
    lifetime: Single,
    after: RibbonTrail,
)
    requires
        ages.len() == before.edges@.len(),
        aged(before, ages, lifetime, after),
    ensures
        ({
            let gone = before.edges@.len() - after.edges@.len();
            &&& 0 <= gone <= before.edges@.len()
            &&& after.edges@ == before.edges@.skip(gone)
            &&& forall|i: int| 0 <= i < gone ==> lifetime.at_most(#[trigger] ages[i])
            &&& gone < ages.len() ==> !lifetime.at_most(ages[gone])
            &&& after.owner == before.owner && after.alpha_src == before.alpha_src
        }),
{
    expiry_splits_the_trail(ages, lifetime);
}

/// An edge is laid at the head, behind all the others, while there is an owner and fewer edges than a
/// trail keeps; otherwise the trail stays as it was.
pub proof fn an_edge_is_laid_at_the_head(
    before: RibbonTrail,
    edge: Edge,
    after: RibbonTrail,
    laid: bool,
)
    requires
        committed(before, edge, after, laid),
    ensures
        laid <==> before.owner is Some && before.edges@.len() < 512,
        laid ==> after.edges@.last() == edge && after.edges@.drop_last() == before.edges@,
        !laid ==> after.edges@ == before.edges@,
        after.owner == before.owner && after.alpha_src == before.alpha_src,
{
    if laid {
        assert(after.edges@.drop_last() =~= before.edges@);
    }
}

/// A strip is drawn between two cross-sections at least: an owner's head and an edge, or two edges. It
/// is not drawn before its texture is there, nor with a model that is all but invisible; with no model
/// to ask, alpha does not matter.
pub proof fn a_strip_is_drawn_between_sections(trail: RibbonTrail, alpha: Single)
    ensures
        !is_drawn(trail, false, alpha),
        ({
            let enough = trail.edges@.len() >= 2 || trail.owner is Some && trail.edges@.len() == 1;
            let unseen = alpha.at_most(Single::from_bits(0x3a83_126f));
            &&& !enough ==> !is_drawn(trail, true, alpha)
            &&& trail.alpha_src is Some && unseen ==> !is_drawn(trail, true, alpha)
            &&& enough && !(trail.alpha_src is Some && unseen) ==> is_drawn(trail, true, alpha)
        }),
{
}

} // verus!
