//! The slots that portraits are baked for, and what each booth is set up with.
use vstd::prelude::*;

verus! {

/// A booth: one of the portraits, or the body in the character window.
#[derive(Clone, Copy, Debug, PartialEq, Eq, Structural)]
pub enum Slot {
    Player,
    Target,
    /// The character that an interaction window is bound to.
    Npc,
    Party1,
    Party2,
    Party3,
    Party4,
    PaperDoll,
}

/// How many portraits there are.
pub const PORTRAITS: usize = 7;

/// The layer of the first portrait; the world and the interface have the ones below.
pub const PORTRAIT_LAYER_BASE: u32 = 2;

/// The side of a portrait's image.
pub const PORTRAIT_SIZE: u32 = 256;

/// The side of the body pane's image.
pub const PAPERDOLL_SIZE: u32 = 512;

/// The order of the first booth's camera; the world's camera is at 0.
pub const FIRST_ORDER: i32 = -100;

impl Slot {
    /// The place of a slot among the booths.
    pub open spec fn place(self) -> int {
        match self {
            Slot::Player => 0,
            Slot::Target => 1,
            Slot::Npc => 2,
            Slot::Party1 => 3,
            Slot::Party2 => 4,
            Slot::Party3 => 5,
            Slot::Party4 => 6,
            Slot::PaperDoll => 7,
        }
    }

    /// The name that the interface gives a slot.
    pub open spec fn name(self) -> Seq<char> {
        match self {
            Slot::Player => "player"@,
            Slot::Target => "target"@,
            Slot::Npc => "npc"@,
            Slot::Party1 => "party1"@,
            Slot::Party2 => "party2"@,
            Slot::Party3 => "party3"@,
            Slot::Party4 => "party4"@,
            Slot::PaperDoll => "paperdoll"@,
        }
    }

    /// The name that the interface gives a slot.
    pub fn token(self) -> (token: String)
        ensures
            token@ == self.name(),
    {
        match self {
            Slot::Player => "player".to_string(),
            Slot::Target => "target".to_string(),
            Slot::Npc => "npc".to_string(),
            Slot::Party1 => "party1".to_string(),
            Slot::Party2 => "party2".to_string(),
            Slot::Party3 => "party3".to_string(),
            Slot::Party4 => "party4".to_string(),
            Slot::PaperDoll => "paperdoll".to_string(),
        }
    }
}

/// Names tell slots apart.
pub proof fn names_are_distinct(a: Slot, b: Slot)
    requires
        a.name() == b.name(),
    ensures
        a == b,
{
    reveal_strlit("player");
    reveal_strlit("target");
    reveal_strlit("npc");
    reveal_strlit("party1");
    reveal_strlit("party2");
    reveal_strlit("party3");
    reveal_strlit("party4");
    reveal_strlit("paperdoll");
    assert("npc"@.len() == 3 && "paperdoll"@.len() == 9 && "player"@.len() == 6);
    assert("target"@.len() == 6 && "party1"@.len() == 6 && "party2"@.len() == 6);
    assert("party3"@.len() == 6 && "party4"@.len() == 6);
    assert("player"@[2] == 'a' && "target"@[2] == 'r' && "party1"@[2] == 'r');
    assert("party2"@[2] == 'r' && "party3"@[2] == 'r' && "party4"@[2] == 'r');
    assert("player"@[0] == 'p' && "target"@[0] == 't' && "party1"@[0] == 'p');
    assert("party2"@[0] == 'p' && "party3"@[0] == 'p' && "party4"@[0] == 'p');
    assert("party1"@[5] == '1' && "party2"@[5] == '2');
    assert("party3"@[5] == '3' && "party4"@[5] == '4');
}

/// What a booth is set up with: its layer, the order of its camera, and the side of its image.
#[derive(Clone, Copy, Debug, PartialEq, Eq, Structural)]
pub struct BoothPlan {
    pub slot: Slot,
    pub layer: u32,
    pub order: i32,
    pub size: u32,
}

/// The slots by their places.
pub open spec fn slot_at(i: int) -> Slot {
    if i == 0 {
        Slot::Player
    } else if i == 1 {
        Slot::Target
    } else if i == 2 {
        Slot::Npc
    } else if i == 3 {
        Slot::Party1
    } else if i == 4 {
        Slot::Party2
    } else if i == 5 {
        Slot::Party3
    } else if i == 6 {
        Slot::Party4
    } else {
        Slot::PaperDoll
    }
}

/// What the booth of a slot is set up with.
pub open spec fn plan_of(slot: Slot) -> BoothPlan {
    BoothPlan {
        slot,
        layer: (PORTRAIT_LAYER_BASE + slot.place()) as u32,
        order: (FIRST_ORDER + slot.place()) as i32,
        size: if slot is PaperDoll {
            PAPERDOLL_SIZE
        } else {
            PORTRAIT_SIZE
        },
    }
}

/// The slots of the portraits.
pub fn slots() -> (slots: Vec<Slot>)
    ensures
        slots@ == Seq::new(PORTRAITS as nat, |i: int| slot_at(i)),
{
    vec![
        Slot::Player,
        Slot::Target,
        Slot::Npc,
        Slot::Party1,
        Slot::Party2,
        Slot::Party3,
        Slot::Party4,
    ]
}

/// The booths: one for each portrait, and one for the body pane.
pub fn setup_booths() -> (plans: Vec<BoothPlan>)
    ensures
        plans@ == Seq::new((PORTRAITS + 1) as nat, |i: int| plan_of(slot_at(i))),
{
    let slots = slots();
    let mut plans: Vec<BoothPlan> = Vec::new();
    for i in 0..PORTRAITS
        invariant
            slots@ == Seq::new(PORTRAITS as nat, |i: int| slot_at(i)),
            plans@ == Seq::new(i as nat, |k: int| plan_of(slot_at(k))),
    {
        let slot = slots[i];
        assert(slot == slot_at(i as int));
        plans.push(
            BoothPlan {
                slot,
                layer: PORTRAIT_LAYER_BASE + i as u32,
                order: FIRST_ORDER + i as i32,
                size: PORTRAIT_SIZE,
            },
        );
        assert(plans@ =~= Seq::new((i + 1) as nat, |k: int| plan_of(slot_at(k))));
    }
    plans.push(
        BoothPlan {
            slot: Slot::PaperDoll,
            layer: PORTRAIT_LAYER_BASE + PORTRAITS as u32,
            order: FIRST_ORDER + PORTRAITS as i32,
            size: PAPERDOLL_SIZE,
        },
    );
    plans
}

/// Every slot has its booth.
pub proof fn every_slot_has_a_booth(slot: Slot)
    ensures
        0 <= slot.place() <= PORTRAITS,
        slot_at(slot.place()) == slot,
{
}

/// No two booths share a layer or an order, none is on a layer of the world or of the interface, and
/// every one is rendered before the world is.
pub proof fn booths_are_apart(a: Slot, b: Slot)
    ensures
        plan_of(a).layer == plan_of(b).layer ==> a == b,
        plan_of(a).order == plan_of(b).order ==> a == b,
        plan_of(a).layer >= PORTRAIT_LAYER_BASE,
        plan_of(a).order < 0,
{
}

/// The slots in their order, each under the name by which the interface asks for it.
pub proof fn slots_have_their_places_and_names(slot: Slot)
    ensures
        match slot {
            Slot::Player => slot.place() == 0 && slot.name() == "player"@,
            Slot::Target => slot.place() == 1 && slot.name() == "target"@,
            Slot::Npc => slot.place() == 2 && slot.name() == "npc"@,
            Slot::Party1 => slot.place() == 3 && slot.name() == "party1"@,
            Slot::Party2 => slot.place() == 4 && slot.name() == "party2"@,
            Slot::Party3 => slot.place() == 5 && slot.name() == "party3"@,
            Slot::Party4 => slot.place() == 6 && slot.name() == "party4"@,
            Slot::PaperDoll => slot.place() == 7 && slot.name() == "paperdoll"@,
        },
{
}

/// The booths stand in the order of their slots, on layers behind those of the world and the interface,
/// and are rendered in that order, long before the world; the body pane has twice the side.
pub proof fn booths_stand_in_order(slot: Slot)
    ensures
        plan_of(slot).slot == slot,
        plan_of(slot).layer == 2 + slot.place(),
        plan_of(slot).order == slot.place() - 100,
        slot == Slot::PaperDoll ==> plan_of(slot).size == 512,
        slot != Slot::PaperDoll ==> plan_of(slot).size == 256,
{
}

} // verus!
