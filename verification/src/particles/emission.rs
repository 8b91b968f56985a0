//! What an emitter is owed each frame. One that pours is owed its rate; one that bursts is owed its
//! whole count once, on the frame its emission opens, and again only after it has closed.
use vstd::prelude::*;

use crate::single::{zero, Single};

verus! {

/// The most live particles of one emitter.
pub const MAX_PARTICLES: usize = 1024;

/// 0.25: the least density.
pub const LEAST_DENSITY: u32 = 0x3e80_0000;

/// 1.0: the most density.
pub const FULL_DENSITY: u32 = 0x3f80_0000;

/// The player's particle settings.
#[derive(Clone, Copy, Debug, PartialEq, Eq, Structural)]
pub struct ParticleTuning {
    /// Scales the rate of emission, and nothing else.
    pub density: Single,
}

/// The density that applies.
pub open spec fn applied_density(density: Single) -> Single {
    density.clamped(Single::from_bits(LEAST_DENSITY), Single::from_bits(FULL_DENSITY))
}

impl ParticleTuning {
    /// Full density.
    pub fn new() -> (tuning: ParticleTuning)
        ensures
            tuning.density == Single::from_bits(FULL_DENSITY),
    {
        ParticleTuning { density: Single::from_bits(FULL_DENSITY) }
    }

    /// The density that applies: between a quarter and the whole.
    pub fn applied(&self) -> (density: Single)
        ensures
            density == applied_density(self.density),
    {
        self.density.clamp(Single::from_bits(LEAST_DENSITY), Single::from_bits(FULL_DENSITY))
    }
}

/// What is loaded into the accumulator of owed births.
#[derive(Clone, Copy, Debug, PartialEq, Eq, Structural)]
pub enum Load {
    /// Nothing; what is owed stays owed.
    Keep,
    /// Nothing, and what was owed is dropped.
    Drop,
    /// The whole count of a burst, in place of what was owed.
    Burst,
    /// This frame's share of the rate, on top of what was owed.
    Pour,
}

/// Emission is open: emitting, at a rate above zero.
pub open spec fn gate(emitting: bool, rate: Single) -> bool {
    emitting && zero().below(rate)
}

/// What a frame loads.
pub open spec fn load_of(burst: bool, emitting: bool, rate: Single, gate_prev: bool) -> Load {
    if !emitting {
        Load::Drop
    } else if !gate(emitting, rate) {
        Load::Keep
    } else if burst {
        if gate_prev {
            Load::Keep
        } else {
            Load::Burst
        }
    } else {
        Load::Pour
    }
}

/// One frame of the emission gate; `rate` is the emission track at the clip's clock.
pub fn accumulate_emission(burst: bool, emitting: bool, rate: Single, gate_prev: &mut bool) -> (load:
    Load)
    ensures
        load == load_of(burst, emitting, rate, *old(gate_prev)),
        *final(gate_prev) == gate(emitting, rate),
{
    let open = emitting && zero().is_below(rate);
    let was = *gate_prev;
    *gate_prev = open;
    if !emitting {
        Load::Drop
    } else if !open {
        Load::Keep
    } else if burst {
        if was {
            Load::Keep
        } else {
            Load::Burst
        }
    } else {
        Load::Pour
    }
}

/// The births of a frame: what is owed, as far as there is room.
pub open spec fn births_of(owed: nat, live: nat) -> nat {
    if live >= MAX_PARTICLES {
        0
    } else if owed <= MAX_PARTICLES - live {
        owed
    } else {
        (MAX_PARTICLES - live) as nat
    }
}

/// The births of a frame: what is owed, as far as there is room.
pub fn births(owed: u64, live: usize) -> (n: usize)
    ensures
        n == births_of(owed as nat, live as nat),
        live <= MAX_PARTICLES ==> live + n <= MAX_PARTICLES,
{
    if live >= MAX_PARTICLES {
        return 0;
    }
    let room: usize = MAX_PARTICLES - live;
    if owed <= room as u64 {
        owed as usize
    } else {
        room
    }
}

/// The loads over a run of frames, each given as whether it emits and at which rate.
pub open spec fn loads_over(burst: bool, frames: Seq<(bool, Single)>, gate_prev: bool) -> Seq<Load>
    decreases frames.len(),
{
    if frames.len() == 0 {
        seq![]
    } else {
        let before = frames.drop_last();
        let prev = if before.len() == 0 {
            gate_prev
        } else {
            gate(before.last().0, before.last().1)
        };
        loads_over(burst, before, gate_prev).push(
            load_of(burst, frames.last().0, frames.last().1, prev),
        )
    }
}

/// A burst fires exactly on the frames where emission opens: it was shut the frame before, and is open
/// now. While it stays open the burst does not fire again.
pub proof fn a_burst_fires_on_the_rising_edge(frames: Seq<(bool, Single)>, gate_prev: bool, i: int)
    requires
        0 <= i < frames.len(),
    ensures
        loads_over(true, frames, gate_prev).len() == frames.len(),
        loads_over(true, frames, gate_prev)[i] == Load::Burst <==> {
            let prev = if i == 0 {
                gate_prev
            } else {
                gate(frames[i - 1].0, frames[i - 1].1)
            };
            gate(frames[i].0, frames[i].1) && !prev
        },
    decreases frames.len(),
{
    let before = frames.drop_last();
    if before.len() > 0 {
        a_burst_fires_on_the_rising_edge(
            before,
            gate_prev,
            if i < before.len() {
                i
            } else {
                0
            },
        );
    } else {
        assert(loads_over(true, before, gate_prev) == Seq::<Load>::empty());
    }
}

/// An emitter that bursts never pours, and one that pours never bursts.
pub proof fn bursts_do_not_pour(emitting: bool, rate: Single, gate_prev: bool)
    ensures
        load_of(true, emitting, rate, gate_prev) != Load::Pour,
        load_of(false, emitting, rate, gate_prev) != Load::Burst,
        load_of(false, emitting, rate, gate_prev) == Load::Pour <==> gate(emitting, rate),
{
}

/// A density between a quarter and the whole applies as it is; a lesser one applies as a quarter, and a
/// greater one as the whole.
pub proof fn density_stays_between_a_quarter_and_the_whole(density: Single)
    ensures
        ({
            let quarter = Single::from_bits(0x3e80_0000);
            let whole = Single::from_bits(0x3f80_0000);
            &&& quarter.at_most(density) && density.at_most(whole) ==> applied_density(density)
                == density
            &&& density.below(quarter) ==> applied_density(density) == quarter
            &&& whole.below(density) ==> applied_density(density) == whole
        }),
{
}

/// Emission is open while the emitter emits at a rate above nought. Shut off, it drops what it owed; at
/// no rate it keeps it. Open, it pours, or where it bursts it loads its burst on the frame it opens and
/// nothing more until it has been shut.
pub proof fn what_a_frame_loads(burst: bool, rate: Single, gate_prev: bool)
    ensures
        !gate(false, rate),
        gate(true, rate) <==> zero().below(rate),
        load_of(burst, false, rate, gate_prev) == Load::Drop,
        !zero().below(rate) ==> load_of(burst, true, rate, gate_prev) == Load::Keep,
        zero().below(rate) ==> load_of(false, true, rate, gate_prev) == Load::Pour,
        zero().below(rate) ==> load_of(true, true, rate, false) == Load::Burst,
        zero().below(rate) ==> load_of(true, true, rate, true) == Load::Keep,
{
}

/// Births are never more than are owed, nor more than there is room for; and they are fewer than owed
/// only where they fill the pool.
pub proof fn births_fill_the_room(owed: nat, live: nat)
    ensures
        births_of(owed, live) <= owed,
        live <= 1024 ==> live + births_of(owed, live) <= 1024,
        live <= 1024 && births_of(owed, live) < owed ==> live + births_of(owed, live) == 1024,
        live >= 1024 ==> births_of(owed, live) == 0,
{
}

} // verus!
