//! The movement-flag word that a mover reports: which axes it is driving, and the state it is in.
use vstd::prelude::*;

verus! {

pub const FORWARD: u32 = 0x1;

pub const BACKWARD: u32 = 0x2;

pub const STRAFE_LEFT: u32 = 0x4;

pub const STRAFE_RIGHT: u32 = 0x8;

pub const TURN_LEFT: u32 = 0x10;

pub const TURN_RIGHT: u32 = 0x20;

pub const WALK_MODE: u32 = 0x100;

pub const ROOT: u32 = 0x1000;

/// In the air: jumping, or falling after a step-off.
pub const FALLING: u32 = 0x2000;

/// Falling far enough for the fall pose.
pub const FALLING_FAR: u32 = 0x4000;

pub const SWIMMING: u32 = 0x20_0000;

pub const ON_TRANSPORT: u32 = 0x200_0000;

pub const WATER_WALKING: u32 = 0x1000_0000;

/// The forward/back axis.
pub const FORWARD_BACK: u32 = 0x3;

/// The strafe axis.
pub const STRAFE: u32 = 0xc;

/// The keyboard turn axis.
pub const TURN: u32 = 0x30;

/// Any of the four translation directions.
pub const ANY_MOVE: u32 = 0xf;

/// Is any of `bits` set in `flags`?
pub open spec fn any_of(flags: u32, bits: u32) -> bool {
    flags & bits != 0
}

/// Is any of `bits` set in `flags`?
pub fn holds(flags: u32, bits: u32) -> (r: bool)
    ensures
        r == any_of(flags, bits),
{
    flags & bits != 0
}

/// `bits` where `on`, nothing where not.
pub open spec fn bits_if(on: bool, bits: u32) -> u32 {
    if on {
        bits
    } else {
        0
    }
}

/// `bits` where `on`, nothing where not.
pub fn flag_if(on: bool, bits: u32) -> (r: u32)
    ensures
        r == bits_if(on, bits),
{
    if on {
        bits
    } else {
        0
    }
}

/// Each flag is the bit that the wire gives it, and each axis the two flags of its directions.
pub proof fn flags_are_the_wires_bits(flags: u32)
    ensures
        any_of(flags, FORWARD) <==> flags & 0x1 != 0,
        any_of(flags, BACKWARD) <==> flags & 0x2 != 0,
        any_of(flags, STRAFE_LEFT) <==> flags & 0x4 != 0,
        any_of(flags, STRAFE_RIGHT) <==> flags & 0x8 != 0,
        any_of(flags, TURN_LEFT) <==> flags & 0x10 != 0,
        any_of(flags, TURN_RIGHT) <==> flags & 0x20 != 0,
        any_of(flags, WALK_MODE) <==> flags & 0x100 != 0,
        any_of(flags, ROOT) <==> flags & 0x1000 != 0,
        any_of(flags, FALLING) <==> flags & 0x2000 != 0,
        any_of(flags, FALLING_FAR) <==> flags & 0x4000 != 0,
        any_of(flags, SWIMMING) <==> flags & 0x20_0000 != 0,
        any_of(flags, ON_TRANSPORT) <==> flags & 0x200_0000 != 0,
        any_of(flags, WATER_WALKING) <==> flags & 0x1000_0000 != 0,
        any_of(flags, FORWARD_BACK) <==> any_of(flags, FORWARD) || any_of(flags, BACKWARD),
        any_of(flags, STRAFE) <==> any_of(flags, STRAFE_LEFT) || any_of(flags, STRAFE_RIGHT),
        any_of(flags, TURN) <==> any_of(flags, TURN_LEFT) || any_of(flags, TURN_RIGHT),
        any_of(flags, ANY_MOVE) <==> any_of(flags, FORWARD_BACK) || any_of(flags, STRAFE),
{
    assert((flags & 0x3 != 0 <==> flags & 0x1 != 0 || flags & 0x2 != 0) && (flags & 0xc != 0
        <==> flags & 0x4 != 0 || flags & 0x8 != 0) && (flags & 0x30 != 0 <==> flags & 0x10 != 0
        || flags & 0x20 != 0) && (flags & 0xf != 0 <==> flags & 0x3 != 0 || flags & 0xc != 0))
        by (bit_vector);
}

/// Bits that are on are all there and those that are off are not; a flag that was put in is found, and
/// one that was left out is not.
pub proof fn bits_are_there_when_they_are_on(bits: u32)
    requires
        bits != 0,
    ensures
        bits_if(true, bits) == bits,
        bits_if(false, bits) == 0,
        any_of(bits_if(true, bits), bits),
        !any_of(bits_if(false, bits), bits),
{
    assert(bits & bits == bits && 0 & bits == 0) by (bit_vector);
}

} // verus!
