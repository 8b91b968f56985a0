//! The random numbers behind particle jitter: a 32-bit xorshift, and the seeds it starts from.
use vstd::prelude::*;

use crate::single::Point;

verus! {

/// The multiplier that spreads seeds.
pub const SEED_SPREAD: u32 = 0x9E37_79B9;

/// One step of the generator.
pub open spec fn xorshift(x: u32) -> u32 {
    let a = x ^ (x << 13u32);
    let b = a ^ (a >> 17u32);
    b ^ (b << 5u32)
}

/// Draw the next number, which is also the next state.
pub fn next_u32(state: &mut u32) -> (r: u32)
    ensures
        r == xorshift(*old(state)),
        *final(state) == r,
{
    let mut x: u32 = *state;
    x = x ^ (x << 13u32);
    x = x ^ (x >> 17u32);
    x = x ^ (x << 5u32);
    *state = x;
    x
}

/// The high bits of a draw.
pub open spec fn high_bits(x: u32) -> u32 {
    x >> 8u32
}

/// Draw a number below two to the twenty-fourth: the high bits of the next one. Divided by that power
/// it is uniform between zero and one.
pub fn next_u24(state: &mut u32) -> (r: u32)
    ensures
        r == high_bits(xorshift(*old(state))),
        r < 0x100_0000,
        *final(state) == xorshift(*old(state)),
{
    let x: u32 = next_u32(state);
    assert(x >> 8u32 < 0x100_0000) by (bit_vector);
    x >> 8u32
}

/// Bits turned round to the left.
pub open spec fn rotated(x: u32, n: u32) -> u32 {
    (x << n) | (x >> ((32 - n) as u32))
}

/// A number spread over the seeds, all of which are odd.
pub open spec fn spread(x: u32) -> u32 {
    x.wrapping_mul(SEED_SPREAD) | 1
}

/// The seed of an emitter at a place.
pub open spec fn place_seed(place: Point) -> u32 {
    spread(place.x.bits ^ rotated(place.y.bits, 11) ^ rotated(place.z.bits, 22))
}

/// The seed of an emitter at a place, so that two of the same kind do not flicker in step.
pub fn seed_at(place: Point) -> (seed: u32)
    ensures
        seed == place_seed(place),
        seed != 0,
{
    let y: u32 = place.y.bits;
    let z: u32 = place.z.bits;
    let mixed: u32 = place.x.bits ^ ((y << 11u32) | (y >> 21u32)) ^ ((z << 22u32) | (z >> 10u32));
    let product: u32 = mixed.wrapping_mul(SEED_SPREAD);
    assert(product | 1 != 0) by (bit_vector);
    product | 1
}

/// The number that the seeds of an emitter's children start from.
pub open spec fn child_start(rng: u32) -> u32 {
    rotated(rng, 7) | 1
}

/// The number that the seeds of an emitter's children start from.
pub fn child_seed_start(rng: u32) -> (r: u32)
    ensures
        r == child_start(rng),
{
    ((rng << 7u32) | (rng >> 25u32)) | 1
}

/// The seed after a seed.
pub fn next_seed(seed: u32) -> (r: u32)
    ensures
        r == spread(seed),
        r != 0,
{
    let product: u32 = seed.wrapping_mul(SEED_SPREAD);
    assert(product | 1 != 0) by (bit_vector);
    product | 1
}

/// The generator never gets stuck: zero steps to zero, and nothing else does.
pub proof fn the_generator_never_sticks(x: u32)
    ensures
        xorshift(x) == 0 <==> x == 0,
{
    assert(({
        let a = x ^ (x << 13u32);
        let b = a ^ (a >> 17u32);
        b ^ (b << 5u32)
    }) == 0 <==> x == 0) by (bit_vector);
}

/// The generator loses nothing: different states step to different states.
pub proof fn the_generator_is_injective(x: u32, y: u32)
    requires
        xorshift(x) == xorshift(y),
    ensures
        x == y,
{
    let d = x ^ y;
    assert(({
        let a = d ^ (d << 13u32);
        let b = a ^ (a >> 17u32);
        b ^ (b << 5u32)
    }) == ({
        let a = x ^ (x << 13u32);
        let b = a ^ (a >> 17u32);
        b ^ (b << 5u32)
    }) ^ ({
        let a = y ^ (y << 13u32);
        let b = a ^ (a >> 17u32);
        b ^ (b << 5u32)
    })) by (bit_vector)
        requires
            d == x ^ y,
    ;
    let s = xorshift(x);
    assert(s ^ s == 0) by (bit_vector);
    the_generator_never_sticks(d);
    assert(x ^ y == 0 ==> x == y) by (bit_vector);
}

/// Every seed starts a generator that does not stick.
pub proof fn seeds_are_alive(place: Point, rng: u32)
    ensures
        place_seed(place) != 0,
        child_start(rng) != 0,
        spread(rng) != 0,
{
    let a = (place.x.bits ^ rotated(place.y.bits, 11) ^ rotated(place.z.bits, 22)).wrapping_mul(
        SEED_SPREAD,
    );
    let b = rotated(rng, 7);
    let c = rng.wrapping_mul(SEED_SPREAD);
    assert(a | 1 != 0 && b | 1 != 0 && c | 1 != 0) by (bit_vector);
}

/// A step can be undone: folding the three shifts back, the last first, gives the state it was taken
/// from.
pub proof fn a_step_can_be_undone(x: u32)
    ensures
        ({
            let y = xorshift(x);
            let b = y ^ (y << 5u32) ^ (y << 10u32) ^ (y << 15u32) ^ (y << 20u32) ^ (y << 25u32) ^ (y
                << 30u32);
            let a = b ^ (b >> 17u32);
            x == a ^ (a << 13u32) ^ (a << 26u32)
        }),
{
    let y = xorshift(x);
    assert(({
        let b = y ^ (y << 5u32) ^ (y << 10u32) ^ (y << 15u32) ^ (y << 20u32) ^ (y << 25u32) ^ (y
            << 30u32);
        let a = b ^ (b >> 17u32);
        a ^ (a << 13u32) ^ (a << 26u32)
    }) == x) by (bit_vector)
        requires
            y == ({
                let a = x ^ (x << 13u32);
                let b = a ^ (a >> 17u32);
                b ^ (b << 5u32)
            }),
    ;
}

/// A draw drops the low byte of the number drawn and keeps the rest of it.
pub proof fn a_draw_keeps_the_high_bits(x: u32)
    ensures
        high_bits(x) == x / 256,
{
    assert(x >> 8u32 == x / 256) by (bit_vector);
}

/// A seed is the product with the multiplier as far as it fits, made odd.
pub proof fn seeds_are_odd_products(x: u32)
    ensures
        ({
            let product = (x * 0x9E37_79B9) % 0x1_0000_0000;
            &&& product % 2 == 1 ==> spread(x) == product
            &&& product % 2 == 0 ==> spread(x) == product + 1
        }),
{
    let p = x.wrapping_mul(SEED_SPREAD);
    assert(p == (x * 0x9E37_79B9) % 0x1_0000_0000);
    assert((p % 2 == 1 ==> p | 1 == p) && (p % 2 == 0 ==> p | 1 == p + 1)) by (bit_vector);
}

/// All three coordinates of a place go into its seed: the second turned round by eleven bits and the
/// third by twice as many, so that one that is moved between them counts anew.
pub proof fn every_coordinate_is_in_the_seed(place: Point)
    ensures
        ({
            let x = place.x.bits;
            let y = place.y.bits;
            let z = place.z.bits;
            place_seed(place) == spread(
                x ^ ((y << 11u32) | (y >> 21u32)) ^ ((z << 22u32) | (z >> 10u32)),
            )
        }),
{
}

/// The seeds of children start from the emitter's own number, turned round by seven bits and made odd.
pub proof fn children_start_from_the_emitter(rng: u32)
    ensures
        child_start(rng) == ((rng << 7u32) | (rng >> 25u32)) | 1,
{
}

} // verus!
