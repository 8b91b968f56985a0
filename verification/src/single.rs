//! Single- and double-precision values carried as their bit patterns.
//!
//! The library moves measured quantities (positions, speeds, seconds) from one place to another, asks
//! how they compare, and picks or mirrors them: the lesser of two, the nearest within bounds, the
//! opposite, the magnitude. It adds, multiplies and rounds none. [`Single`] and [`Double`] hold the
//! IEEE-754 bits of such a quantity, so nothing is lost on the way through, and answer the order
//! questions exactly as the arithmetic types do: a NaN is neither below nor above anything, and the
//! two zeros are equal.
use vstd::prelude::*;

verus! {

/// The weight of the sign bit of a [`Single`].
pub const SIGN_32: u32 = 0x8000_0000;

/// The magnitude bits of a single-precision infinity; every larger magnitude is a NaN.
pub const INFINITY_32: u32 = 0x7f80_0000;

/// The weight of the sign bit of a [`Double`].
pub const SIGN_64: u64 = 0x8000_0000_0000_0000;

/// The magnitude bits of a double-precision infinity; every larger magnitude is a NaN.
pub const INFINITY_64: u64 = 0x7ff0_0000_0000_0000;

/// A single-precision quantity, as its bit pattern. `==` compares patterns, not values.
#[derive(Clone, Copy, Debug, PartialEq, Eq, Structural)]
pub struct Single {
    pub bits: u32,
}

/// Positive zero.
#[verifier::allow_in_spec]
pub fn zero() -> Single
    returns
        (Single { bits: 0 }),
{
    Single { bits: 0 }
}

impl Single {
    /// The bits below the sign.
    pub open spec fn magnitude(self) -> int {
        if self.bits >= SIGN_32 {
            self.bits - SIGN_32
        } else {
            self.bits as int
        }
    }

    /// Not a number.
    pub open spec fn nan(self) -> bool {
        self.magnitude() > INFINITY_32
    }

    /// The place of a number on the number line: numbers are in the order of their ranks, and the
    /// two zeros share rank 0.
    pub open spec fn rank(self) -> int {
        if self.bits >= SIGN_32 {
            -self.magnitude()
        } else {
            self.magnitude()
        }
    }

    /// `self < other`.
    pub open spec fn below(self, other: Single) -> bool {
        !self.nan() && !other.nan() && self.rank() < other.rank()
    }

    /// `self <= other`.
    pub open spec fn at_most(self, other: Single) -> bool {
        !self.nan() && !other.nan() && self.rank() <= other.rank()
    }

    /// The place in the total order that also ranks the zeros and the NaNs.
    pub open spec fn total_rank(self) -> int {
        if self.bits >= SIGN_32 {
            -self.magnitude() - 1
        } else {
            self.magnitude()
        }
    }

    /// The same magnitude with the sign turned over.
    pub open spec fn negated(self) -> Single {
        if self.bits >= SIGN_32 {
            Single { bits: (self.bits - SIGN_32) as u32 }
        } else {
            Single { bits: (self.bits + SIGN_32) as u32 }
        }
    }

    /// The same magnitude with the sign clear.
    pub open spec fn absolute(self) -> Single {
        Single { bits: self.magnitude() as u32 }
    }

    /// The smaller of two numbers; the other one where one is a NaN, and `self` where they are equal.
    pub open spec fn lesser(self, other: Single) -> Single {
        if other.below(self) || self.nan() {
            other
        } else {
            self
        }
    }

    /// The nearest number between two bounds; a NaN stays one.
    pub open spec fn clamped(self, low: Single, high: Single) -> Single {
        if self.below(low) {
            low
        } else if high.below(self) {
            high
        } else {
            self
        }
    }

    /// The value that a bit pattern stands for.
    #[verifier::allow_in_spec]
    pub fn from_bits(bits: u32) -> Single
        returns
            (Single { bits }),
    {
        Single { bits }
    }

    /// Is this not a number?
    pub fn is_nan(self) -> (r: bool)
        ensures
            r == self.nan(),
    {
        if self.bits >= SIGN_32 {
            self.bits - SIGN_32 > INFINITY_32
        } else {
            self.bits > INFINITY_32
        }
    }

    fn ranked(self) -> (r: i64)
        ensures
            r == self.rank(),
    {
        if self.bits >= SIGN_32 {
            -((self.bits - SIGN_32) as i64)
        } else {
            self.bits as i64
        }
    }

    /// `self < other`.
    pub fn is_below(self, other: Single) -> (r: bool)
        ensures
            r == self.below(other),
    {
        !self.is_nan() && !other.is_nan() && self.ranked() < other.ranked()
    }

    /// `self <= other`.
    pub fn is_at_most(self, other: Single) -> (r: bool)
        ensures
            r == self.at_most(other),
    {
        !self.is_nan() && !other.is_nan() && self.ranked() <= other.ranked()
    }

    /// The rank in the total order.
    pub fn total_ranked(self) -> (r: i64)
        ensures
            r == self.total_rank(),
    {
        if self.bits >= SIGN_32 {
            -((self.bits - SIGN_32) as i64) - 1
        } else {
            self.bits as i64
        }
    }

    /// `-self`.
    pub fn negate(self) -> (s: Single)
        ensures
            s == self.negated(),
    {
        if self.bits >= SIGN_32 {
            Single { bits: self.bits - SIGN_32 }
        } else {
            Single { bits: self.bits + SIGN_32 }
        }
    }

    /// `|self|`.
    pub fn abs(self) -> (s: Single)
        ensures
            s == self.absolute(),
    {
        if self.bits >= SIGN_32 {
            Single { bits: self.bits - SIGN_32 }
        } else {
            self
        }
    }

    /// The smaller of the two.
    pub fn least(self, other: Single) -> (s: Single)
        ensures
            s == self.lesser(other),
    {
        if other.is_below(self) || self.is_nan() {
            other
        } else {
            self
        }
    }
}

impl Single {
    /// The nearest number between two bounds.
    pub fn clamp(self, low: Single, high: Single) -> (s: Single)
        ensures
            s == self.clamped(low, high),
    {
        if self.is_below(low) {
            low
        } else if high.is_below(self) {
            high
        } else {
            self
        }
    }
}

/// A double-precision quantity, as its bit pattern.
#[derive(Clone, Copy, Debug, PartialEq, Eq, Structural)]
pub struct Double {
    pub bits: u64,
}

impl Double {
    /// The bits below the sign.
    pub open spec fn magnitude(self) -> int {
        if self.bits >= SIGN_64 {
            self.bits - SIGN_64
        } else {
            self.bits as int
        }
    }

    /// Not a number.
    pub open spec fn nan(self) -> bool {
        self.magnitude() > INFINITY_64
    }

    /// The place of a number on the number line.
    pub open spec fn rank(self) -> int {
        if self.bits >= SIGN_64 {
            -self.magnitude()
        } else {
            self.magnitude()
        }
    }

    /// `self <= other`.
    pub open spec fn at_most(self, other: Double) -> bool {
        !self.nan() && !other.nan() && self.rank() <= other.rank()
    }

    /// The value that a bit pattern stands for.
    pub fn from_bits(bits: u64) -> (d: Double)
        ensures
            d.bits == bits,
    {
        Double { bits }
    }

    fn is_nan(self) -> (r: bool)
        ensures
            r == self.nan(),
    {
        if self.bits >= SIGN_64 {
            self.bits - SIGN_64 > INFINITY_64
        } else {
            self.bits > INFINITY_64
        }
    }

    fn ranked(self) -> (r: i64)
        ensures
            r == self.rank(),
    {
        if self.bits >= SIGN_64 {
            -((self.bits - SIGN_64) as i64)
        } else {
            self.bits as i64
        }
    }

    /// `self <= other`.
    pub fn is_at_most(self, other: Double) -> (r: bool)
        ensures
            r == self.at_most(other),
    {
        !self.is_nan() && !other.is_nan() && self.ranked() <= other.ranked()
    }
}

/// A place or a velocity, or any other vector.
///
/// Two sets of axes are in use, and a change of basis lies between them. Ours are the engine's, with
/// `y` up: the avatar and its platform, what we command, and what the server does to our mover are in
/// them. The wire's have `z` up: the moves of remote units and where a corpse lies are in them, as
/// they came. The library takes every place as it stands and changes no basis; a place that crosses the
/// wire is changed where it crosses, on its way out and on its way in.
#[derive(Clone, Copy, Debug, PartialEq, Eq, Structural)]
pub struct Point {
    pub x: Single,
    pub y: Single,
    pub z: Single,
}

/// The origin, and the velocity of something at rest.
#[verifier::allow_in_spec]
pub fn origin() -> Point
    returns
        (Point { x: zero(), y: zero(), z: zero() }),
{
    Point { x: zero(), y: zero(), z: zero() }
}

/// Of two numbers one is below the other, or they are equal in rank; and never two of these at once.
pub proof fn numbers_are_totally_ordered(a: Single, b: Single)
    requires
        !a.nan(),
        !b.nan(),
    ensures
        a.below(b) || b.below(a) || a.rank() == b.rank(),
        !(a.below(b) && b.at_most(a)),
        a.at_most(b) == !b.below(a),
{
}

/// A NaN compares with nothing, itself included.
pub proof fn nan_compares_with_nothing(a: Single, b: Single)
    requires
        a.nan(),
    ensures
        !a.below(b),
        !b.below(a),
        !a.at_most(b),
        !b.at_most(a),
{
}

/// Turning the sign over twice changes nothing, turns the number line round, and keeps the magnitude.
pub proof fn negation_reverses_the_order(a: Single, b: Single)
    ensures
        a.negated().negated() == a,
        a.negated().absolute() == a.absolute(),
        a.negated().rank() == -a.rank(),
        a.below(b) == b.negated().below(a.negated()),
{
}

/// A number has the place that its pattern has below the sign, to the right of nought without a sign and
/// to the left of it with one; what lies beyond infinity is no number. The same holds of a double.
pub proof fn patterns_are_places(s: Single, d: Double)
    ensures
        s.bits < 0x8000_0000 ==> s.rank() == s.bits,
        s.bits >= 0x8000_0000 ==> s.rank() == 0x8000_0000 - s.bits,
        s.nan() <==> 0x7f80_0000 < s.bits < 0x8000_0000 || 0xff80_0000 < s.bits,
        d.bits < 0x8000_0000_0000_0000 ==> d.rank() == d.bits,
        d.bits >= 0x8000_0000_0000_0000 ==> d.rank() == 0x8000_0000_0000_0000 - d.bits,
        d.nan() <==> 0x7ff0_0000_0000_0000 < d.bits < 0x8000_0000_0000_0000
            || 0xfff0_0000_0000_0000 < d.bits,
{
}

/// Of two numbers one is at most the other, and both only where they have one place; a double that is
/// none is neither above nor below.
pub proof fn places_decide_the_order(a: Single, b: Single, c: Double, d: Double)
    ensures
        !a.nan() && !b.nan() ==> (a.at_most(b) <==> a.rank() <= b.rank()) && (a.below(b)
            <==> a.rank() < b.rank()),
        !c.nan() && !d.nan() ==> (c.at_most(d) <==> c.rank() <= d.rank()),
        c.nan() ==> !c.at_most(d) && !d.at_most(c),
{
}

/// The total order ranks every two patterns apart; it agrees with the order of the numbers, and puts the
/// lesser of the two noughts first.
pub proof fn the_total_order_ranks_patterns(a: Single, b: Single)
    ensures
        a.total_rank() == b.total_rank() <==> a == b,
        a.below(b) ==> a.total_rank() < b.total_rank(),
        zero().negated().total_rank() < zero().total_rank(),
        a.bits < 0x8000_0000 && b.bits >= 0x8000_0000 ==> b.total_rank() < a.total_rank(),
        a.nan() && !b.nan() && a.bits < 0x8000_0000 ==> b.total_rank() < a.total_rank(),
        a.nan() && !b.nan() && a.bits >= 0x8000_0000 ==> a.total_rank() < b.total_rank(),
{
}

/// A magnitude is the number or its opposite, whichever is not negative.
pub proof fn magnitudes_are_not_negative(a: Single)
    ensures
        a.absolute() == a || a.absolute() == a.negated(),
        a.absolute().bits < 0x8000_0000,
        a.absolute().absolute() == a.absolute(),
        !a.nan() ==> zero().at_most(a.absolute()),
        a.negated() != a,
{
}

/// The lesser of two is one of them and at most either; the first where they are equal. Of a number and
/// no number it is the number.
pub proof fn the_lesser_is_at_most_both(a: Single, b: Single)
    ensures
        a.lesser(b) == a || a.lesser(b) == b,
        !a.nan() && !b.nan() ==> a.lesser(b).at_most(a) && a.lesser(b).at_most(b),
        a.rank() == b.rank() && !a.nan() ==> a.lesser(b) == a,
        a.nan() ==> a.lesser(b) == b,
        b.nan() && !a.nan() ==> a.lesser(b) == a,
{
}

/// What lies within its bounds stays; what lies below or above them becomes the bound it passed; and
/// what is no number stays none.
pub proof fn clamping_keeps_within_bounds(a: Single, low: Single, high: Single)
    requires
        low.at_most(high),
    ensures
        a.nan() ==> a.clamped(low, high) == a,
        low.at_most(a) && a.at_most(high) ==> a.clamped(low, high) == a,
        a.below(low) ==> a.clamped(low, high) == low,
        high.below(a) ==> a.clamped(low, high) == high,
        !a.nan() ==> low.at_most(a.clamped(low, high)) && a.clamped(low, high).at_most(high),
{
}

} // verus!
