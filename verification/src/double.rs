//! IEEE 754 binary64 values carried as bit patterns.
//!
//! The bot's amounts, prices and percentages are doubles. This crate stores
//! them and compares them; whoever holds a floating-point unit does the
//! arithmetic and hands the results in.

use vstd::prelude::*;

verus! {

/// The sign bit.
pub const SIGN_BIT: u64 = 0x8000_0000_0000_0000;

/// Magnitude of an infinity; a larger magnitude is a NaN.
pub const INFINITE_MAGNITUDE: u64 = 0x7ff0_0000_0000_0000;

/// Bit pattern of `100.0`.
pub const HUNDRED_BITS: u64 = 0x4059_0000_0000_0000;

/// A binary64 value, by its bit pattern.
#[derive(Clone, Copy, Debug)]
pub struct Double {
    pub bits: u64,
}

impl Double {
    /// The pattern without its sign.
    pub open spec fn magnitude(self) -> int {
        if self.bits >= SIGN_BIT {
            self.bits - SIGN_BIT
        } else {
            self.bits as int
        }
    }

    pub open spec fn is_nan(self) -> bool {
        self.magnitude() > INFINITE_MAGNITUDE
    }

    /// Position of a non-NaN value on the number line: both zeros stand at 0,
    /// and a larger value has a larger rank.
    pub open spec fn rank(self) -> int {
        if self.bits >= SIGN_BIT {
            -self.magnitude()
        } else {
            self.magnitude()
        }
    }

    pub open spec fn below(self, other: Double) -> bool {
        !self.is_nan() && !other.is_nan() && self.rank() < other.rank()
    }

    pub open spec fn at_most(self, other: Double) -> bool {
        !self.is_nan() && !other.is_nan() && self.rank() <= other.rank()
    }

    pub open spec fn equals(self, other: Double) -> bool {
        !self.is_nan() && !other.is_nan() && self.rank() == other.rank()
    }

    pub open spec fn spec_zero() -> Double {
        Double { bits: 0 }
    }

    pub open spec fn spec_hundred() -> Double {
        Double { bits: HUNDRED_BITS }
    }

    /// The value with its sign flipped.
    pub open spec fn negated(self) -> Double {
        if self.bits >= SIGN_BIT {
            Double { bits: (self.bits - SIGN_BIT) as u64 }
        } else {
            Double { bits: (self.bits + SIGN_BIT) as u64 }
        }
    }

    /// The value, moved to the nearer bound where it lies outside the bounds.
    pub open spec fn clamped(self, low: Double, high: Double) -> Double {
        if self.below(low) {
            low
        } else if high.below(self) {
            high
        } else {
            self
        }
    }

    /// The value, moved up to the bound where it lies below it.
    pub open spec fn floored(self, low: Double) -> Double {
        if self.below(low) {
            low
        } else {
            self
        }
    }

    /// `0.0`
    pub fn zero() -> (r: Double)
        ensures
            r == Double::spec_zero(),
    {
        Double { bits: 0 }
    }

    /// `100.0`
    pub fn hundred() -> (r: Double)
        ensures
            r == Double::spec_hundred(),
    {
        Double { bits: HUNDRED_BITS }
    }

    pub fn is_not_a_number(&self) -> (r: bool)
        ensures
            r == self.is_nan(),
    {
        if self.bits >= SIGN_BIT {
            self.bits - SIGN_BIT > INFINITE_MAGNITUDE
        } else {
            self.bits > INFINITE_MAGNITUDE
        }
    }

    /// The rank as a machine integer.
    fn position(&self) -> (r: i128)
        ensures
            r == self.rank(),
    {
        if self.bits >= SIGN_BIT {
            -((self.bits - SIGN_BIT) as i128)
        } else {
            self.bits as i128
        }
    }

    /// `self < other`
    pub fn lt(&self, other: &Double) -> (r: bool)
        ensures
            r == self.below(*other),
    {
        !self.is_not_a_number() && !other.is_not_a_number() && self.position() < other.position()
    }

    /// `self <= other`
    pub fn le(&self, other: &Double) -> (r: bool)
        ensures
            r == self.at_most(*other),
    {
        !self.is_not_a_number() && !other.is_not_a_number() && self.position() <= other.position()
    }

    /// `self == other`
    pub fn same(&self, other: &Double) -> (r: bool)
        ensures
            r == self.equals(*other),
    {
        !self.is_not_a_number() && !other.is_not_a_number() && self.position() == other.position()
    }

    /// `-self`
    pub fn neg(&self) -> (r: Double)
        ensures
            r == self.negated(),
    {
        if self.bits >= SIGN_BIT {
            Double { bits: self.bits - SIGN_BIT }
        } else {
            Double { bits: self.bits + SIGN_BIT }
        }
    }

    /// The value, moved up to the bound where it lies below it.
    pub fn floor_at(&self, low: &Double) -> (r: Double)
        ensures
            r == self.floored(*low),
    {
        if self.lt(low) {
            *low
        } else {
            *self
        }
    }

    /// `self.clamp(low, high)`
    pub fn clamp(&self, low: &Double, high: &Double) -> (r: Double)
        requires
            low.at_most(*high),
        ensures
            r == self.clamped(*low, *high),
    {
        if self.lt(low) {
            *low
        } else if high.lt(self) {
            *high
        } else {
            *self
        }
    }
}

/// Of two values neither of which is a NaN exactly one of less, equal and
/// greater holds.
pub proof fn comparison_is_total(a: Double, b: Double)
    requires
        !a.is_nan(),
        !b.is_nan(),
    ensures
        a.below(b) || a.equals(b) || b.below(a),
        !(a.below(b) && b.below(a)),
        !(a.below(b) && a.equals(b)),
        a.at_most(b) <==> a.below(b) || a.equals(b),
{
}

/// A NaN compares false with everything, itself included among it.
pub proof fn nan_compares_false(a: Double, b: Double)
    requires
        a.is_nan(),
    ensures
        !a.below(b),
        !b.below(a),
        !a.at_most(b),
        !b.at_most(a),
        !a.equals(b),
        !a.equals(a),
{
}

/// Negation turns the order around and undoes itself.
pub proof fn negation_reverses_order(a: Double, b: Double)
    ensures
        a.negated().negated() == a,
        a.below(b) <==> b.negated().below(a.negated()),
        a.equals(b) <==> a.negated().equals(b.negated()),
{
}

/// A clamped value lies within the bounds unless it is a NaN, and a value
/// within the bounds is kept as it is.
pub proof fn clamp_lands_within_bounds(a: Double, low: Double, high: Double)
    requires
        low.at_most(high),
    ensures
        !a.is_nan() ==> low.at_most(a.clamped(low, high)) && a.clamped(low, high).at_most(high),
        a.is_nan() ==> a.clamped(low, high) == a,
        low.at_most(a) && a.at_most(high) ==> a.clamped(low, high) == a,
{
}

/// Values without a sign are ordered as their patterns are, values with one the
/// other way round, and one with a sign lies below one without, except that the
/// two zeros are equal.
pub proof fn patterns_order_values(a: Double, b: Double)
    requires
        !a.is_nan(),
        !b.is_nan(),
    ensures
        a.bits < 0x8000_0000_0000_0000 && b.bits < 0x8000_0000_0000_0000 ==> (a.below(b) <==> a.bits < b.bits),
        a.bits >= 0x8000_0000_0000_0000 && b.bits >= 0x8000_0000_0000_0000 ==> (a.below(b) <==> a.bits > b.bits),
        a.bits >= 0x8000_0000_0000_0000 && b.bits < 0x8000_0000_0000_0000 ==> (a.below(b) <==> !(a.bits
            == 0x8000_0000_0000_0000 && b.bits == 0)),
        a.bits < 0x8000_0000_0000_0000 && b.bits >= 0x8000_0000_0000_0000 ==> !a.below(b),
        a.equals(b) <==> a.bits == b.bits || (a.bits + b.bits == 0x8000_0000_0000_0000 && a.bits * b.bits == 0),
{
    if a.bits != 0 && b.bits != 0 {
        assert(a.bits * b.bits != 0) by (nonlinear_arith)
            requires
                a.bits != 0,
                b.bits != 0,
        ;
    }
}

/// A pattern is a NaN exactly where it lies behind that of infinity, with a sign
/// or without.
pub proof fn nan_patterns_lie_behind_infinity(a: Double)
    ensures
        a.is_nan() <==> 0x7ff0_0000_0000_0000 < a.bits < 0x8000_0000_0000_0000 || a.bits > 0xfff0_0000_0000_0000,
        Double::spec_zero().bits == 0,
        Double::spec_hundred().bits == 0x4059_0000_0000_0000,
{
}

/// Negation moves a value to the other side of zero and nowhere else.
pub proof fn negation_flips_the_sign(a: Double)
    ensures
        a.bits < 0x8000_0000_0000_0000 ==> a.negated().bits == a.bits + 0x8000_0000_0000_0000,
        a.bits >= 0x8000_0000_0000_0000 ==> a.negated().bits + 0x8000_0000_0000_0000 == a.bits,
{
}

/// A value outside the bounds is moved to the bound that it exceeds, and one below
/// a floor to the floor; any other value is kept, a NaN among them.
pub proof fn values_move_to_the_bound_they_exceed(a: Double, low: Double, high: Double)
    ensures
        a.below(low) ==> a.clamped(low, high) == low && a.floored(low) == low,
        !a.below(low) ==> a.floored(low) == a,
        !a.below(low) && high.below(a) ==> a.clamped(low, high) == high,
        !a.below(low) && !high.below(a) ==> a.clamped(low, high) == a,
{
}

} // verus!
