//! Single-precision numbers carried by their bit pattern, with the comparisons
//! that the rules need. Arithmetic on them belongs to the caller.

use vstd::prelude::*;

verus! {

/// The sign bit of a single-precision number.
pub const SIGN_BIT: u32 = 0x8000_0000;

/// The bit pattern of positive infinity; larger magnitudes are not numbers.
pub const INFINITY_BITS: u32 = 0x7f80_0000;

/// A single-precision number, held by its bit pattern.
#[derive(Clone, Copy, Debug, PartialEq, Eq, Structural)]
pub struct Scalar {
    pub bits: u32,
}

/// The pattern of `0.01`, the squared length up to which a stick or key vector
/// counts as neutral.
pub const NEUTRAL_LENGTH_SQUARED_BITS: u32 = 0x3c23_d70a;

/// The pattern of the gap between one and the next larger number.
pub const EPSILON_BITS: u32 = 0x3400_0000;

impl Scalar {
    pub open spec fn spec_negative(self) -> bool {
        self.bits >= SIGN_BIT
    }

    pub open spec fn spec_magnitude(self) -> int {
        if self.spec_negative() {
            self.bits - SIGN_BIT
        } else {
            self.bits as int
        }
    }

    /// Whether the pattern is not a number.
    pub open spec fn spec_nan(self) -> bool {
        self.spec_magnitude() > INFINITY_BITS
    }

    /// Where the number stands on the real line, in steps of the encoding. The
    /// two zeros share a place.
    pub open spec fn place(self) -> int {
        if self.spec_negative() {
            -self.spec_magnitude()
        } else {
            self.spec_magnitude()
        }
    }

    /// Where the pattern stands in the total order, which tells the zeros apart
    /// and places patterns that are not numbers at either end.
    pub open spec fn total_place(self) -> int {
        if self.spec_negative() {
            -1 - self.spec_magnitude()
        } else {
            self.spec_magnitude()
        }
    }

    /// `self < other`; false when either is not a number.
    pub open spec fn spec_lt(self, other: Scalar) -> bool {
        !self.spec_nan() && !other.spec_nan() && self.place() < other.place()
    }

    /// `self <= other`; false when either is not a number.
    pub open spec fn spec_le(self, other: Scalar) -> bool {
        !self.spec_nan() && !other.spec_nan() && self.place() <= other.place()
    }

    /// The same magnitude with the other sign.
    pub open spec fn spec_negated(self) -> Scalar {
        if self.spec_negative() {
            Scalar { bits: (self.bits - SIGN_BIT) as u32 }
        } else {
            Scalar { bits: (self.bits + SIGN_BIT) as u32 }
        }
    }

    pub open spec fn spec_zero() -> Scalar {
        Scalar { bits: 0 }
    }

    /// Zero.
    #[verifier::when_used_as_spec(spec_zero)]
    pub fn zero() -> (scalar: Scalar)
        ensures
            scalar == Scalar::spec_zero(),
    {
        Scalar { bits: 0 }
    }

    pub fn from_bits(bits: u32) -> (scalar: Scalar)
        ensures
            scalar.bits == bits,
    {
        Scalar { bits }
    }

    fn magnitude(self) -> (magnitude: u32)
        ensures
            magnitude == self.spec_magnitude(),
    {
        if self.bits >= SIGN_BIT {
            self.bits - SIGN_BIT
        } else {
            self.bits
        }
    }

    #[verifier::when_used_as_spec(spec_nan)]
    pub fn is_nan(self) -> (nan: bool)
        ensures
            nan == self.spec_nan(),
    {
        self.magnitude() > INFINITY_BITS
    }

    /// `self < other`; false when either is not a number.
    #[verifier::when_used_as_spec(spec_lt)]
    pub fn lt(self, other: Scalar) -> (less: bool)
        ensures
            less == self.spec_lt(other),
    {
        if self.is_nan() || other.is_nan() {
            return false;
        }
        let left: u32 = self.magnitude();
        let right: u32 = other.magnitude();
        match (self.bits >= SIGN_BIT, other.bits >= SIGN_BIT) {
            (true, true) => left > right,
            (true, false) => left > 0 || right > 0,
            (false, true) => false,
            (false, false) => left < right,
        }
    }

    /// `self <= other`; false when either is not a number.
    #[verifier::when_used_as_spec(spec_le)]
    pub fn le(self, other: Scalar) -> (at_most: bool)
        ensures
            at_most == self.spec_le(other),
    {
        if self.is_nan() || other.is_nan() {
            return false;
        }
        !other.lt(self)
    }

    /// Whether `self` comes before `other` in the total order of bit patterns.
    pub fn total_lt(self, other: Scalar) -> (before: bool)
        ensures
            before == (self.total_place() < other.total_place()),
    {
        let left: u32 = self.magnitude();
        let right: u32 = other.magnitude();
        match (self.bits >= SIGN_BIT, other.bits >= SIGN_BIT) {
            (true, true) => left > right,
            (true, false) => true,
            (false, true) => false,
            (false, false) => left < right,
        }
    }

    /// The same magnitude with the other sign.
    #[verifier::when_used_as_spec(spec_negated)]
    pub fn negated(self) -> (opposite: Scalar)
        ensures
            opposite == self.spec_negated(),
    {
        if self.bits >= SIGN_BIT {
            Scalar { bits: self.bits - SIGN_BIT }
        } else {
            Scalar { bits: self.bits + SIGN_BIT }
        }
    }
}

/// Negating a number twice gives it back.
pub proof fn negation_undoes_itself(value: Scalar)
    ensures
        value.spec_negated().spec_negated() == value,
        value.spec_negated().place() == -value.place(),
{
}

/// The total order is total: two patterns with one place are the same pattern.
pub proof fn total_order_is_strict(left: Scalar, right: Scalar)
    ensures
        left.total_place() == right.total_place() ==> left == right,
{
}

/// A point or direction in the arena, coordinate by coordinate.
#[derive(Clone, Copy, Debug, PartialEq, Eq, Structural)]
pub struct SimVec3 {
    pub x: Scalar,
    pub y: Scalar,
    pub z: Scalar,
}

/// A planar input vector, coordinate by coordinate.
#[derive(Clone, Copy, Debug, PartialEq, Eq, Structural)]
pub struct SimVec2 {
    pub x: Scalar,
    pub y: Scalar,
}

impl SimVec2 {
    pub open spec fn spec_zero() -> SimVec2 {
        SimVec2 { x: Scalar::zero(), y: Scalar::zero() }
    }

    /// The zero vector.
    #[verifier::when_used_as_spec(spec_zero)]
    pub fn zero() -> (vector: SimVec2)
        ensures
            vector == SimVec2::spec_zero(),
    {
        SimVec2 { x: Scalar::zero(), y: Scalar::zero() }
    }

    pub open spec fn spec_negated(self) -> SimVec2 {
        SimVec2 { x: self.x.spec_negated(), y: self.y.spec_negated() }
    }

    /// The vector that points the other way.
    #[verifier::when_used_as_spec(spec_negated)]
    pub fn negated(self) -> (opposite: SimVec2)
        ensures
            opposite == self.spec_negated(),
    {
        SimVec2 { x: self.x.negated(), y: self.y.negated() }
    }
}

} // verus!
