//! Single-precision scalars, carried by their IEEE 754 bit patterns.
//!
//! The vectors, matrices and depth buffers of this crate never round: they
//! store scalars, move them, flip their signs and compare them. All of that
//! is exact on the 32-bit pattern of a binary32 value, so the pattern is what
//! this crate holds. Arithmetic that rounds is the caller's business.

use core::ops::Neg;
use vstd::prelude::*;
use vstd::std_specs::cmp::PartialEqSpecImpl;
use vstd::std_specs::ops::NegSpecImpl;

verus! {

/// The bit that carries the sign.
pub const SIGN_MASK: u32 = 0x8000_0000;

/// Every bit but the sign: exponent and fraction.
pub const MAGNITUDE_MASK: u32 = 0x7FFF_FFFF;

/// The exponent field with all bits set and an empty fraction: the pattern
/// of positive infinity. A larger magnitude is not a number.
pub const INFINITY_BITS: u32 = 0x7F80_0000;

/// The pattern of `1.0`: positive sign, biased exponent 127, empty fraction.
pub const ONE_BITS: u32 = 0x3F80_0000;

/// A single-precision IEEE 754 value, carried by its bit pattern.
#[derive(Clone, Copy, Debug)]
pub struct Binary32 {
    pub bits: u32,
}

impl Binary32 {
    /// Whether the sign bit is set (true of `-0.0` and of some NaNs too).
    pub open spec fn sign_negative(self) -> bool {
        self.bits >= SIGN_MASK
    }

    /// The pattern with the sign bit cleared.
    pub open spec fn magnitude(self) -> u32 {
        if self.bits >= SIGN_MASK {
            (self.bits - SIGN_MASK) as u32
        } else {
            self.bits
        }
    }

    /// Positive or negative zero.
    pub open spec fn is_zero(self) -> bool {
        self.magnitude() == 0
    }

    /// Not a number: the exponent is all ones and the fraction is not empty.
    pub open spec fn is_nan(self) -> bool {
        self.magnitude() > INFINITY_BITS
    }

    /// The same magnitude under the opposite sign.
    pub open spec fn negated(self) -> Binary32 {
        if self.bits >= SIGN_MASK {
            Binary32 { bits: (self.bits - SIGN_MASK) as u32 }
        } else {
            Binary32 { bits: (self.bits + SIGN_MASK) as u32 }
        }
    }

    /// Equality of the numbers that two patterns stand for: a NaN equals
    /// nothing, the two zeros equal each other, and any other value equals
    /// only its own pattern.
    pub open spec fn same_number(self, other: Binary32) -> bool {
        &&& !self.is_nan()
        &&& !other.is_nan()
        &&& (self.bits == other.bits || (self.is_zero() && other.is_zero()))
    }

    /// The scalar with the given bit pattern.
    pub fn from_bits(bits: u32) -> (value: Binary32)
        ensures
            value.bits == bits,
    {
        Binary32 { bits }
    }

    /// The bit pattern of this scalar.
    pub fn to_bits(self) -> (bits: u32)
        ensures
            bits == self.bits,
    {
        self.bits
    }

    /// Positive zero, as a value of specifications.
    pub open spec fn spec_zero() -> Binary32 {
        Binary32 { bits: 0 }
    }

    /// One, as a value of specifications.
    pub open spec fn spec_one() -> Binary32 {
        Binary32 { bits: ONE_BITS }
    }

    /// Positive infinity, as a value of specifications.
    pub open spec fn spec_infinity() -> Binary32 {
        Binary32 { bits: INFINITY_BITS }
    }

    /// Positive zero.
    #[verifier::when_used_as_spec(spec_zero)]
    pub fn zero() -> (value: Binary32)
        ensures
            value == Binary32::spec_zero(),
    {
        Binary32 { bits: 0 }
    }

    /// One.
    #[verifier::when_used_as_spec(spec_one)]
    pub fn one() -> (value: Binary32)
        ensures
            value == Binary32::spec_one(),
    {
        Binary32 { bits: ONE_BITS }
    }

    /// Positive infinity: larger than every number, and what a depth buffer
    /// holds where nothing has been drawn.
    #[verifier::when_used_as_spec(spec_infinity)]
    pub fn infinity() -> (value: Binary32)
        ensures
            value == Binary32::spec_infinity(),
    {
        Binary32 { bits: INFINITY_BITS }
    }
}

/// Toggling the top bit of a pattern adds or removes its weight.
proof fn lemma_sign_toggle(bits: u32)
    ensures
        bits >= 0x8000_0000u32 ==> bits ^ 0x8000_0000u32 == bits - 0x8000_0000u32,
        bits < 0x8000_0000u32 ==> bits ^ 0x8000_0000u32 == bits + 0x8000_0000u32,
{
    assert(bits >= 0x8000_0000u32 ==> bits ^ 0x8000_0000u32 == bits - 0x8000_0000u32)
        by (bit_vector);
    assert(bits < 0x8000_0000u32 ==> bits ^ 0x8000_0000u32 == bits + 0x8000_0000u32)
        by (bit_vector);
}

/// Masking the top bit away removes its weight where it was set.
proof fn lemma_sign_clear(bits: u32)
    ensures
        bits >= 0x8000_0000u32 ==> bits & 0x7FFF_FFFFu32 == bits - 0x8000_0000u32,
        bits < 0x8000_0000u32 ==> bits & 0x7FFF_FFFFu32 == bits,
{
    assert(bits >= 0x8000_0000u32 ==> bits & 0x7FFF_FFFFu32 == bits - 0x8000_0000u32)
        by (bit_vector);
    assert(bits < 0x8000_0000u32 ==> bits & 0x7FFF_FFFFu32 == bits) by (bit_vector);
}

impl Neg for Binary32 {
    type Output = Binary32;

    /// Negation flips the sign bit and nothing else, whatever the value:
    /// zeros, infinities and NaNs included.
    fn neg(self) -> (r: Binary32) {
        proof {
            lemma_sign_toggle(self.bits);
        }
        Binary32 { bits: self.bits ^ SIGN_MASK }
    }
}

impl NegSpecImpl for Binary32 {
    open spec fn obeys_neg_spec() -> bool {
        true
    }

    open spec fn neg_req(self) -> bool {
        true
    }

    open spec fn neg_spec(self) -> Binary32 {
        self.negated()
    }
}

impl PartialEq for Binary32 {
    /// Numeric equality, as IEEE 754 defines it; not equality of patterns.
    fn eq(&self, other: &Binary32) -> (r: bool) {
        proof {
            lemma_sign_clear(self.bits);
            lemma_sign_clear(other.bits);
        }
        let a: u32 = self.bits & MAGNITUDE_MASK;
        let b: u32 = other.bits & MAGNITUDE_MASK;
        a <= INFINITY_BITS && b <= INFINITY_BITS && (self.bits == other.bits || (a == 0 && b == 0))
    }
}

impl PartialEqSpecImpl for Binary32 {
    open spec fn obeys_eq_spec() -> bool {
        true
    }

    open spec fn eq_spec(&self, other: &Binary32) -> bool {
        self.same_number(*other)
    }
}

/// Negating twice gives the pattern back.
pub proof fn lemma_neg_involution(a: Binary32)
    ensures
        a.negated().negated() == a,
{
}

/// Negation flips the sign and keeps the magnitude, so it keeps zeros zero
/// and NaNs NaN.
pub proof fn lemma_neg_keeps_magnitude(a: Binary32)
    ensures
        a.negated().sign_negative() == !a.sign_negative(),
        a.negated().magnitude() == a.magnitude(),
        a.negated().is_zero() == a.is_zero(),
        a.negated().is_nan() == a.is_nan(),
{
}

/// Numeric equality is symmetric, holds of every value with itself but NaN,
/// and is kept by negating both sides.
pub proof fn lemma_same_number(a: Binary32, b: Binary32)
    ensures
        a.same_number(b) == b.same_number(a),
        a.same_number(a) == !a.is_nan(),
        a.same_number(b) == a.negated().same_number(b.negated()),
{
}

} // verus!
