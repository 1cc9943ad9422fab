//! Floating-point values carried as IEEE-754 bit patterns.
//!
//! Providers report processor usage and temperatures in single precision.
//! The order of two such values, and whether one is above zero, can be read
//! off the bit pattern with integer comparisons alone.

use vstd::prelude::*;

verus! {

/// The pattern in which only the sign bit is set.
pub const SIGN_BIT: u32 = 0x8000_0000;

/// The magnitude of infinity. Every larger magnitude is not a number.
pub const INFINITY_MAGNITUDE: u32 = 0x7F80_0000;

/// A single-precision value, held as its bit pattern.
#[derive(Clone, Copy, Debug, PartialEq, Eq, Structural)]
pub struct F32Bits {
    bits: u32,
}

impl View for F32Bits {
    type V = u32;

    closed spec fn view(&self) -> u32 {
        self.bits
    }
}

impl F32Bits {
    /// The pattern without its sign bit.
    pub open spec fn magnitude(self) -> int {
        if self@ >= SIGN_BIT {
            self@ - SIGN_BIT
        } else {
            self@ as int
        }
    }

    /// Whether the sign bit is set.
    pub open spec fn sign(self) -> bool {
        self@ >= SIGN_BIT
    }

    /// Whether the pattern encodes no number.
    pub open spec fn spec_is_nan(self) -> bool {
        self.magnitude() > INFINITY_MAGNITUDE
    }

    /// Where a number stands on the number line: numbers compare as their
    /// ordinals do, and both zeros have ordinal 0.
    pub open spec fn ordinal(self) -> int {
        if self.sign() {
            -self.magnitude()
        } else {
            self.magnitude()
        }
    }

    /// The floating-point `<`: false whenever either side is not a number.
    pub open spec fn spec_less_than(self, other: F32Bits) -> bool {
        !self.spec_is_nan() && !other.spec_is_nan() && self.ordinal() < other.ordinal()
    }

    /// The floating-point `> 0.0`.
    pub open spec fn spec_is_positive(self) -> bool {
        !self.spec_is_nan() && self.ordinal() > 0
    }

    /// The key by which values are ranked: numbers by their ordinal, and
    /// whatever is not a number below every number.
    pub open spec fn rank(self) -> int {
        if self.spec_is_nan() {
            -(INFINITY_MAGNITUDE as int) - 1
        } else {
            self.ordinal()
        }
    }

    pub fn from_bits(bits: u32) -> (value: F32Bits)
        ensures
            value@ == bits,
    {
        F32Bits { bits }
    }

    pub fn to_bits(self) -> (bits: u32)
        ensures
            bits == self@,
    {
        self.bits
    }

    fn signed_rank(self) -> (key: i64)
        ensures
            key == self.rank(),
    {
        let negative: bool = self.bits >= SIGN_BIT;
        let magnitude: u32 = if negative {
            self.bits - SIGN_BIT
        } else {
            self.bits
        };
        if magnitude > INFINITY_MAGNITUDE {
            -(INFINITY_MAGNITUDE as i64) - 1
        } else if negative {
            -(magnitude as i64)
        } else {
            magnitude as i64
        }
    }

    #[verifier::when_used_as_spec(spec_is_nan)]
    pub fn is_nan(self) -> (nan: bool)
        ensures
            nan == self.spec_is_nan(),
    {
        self.signed_rank() < -(INFINITY_MAGNITUDE as i64)
    }

    #[verifier::when_used_as_spec(spec_is_positive)]
    pub fn is_positive(self) -> (positive: bool)
        ensures
            positive == self.spec_is_positive(),
    {
        self.signed_rank() > 0
    }

    #[verifier::when_used_as_spec(spec_less_than)]
    pub fn less_than(self, other: F32Bits) -> (less: bool)
        ensures
            less == self.spec_less_than(other),
    {
        let a: i64 = self.signed_rank();
        let b: i64 = other.signed_rank();
        a >= -(INFINITY_MAGNITUDE as i64) && b >= -(INFINITY_MAGNITUDE as i64) && a < b
    }

    /// Whether `self` is ranked strictly above `other`.
    pub fn outranks(self, other: F32Bits) -> (above: bool)
        ensures
            above == (self.rank() > other.rank()),
    {
        self.signed_rank() > other.signed_rank()
    }
}

/// The rank refines the floating-point order: the lesser of two values has
/// the lower rank, and of two numbers the one with the lower rank is the
/// lesser. What is not a number ranks below every number.
pub proof fn lemma_rank_refines_less_than(a: F32Bits, b: F32Bits)
    ensures
        a.spec_less_than(b) ==> a.rank() < b.rank(),
        !a.spec_is_nan() && !b.spec_is_nan() && a.rank() < b.rank() ==> a.spec_less_than(b),
        a.spec_is_nan() && !b.spec_is_nan() ==> a.rank() < b.rank(),
        a.spec_is_nan() && b.spec_is_nan() ==> a.rank() == b.rank(),
{
}

/// A double-precision value, held as its bit pattern. Nothing in this
/// library computes on such a value; it is carried from provider to caller.
#[derive(Clone, Copy, Debug, PartialEq, Eq, Structural)]
pub struct F64Bits {
    bits: u64,
}

impl View for F64Bits {
    type V = u64;

    closed spec fn view(&self) -> u64 {
        self.bits
    }
}

impl F64Bits {
    pub fn from_bits(bits: u64) -> (value: F64Bits)
        ensures
            value@ == bits,
    {
        F64Bits { bits }
    }

    pub fn to_bits(self) -> (bits: u64)
        ensures
            bits == self@,
    {
        self.bits
    }
}

} // verus!
