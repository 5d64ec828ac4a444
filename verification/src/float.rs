//! Floating-point payloads, held as IEEE-754 binary64 bit patterns.
//!
//! The property system orders and compares floating-point bounds without
//! doing floating-point arithmetic: a value is carried as the 64 bits of its
//! binary64 encoding, and two values are ordered by the IEEE-754 `totalOrder`
//! predicate, which is an integer comparison on those bits.
use vstd::prelude::*;

verus! {

/// The first bit pattern whose sign bit is set.
pub const SIGN_BIT: u64 = 0x8000_0000_0000_0000;

/// A binary64 number, held as its bit pattern.
#[derive(Clone, Copy, Debug, PartialEq, Eq, Hash, Structural)]
pub struct FloatBits(pub u64);

impl FloatBits {
    /// Position of the number in the IEEE-754 total order.
    ///
    /// Patterns with a clear sign bit keep their value; patterns with the sign
    /// bit set are mirrored below zero, so that a larger magnitude ranks lower.
    /// Negative zero ranks directly below positive zero.
    pub open spec fn rank(self) -> int {
        if self.0 < SIGN_BIT {
            self.0 as int
        } else {
            0x7fff_ffff_ffff_ffff - self.0 as int
        }
    }

    /// `self` comes no later than `other` in the total order.
    pub open spec fn le_spec(self, other: FloatBits) -> bool {
        self.rank() <= other.rank()
    }

    /// Wraps a bit pattern.
    pub fn from_bits(bits: u64) -> (r: FloatBits)
        ensures
            r.0 == bits,
    {
        FloatBits(bits)
    }

    /// The bit pattern.
    pub fn to_bits(&self) -> (r: u64)
        ensures
            r == self.0,
    {
        self.0
    }

    /// The rank as a machine integer.
    pub fn rank_key(&self) -> (r: i64)
        ensures
            r == self.rank(),
    {
        if self.0 < SIGN_BIT {
            self.0 as i64
        } else {
            let magnitude: u64 = self.0 - SIGN_BIT;
            -1 - (magnitude as i64)
        }
    }

    /// Compares two numbers in the total order.
    pub fn total_le(&self, other: &FloatBits) -> (r: bool)
        ensures
            r == self.le_spec(*other),
    {
        self.rank_key() <= other.rank_key()
    }
}

/// The rank determines the bit pattern: no two patterns share a position.
pub proof fn lemma_rank_injective(a: FloatBits, b: FloatBits)
    ensures
        a.rank() == b.rank() <==> a == b,
{
}

/// The order on bit patterns is a total order: reflexive, antisymmetric,
/// transitive, and any two patterns are comparable.
pub proof fn lemma_float_total_order(a: FloatBits, b: FloatBits, c: FloatBits)
    ensures
        a.le_spec(a),
        a.le_spec(b) && b.le_spec(a) ==> a == b,
        a.le_spec(b) && b.le_spec(c) ==> a.le_spec(c),
        a.le_spec(b) || b.le_spec(a),
{
}

} // verus!
