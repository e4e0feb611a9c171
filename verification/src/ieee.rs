//! IEEE-754 binary64 values held as their bit patterns.
//!
//! A score or a threshold is an `f64` on the wire; the library keeps the
//! 64-bit pattern and implements the comparisons that `<`, `>=` and
//! `f64::clamp` perform, directly on the bits.
use vstd::prelude::*;

verus! {

/// Mask of everything but the sign bit.
pub const MAGNITUDE_MASK: u64 = 0x7fff_ffff_ffff_ffffu64;

/// Bit pattern of positive infinity; magnitudes above it are NaNs.
pub const INFINITY_BITS: u64 = 0x7ff0_0000_0000_0000u64;

/// The sign bit.
pub const SIGN_BIT: u64 = 0x8000_0000_0000_0000u64;

/// Whether the sign bit of the pattern is set.
pub open spec fn sign_of(b: u64) -> bool {
    b & SIGN_BIT != 0
}

/// The pattern without its sign bit: exponent and fraction.
pub open spec fn magnitude_of(b: u64) -> u64 {
    b & MAGNITUDE_MASK
}

/// A NaN has an all-ones exponent and a non-zero fraction.
pub open spec fn nan_bits(b: u64) -> bool {
    magnitude_of(b) > INFINITY_BITS
}

/// Both +0.0 and -0.0.
pub open spec fn zero_bits(b: u64) -> bool {
    magnitude_of(b) == 0
}

/// IEEE `a <= b`: false when either side is NaN; the two zeros are equal;
/// a negative value lies below a positive one; among values of one sign the
/// order is that of the magnitudes (reversed for negative values).
pub open spec fn le_bits(a: u64, b: u64) -> bool {
    &&& !nan_bits(a)
    &&& !nan_bits(b)
    &&& {
        ||| zero_bits(a) && zero_bits(b)
        ||| sign_of(a) && !sign_of(b)
        ||| !sign_of(a) && !sign_of(b) && magnitude_of(a) <= magnitude_of(b)
        ||| sign_of(a) && sign_of(b) && magnitude_of(b) <= magnitude_of(a)
    }
}

/// IEEE `a < b`.
pub open spec fn lt_bits(a: u64, b: u64) -> bool {
    &&& !nan_bits(a)
    &&& !nan_bits(b)
    &&& !(zero_bits(a) && zero_bits(b))
    &&& {
        ||| sign_of(a) && !sign_of(b)
        ||| !sign_of(a) && !sign_of(b) && magnitude_of(a) < magnitude_of(b)
        ||| sign_of(a) && sign_of(b) && magnitude_of(b) < magnitude_of(a)
    }
}

/// A key whose unsigned order is the IEEE total order of the patterns:
/// negative values (reversed) below positive ones, -0.0 just below +0.0,
/// negative NaNs at the bottom and positive NaNs at the top.
pub open spec fn order_key_of(b: u64) -> u64 {
    if sign_of(b) {
        !b
    } else {
        b | SIGN_BIT
    }
}

/// The pattern of `-x`: the sign bit flipped.
pub open spec fn neg_bits(b: u64) -> u64 {
    b ^ SIGN_BIT
}

/// What `x.clamp(min, max)` returns.
pub open spec fn clamp_bits(x: u64, min: u64, max: u64) -> u64 {
    if lt_bits(x, min) {
        min
    } else if lt_bits(max, x) {
        max
    } else {
        x
    }
}

/// The key orders two non-NaN values as IEEE `<=` does, except that it puts
/// -0.0 strictly below +0.0.
pub proof fn lemma_order_key_le(a: u64, b: u64)
    requires
        !nan_bits(a),
        !nan_bits(b),
        !(zero_bits(a) && zero_bits(b)),
    ensures
        le_bits(a, b) <==> order_key_of(a) <= order_key_of(b),
        lt_bits(a, b) <==> order_key_of(a) < order_key_of(b),
{
    assert(
        (a & 0x7fff_ffff_ffff_ffffu64 <= 0x7ff0_0000_0000_0000u64
        && b & 0x7fff_ffff_ffff_ffffu64 <= 0x7ff0_0000_0000_0000u64
        && !(a & 0x7fff_ffff_ffff_ffffu64 == 0 && b & 0x7fff_ffff_ffff_ffffu64 == 0))
        ==> ((
            (a & 0x8000_0000_0000_0000u64 != 0 && b & 0x8000_0000_0000_0000u64 == 0)
            || (a & 0x8000_0000_0000_0000u64 == 0 && b & 0x8000_0000_0000_0000u64 == 0
                && a & 0x7fff_ffff_ffff_ffffu64 <= b & 0x7fff_ffff_ffff_ffffu64)
            || (a & 0x8000_0000_0000_0000u64 != 0 && b & 0x8000_0000_0000_0000u64 != 0
                && b & 0x7fff_ffff_ffff_ffffu64 <= a & 0x7fff_ffff_ffff_ffffu64)
        ) <==> (
            (if a & 0x8000_0000_0000_0000u64 != 0 { !a } else { a | 0x8000_0000_0000_0000u64 })
            <= (if b & 0x8000_0000_0000_0000u64 != 0 { !b } else { b | 0x8000_0000_0000_0000u64 })
        ))
    ) by (bit_vector);
    assert(
        (a & 0x7fff_ffff_ffff_ffffu64 <= 0x7ff0_0000_0000_0000u64
        && b & 0x7fff_ffff_ffff_ffffu64 <= 0x7ff0_0000_0000_0000u64
        && !(a & 0x7fff_ffff_ffff_ffffu64 == 0 && b & 0x7fff_ffff_ffff_ffffu64 == 0))
        ==> ((
            (a & 0x8000_0000_0000_0000u64 != 0 && b & 0x8000_0000_0000_0000u64 == 0)
            || (a & 0x8000_0000_0000_0000u64 == 0 && b & 0x8000_0000_0000_0000u64 == 0
                && a & 0x7fff_ffff_ffff_ffffu64 < b & 0x7fff_ffff_ffff_ffffu64)
            || (a & 0x8000_0000_0000_0000u64 != 0 && b & 0x8000_0000_0000_0000u64 != 0
                && b & 0x7fff_ffff_ffff_ffffu64 < a & 0x7fff_ffff_ffff_ffffu64)
        ) <==> (
            (if a & 0x8000_0000_0000_0000u64 != 0 { !a } else { a | 0x8000_0000_0000_0000u64 })
            < (if b & 0x8000_0000_0000_0000u64 != 0 { !b } else { b | 0x8000_0000_0000_0000u64 })
        ))
    ) by (bit_vector);
}

/// Distinct patterns have distinct keys.
pub proof fn lemma_order_key_injective(a: u64, b: u64)
    ensures
        order_key_of(a) == order_key_of(b) ==> a == b,
{
    assert(
        (if a & 0x8000_0000_0000_0000u64 != 0 { !a } else { a | 0x8000_0000_0000_0000u64 })
        == (if b & 0x8000_0000_0000_0000u64 != 0 { !b } else { b | 0x8000_0000_0000_0000u64 })
        ==> a == b
    ) by (bit_vector);
}

/// An IEEE-754 binary64 value, held as its bit pattern (`f64::to_bits`).
#[derive(Clone, Copy, Debug, PartialEq, Eq, Structural)]
pub struct F64Bits {
    pub bits: u64,
}

impl F64Bits {
    /// Whether the value is a NaN.
    pub fn is_nan(&self) -> (r: bool)
        ensures
            r == nan_bits(self.bits),
    {
        self.bits & MAGNITUDE_MASK > INFINITY_BITS
    }

    /// The key of the IEEE total order (see `order_key_of`).
    pub fn order_key(&self) -> (k: u64)
        ensures
            k == order_key_of(self.bits),
    {
        if self.bits & SIGN_BIT != 0 {
            !self.bits
        } else {
            self.bits | SIGN_BIT
        }
    }

    /// `self < other`, as `f64` compares.
    pub fn lt(&self, other: &F64Bits) -> (r: bool)
        ensures
            r == lt_bits(self.bits, other.bits),
    {
        if self.is_nan() || other.is_nan() {
            return false;
        }
        if self.bits & MAGNITUDE_MASK == 0 && other.bits & MAGNITUDE_MASK == 0 {
            return false;
        }
        proof {
            lemma_order_key_le(self.bits, other.bits);
        }
        self.order_key() < other.order_key()
    }

    /// `self >= other`, as `f64` compares.
    pub fn ge(&self, other: &F64Bits) -> (r: bool)
        ensures
            r == le_bits(other.bits, self.bits),
    {
        if self.is_nan() || other.is_nan() {
            return false;
        }
        if self.bits & MAGNITUDE_MASK == 0 && other.bits & MAGNITUDE_MASK == 0 {
            return true;
        }
        proof {
            lemma_order_key_le(other.bits, self.bits);
        }
        other.order_key() <= self.order_key()
    }

    /// `-self`.
    pub fn neg(&self) -> (r: F64Bits)
        ensures
            r.bits == neg_bits(self.bits),
    {
        F64Bits { bits: self.bits ^ SIGN_BIT }
    }

    /// `self.clamp(min, max)`: `f64::clamp` panics unless `min <= max`
    /// (which also rules out a NaN bound).
    pub fn clamp(self, min: F64Bits, max: F64Bits) -> (r: F64Bits)
        requires
            le_bits(min.bits, max.bits),
        ensures
            r.bits == clamp_bits(self.bits, min.bits, max.bits),
    {
        if self.lt(&min) {
            min
        } else if max.lt(&self) {
            max
        } else {
            self
        }
    }
}

/// A clamped value that is not NaN lies between the bounds.
pub proof fn lemma_clamp_within_bounds(x: u64, min: u64, max: u64)
    requires
        le_bits(min, max),
        !nan_bits(x),
    ensures
        le_bits(min, clamp_bits(x, min, max)),
        le_bits(clamp_bits(x, min, max), max),
{
}

/// When `-l <= l`, the bounds `-l` and `l` enclose both zeros.
pub proof fn lemma_symmetric_bounds_hold_zero(l: u64)
    requires
        le_bits(neg_bits(l), l),
    ensures
        le_bits(neg_bits(l), 0),
        le_bits(0, l),
{
    assert(
        (((l ^ 0x8000_0000_0000_0000u64) & 0x7fff_ffff_ffff_ffffu64) == (l & 0x7fff_ffff_ffff_ffffu64))
        && (((l ^ 0x8000_0000_0000_0000u64) & 0x8000_0000_0000_0000u64 != 0) <==> (l & 0x8000_0000_0000_0000u64 == 0))
        && (0u64 & 0x7fff_ffff_ffff_ffffu64 == 0)
        && (0u64 & 0x8000_0000_0000_0000u64 == 0)
    ) by (bit_vector);
}

} // verus!
