use vstd::prelude::*;

verus! {

/// Bit pattern of the quiet NaN that this library hands out as its failure
/// sentinel: sign clear, exponent field all ones, highest fraction bit set.
pub const QUIET_NAN_BITS: u64 = 0x7ff8_0000_0000_0000;

/// Bit pattern of negative zero: only the sign bit set.
pub const NEG_ZERO_BITS: u64 = 0x8000_0000_0000_0000;

/// The sign bit of an IEEE 754 binary64 bit pattern (0 or 1).
pub open spec fn sign_field(b: u64) -> u64 {
    b >> 63
}

/// The 11-bit biased exponent field of an IEEE 754 binary64 bit pattern.
pub open spec fn exponent_field(b: u64) -> u64 {
    (b >> 52) & 0x7ff
}

/// The 52-bit fraction field of an IEEE 754 binary64 bit pattern.
pub open spec fn fraction_field(b: u64) -> u64 {
    b & 0xf_ffff_ffff_ffff
}

/// A binary64 pattern denotes NaN exactly when its exponent field is all
/// ones and its fraction field is not zero.
pub open spec fn is_nan_bits(b: u64) -> bool {
    exponent_field(b) == 0x7ff && fraction_field(b) != 0
}

/// The value denoted by the pattern compares strictly greater than zero:
/// it is not NaN, its sign bit is clear, and it is not positive zero.
pub open spec fn is_gt_zero_bits(b: u64) -> bool {
    !is_nan_bits(b) && sign_field(b) == 0 && b != 0
}

/// The value denoted by the pattern compares greater than or equal to zero:
/// it is not NaN, and its sign bit is clear or it is negative zero.
pub open spec fn is_ge_zero_bits(b: u64) -> bool {
    !is_nan_bits(b) && (sign_field(b) == 0 || b == NEG_ZERO_BITS)
}

/// An IEEE 754 binary64 value, held as its 64-bit pattern. All reasoning in
/// this library is over the pattern: the sign, exponent and fraction fields
/// decide NaN-ness and the sign comparisons that the input rules need.
#[derive(Clone, Copy, PartialEq, Eq, Structural, Debug)]
pub struct Fp64 {
    pub bits: u64,
}

impl Fp64 {
    /// Wrap a raw binary64 bit pattern.
    pub fn from_bits(bits: u64) -> (r: Fp64)
        ensures
            r.bits == bits,
    {
        Fp64 { bits }
    }

    /// The library's canonical NaN, the uniform failure sentinel.
    pub fn nan() -> (r: Fp64)
        ensures
            r.bits == QUIET_NAN_BITS,
            is_nan_bits(r.bits),
    {
        proof {
            assert(is_nan_bits(QUIET_NAN_BITS)) by (bit_vector);
        }
        Fp64 { bits: QUIET_NAN_BITS }
    }

    /// Whether the held pattern denotes NaN.
    pub fn is_nan(&self) -> (r: bool)
        ensures
            r == is_nan_bits(self.bits),
    {
        (self.bits >> 52) & 0x7ff == 0x7ff && self.bits & 0xf_ffff_ffff_ffff != 0
    }

    /// Whether the held value compares strictly greater than zero.
    pub fn is_gt_zero(&self) -> (r: bool)
        ensures
            r == is_gt_zero_bits(self.bits),
    {
        !self.is_nan() && self.bits >> 63 == 0 && self.bits != 0
    }

    /// Whether the held value compares greater than or equal to zero.
    pub fn is_ge_zero(&self) -> (r: bool)
        ensures
            r == is_ge_zero_bits(self.bits),
    {
        !self.is_nan() && (self.bits >> 63 == 0 || self.bits == NEG_ZERO_BITS)
    }
}

} // verus!
