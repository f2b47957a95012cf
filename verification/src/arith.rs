use vstd::prelude::*;

use crate::ieee::{is_nan_bits, sign_field};
use rustc_apfloat::Float as _;

verus! {

/// What `rustc_apfloat::ieee::Double::from_str` returns for a given text:
/// the bit pattern of the correctly rounded binary64 value, or `None` when
/// the text does not parse as a number.
pub uninterp spec fn parsed_bits_of(text: Seq<char>) -> Option<u64>;

/// What IEEE 754 binary64 multiplication (round to nearest, ties to even)
/// returns on the two operand bit patterns.
pub uninterp spec fn mul_bits_of(a: u64, b: u64) -> u64;

/// What IEEE 754 binary64 division (round to nearest, ties to even) returns
/// on the dividend and divisor bit patterns.
pub uninterp spec fn div_bits_of(a: u64, b: u64) -> u64;

/// What the IEEE 754 binary64 square root (round to nearest, ties to even)
/// returns on the operand bit pattern.
pub uninterp spec fn sqrt_bits_of(a: u64) -> u64;

#[verifier::external_type_specification]
#[verifier::external_body]
pub struct ExRoundingMode(softfp::RoundingMode);

#[verifier::external_type_specification]
#[verifier::external_body]
pub struct ExExceptionFlags(softfp::ExceptionFlags);

/// Relies on `softfp::RoundingMode`: hands the round to nearest, ties to
/// even mode to the arithmetic below, as the callback that `softfp` reads
/// its rounding mode through.
#[verifier::external_body]
fn ties_to_even() -> softfp::RoundingMode {
    softfp::RoundingMode::TiesToEven
}

/// Discards the exception flags that `softfp` reports through its callback;
/// the calculation reads no flag, only result patterns.
#[verifier::external_body]
fn discard_exception_flags(_flags: softfp::ExceptionFlags) {
}

/// Relies on `rustc_apfloat::ieee::Double::from_str`: correctly rounded
/// IEEE 754 binary64 parsing of decimal text, whose result depends on the
/// text alone; malformed text is reported as an error, never a panic.
#[verifier::external_body]
pub(crate) fn parse_bits(text: &str) -> (r: Option<u64>)
    ensures
        r == parsed_bits_of(text@),
{
    match text.parse::<rustc_apfloat::ieee::Double>() {
        Ok(v) => Some(v.to_bits() as u64),
        Err(_) => None,
    }
}

/// Relies on `softfp::F64::multiply`: IEEE 754 binary64 multiplication on
/// bit patterns, here under round to nearest, ties to even. Its result
/// depends on the operand bits alone; IEEE 754 makes the result NaN when an
/// operand is NaN, and makes the sign of a product the exclusive or of the
/// operands' signs, so agreeing signs give a clear sign bit.
#[verifier::external_body]
pub(crate) fn mul_bits(a: u64, b: u64) -> (r: u64)
    ensures
        r == mul_bits_of(a, b),
        is_nan_bits(a) || is_nan_bits(b) ==> is_nan_bits(r),
        sign_field(a) == sign_field(b) ==> is_nan_bits(r) || sign_field(r) == 0,
{
    softfp::register_get_rounding_mode(ties_to_even);
    softfp::register_set_exception_flags(discard_exception_flags);
    (softfp::F64::new(a) * softfp::F64::new(b)).0
}

/// Relies on `softfp::F64::divide`: IEEE 754 binary64 division on bit
/// patterns, here under round to nearest, ties to even. Its result depends
/// on the operand bits alone; IEEE 754 makes the result NaN when an operand
/// is NaN, and makes the sign of a quotient the exclusive or of the
/// operands' signs, so agreeing signs give a clear sign bit.
#[verifier::external_body]
pub(crate) fn div_bits(a: u64, b: u64) -> (r: u64)
    ensures
        r == div_bits_of(a, b),
        is_nan_bits(a) || is_nan_bits(b) ==> is_nan_bits(r),
        sign_field(a) == sign_field(b) ==> is_nan_bits(r) || sign_field(r) == 0,
{
    softfp::register_get_rounding_mode(ties_to_even);
    softfp::register_set_exception_flags(discard_exception_flags);
    (softfp::F64::new(a) / softfp::F64::new(b)).0
}

/// Relies on `softfp::F64::square_root`: the IEEE 754 binary64 square root
/// of a bit pattern, here under round to nearest, ties to even. Its result
/// depends on the operand bits alone; IEEE 754 makes the result NaN when
/// the operand is NaN or negative, and otherwise the root of a value with a
/// clear sign bit has a clear sign bit.
#[verifier::external_body]
pub(crate) fn sqrt_bits(a: u64) -> (r: u64)
    ensures
        r == sqrt_bits_of(a),
        is_nan_bits(a) ==> is_nan_bits(r),
        sign_field(a) == 0 ==> is_nan_bits(r) || sign_field(r) == 0,
{
    softfp::register_get_rounding_mode(ties_to_even);
    softfp::register_set_exception_flags(discard_exception_flags);
    softfp::F64::new(a).square_root().0
}

} // verus!
