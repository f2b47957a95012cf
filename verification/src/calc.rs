use vstd::prelude::*;

use crate::arith::{
    div_bits, div_bits_of, mul_bits, mul_bits_of, parse_bits, parsed_bits_of, sqrt_bits,
    sqrt_bits_of,
};
use crate::ieee::{
    is_ge_zero_bits, is_gt_zero_bits, is_nan_bits, sign_field, Fp64, QUIET_NAN_BITS,
};

verus! {

/// Bit pattern of 0.058, the factor of the flat-plate skin-friction
/// correlation.
pub const FRICTION_FACTOR_BITS: u64 = 0x3fad_b22d_0e56_0419;

/// Bit pattern of 0.5.
pub const ONE_HALF_BITS: u64 = 0x3fe0_0000_0000_0000;

/// Bit pattern of -0.2, the power of the Reynolds number that the
/// skin-friction correlation asks for.
pub const NEG_ONE_FIFTH_BITS: u64 = 0xbfc9_9999_9999_999a;

/// The domain a parsed field must lie in to be accepted.
#[derive(Clone, Copy, PartialEq, Eq, Structural, Debug)]
pub enum DomainRule {
    /// The value must compare greater than or equal to zero.
    NonNegative,
    /// The value must compare strictly greater than zero.
    Positive,
}

impl DomainRule {
    /// Whether a binary64 pattern satisfies this rule. NaN satisfies
    /// neither rule.
    pub open spec fn admits(self, b: u64) -> bool {
        match self {
            DomainRule::NonNegative => is_ge_zero_bits(b),
            DomainRule::Positive => is_gt_zero_bits(b),
        }
    }

    /// Decide whether a value satisfies this rule.
    pub fn check(&self, value: Fp64) -> (r: bool)
        ensures
            r == self.admits(value.bits),
    {
        match self {
            DomainRule::NonNegative => value.is_ge_zero(),
            DomainRule::Positive => value.is_gt_zero(),
        }
    }
}

/// What a text field yields: the parsed pattern when the text parses and
/// the parsed value satisfies the rule, the canonical NaN otherwise.
pub open spec fn spec_parse_field(text: Seq<char>, rule: DomainRule) -> u64 {
    match parsed_bits_of(text) {
        Some(b) => if rule.admits(b) {
            b
        } else {
            QUIET_NAN_BITS
        },
        None => QUIET_NAN_BITS,
    }
}

/// Parse one text field under a domain rule. Unparseable text and values
/// outside the rule's domain both yield the canonical NaN, the library's
/// uniform failure sentinel; no error is raised.
pub fn parse_field(text: &str, rule: DomainRule) -> (r: Fp64)
    ensures
        r.bits == spec_parse_field(text@, rule),
        r.bits == QUIET_NAN_BITS || (parsed_bits_of(text@) == Some(r.bits) && rule.admits(
            r.bits,
        )),
        !is_nan_bits(r.bits) ==> rule.admits(r.bits),
{
    match parse_bits(text) {
        Some(b) => {
            let value = Fp64 { bits: b };
            if rule.check(value) {
                value
            } else {
                Fp64::nan()
            }
        },
        None => Fp64::nan(),
    }
}

/// The five quantities one calculation works on, each an IEEE 754 binary64
/// pattern; a field holds NaN when its text was rejected.
#[derive(Clone, Copy, PartialEq, Eq, Structural, Debug)]
pub struct CalculationInput {
    /// Free-stream velocity in m/s; accepted when it compares `>= 0`.
    pub velocity: Fp64,
    /// Fluid density in kg/m^3; accepted when it compares `> 0`.
    pub density: Fp64,
    /// Dynamic viscosity in Pa*s; accepted when it compares `> 0`.
    pub viscosity: Fp64,
    /// Characteristic length in m; accepted when it compares `> 0`.
    pub length: Fp64,
    /// Target dimensionless wall distance; accepted when it compares `> 0`.
    pub target_yplus: Fp64,
}

impl CalculationInput {
    /// Every field lies in its domain: velocity compares `>= 0`, the four
    /// other quantities compare `> 0`. NaN fields never count as valid.
    pub open spec fn is_valid(self) -> bool {
        is_ge_zero_bits(self.velocity.bits) && is_gt_zero_bits(self.density.bits)
            && is_gt_zero_bits(self.viscosity.bits) && is_gt_zero_bits(self.length.bits)
            && is_gt_zero_bits(self.target_yplus.bits)
    }

    /// Decide whether every field lies in its domain.
    pub fn valid(&self) -> (r: bool)
        ensures
            r == self.is_valid(),
    {
        self.velocity.is_ge_zero() && self.density.is_gt_zero() && self.viscosity.is_gt_zero()
            && self.length.is_gt_zero() && self.target_yplus.is_gt_zero()
    }
}

/// The two derived quantities of one calculation.
#[derive(Clone, Copy, PartialEq, Eq, Structural, Debug)]
pub struct CalculationResult {
    /// Reynolds number: density * velocity * length / viscosity.
    pub reynolds: Fp64,
    /// First layer height in m: the wall-normal distance of the first mesh
    /// node that meets the target wall distance.
    pub first_layer_height: Fp64,
}

/// Parse the five text fields of one calculation, each under its own
/// domain rule.
pub fn parse_input(
    velocity: &str,
    density: &str,
    viscosity: &str,
    length: &str,
    target_yplus: &str,
) -> (r: CalculationInput)
    ensures
        r.velocity.bits == spec_parse_field(velocity@, DomainRule::NonNegative),
        r.density.bits == spec_parse_field(density@, DomainRule::Positive),
        r.viscosity.bits == spec_parse_field(viscosity@, DomainRule::Positive),
        r.length.bits == spec_parse_field(length@, DomainRule::Positive),
        r.target_yplus.bits == spec_parse_field(target_yplus@, DomainRule::Positive),
        !is_nan_bits(r.velocity.bits) && !is_nan_bits(r.density.bits) && !is_nan_bits(
            r.viscosity.bits,
        ) && !is_nan_bits(r.length.bits) && !is_nan_bits(r.target_yplus.bits) ==> r.is_valid(),
{
    CalculationInput {
        velocity: parse_field(velocity, DomainRule::NonNegative),
        density: parse_field(density, DomainRule::Positive),
        viscosity: parse_field(viscosity, DomainRule::Positive),
        length: parse_field(length, DomainRule::Positive),
        target_yplus: parse_field(target_yplus, DomainRule::Positive),
    }
}

/// Reynolds number of an input: density * velocity * length / viscosity,
/// each step in binary64 arithmetic.
pub open spec fn spec_reynolds(i: CalculationInput) -> u64 {
    div_bits_of(
        mul_bits_of(mul_bits_of(i.density.bits, i.velocity.bits), i.length.bits),
        i.viscosity.bits,
    )
}

/// Skin-friction coefficient: 0.058 times the supplied power of the
/// Reynolds number.
pub open spec fn spec_friction_coefficient(reynolds_pow: u64) -> u64 {
    mul_bits_of(FRICTION_FACTOR_BITS, reynolds_pow)
}

/// Wall shear stress: 0.5 * coefficient * density * velocity^2.
pub open spec fn spec_wall_shear_stress(i: CalculationInput, coefficient: u64) -> u64 {
    mul_bits_of(
        mul_bits_of(mul_bits_of(ONE_HALF_BITS, coefficient), i.density.bits),
        mul_bits_of(i.velocity.bits, i.velocity.bits),
    )
}

/// Friction velocity: the square root of stress / density.
pub open spec fn spec_friction_velocity(i: CalculationInput, stress: u64) -> u64 {
    sqrt_bits_of(div_bits_of(stress, i.density.bits))
}

/// First layer height: target wall distance * viscosity / friction
/// velocity / density.
pub open spec fn spec_layer_height(i: CalculationInput, friction_velocity: u64) -> u64 {
    div_bits_of(
        div_bits_of(mul_bits_of(i.target_yplus.bits, i.viscosity.bits), friction_velocity),
        i.density.bits,
    )
}

/// First layer height of an input, given the supplied power of the
/// Reynolds number: the whole chain from the skin-friction coefficient down.
pub open spec fn spec_first_layer_height(i: CalculationInput, reynolds_pow: u64) -> u64 {
    spec_layer_height(
        i,
        spec_friction_velocity(i, spec_wall_shear_stress(i, spec_friction_coefficient(reynolds_pow))),
    )
}

/// Both derived quantities of an input, given the supplied power of the
/// Reynolds number.
pub open spec fn spec_compute(i: CalculationInput, reynolds_pow: u64) -> CalculationResult {
    CalculationResult {
        reynolds: Fp64 { bits: spec_reynolds(i) },
        first_layer_height: Fp64 { bits: spec_first_layer_height(i, reynolds_pow) },
    }
}

/// Compute the Reynolds number of an input in binary64 arithmetic. A NaN in
/// any of the four quantities it reads makes the result NaN; four clear
/// sign bits make the result's sign bit clear, unless it is NaN.
pub fn compute_reynolds(input: &CalculationInput) -> (r: Fp64)
    ensures
        r.bits == spec_reynolds(*input),
        is_nan_bits(input.velocity.bits) || is_nan_bits(input.density.bits) || is_nan_bits(
            input.length.bits,
        ) || is_nan_bits(input.viscosity.bits) ==> is_nan_bits(r.bits),
        sign_field(input.velocity.bits) == 0 && sign_field(input.density.bits) == 0 && sign_field(
            input.length.bits,
        ) == 0 && sign_field(input.viscosity.bits) == 0 ==> is_nan_bits(r.bits) || sign_field(
            r.bits,
        ) == 0,
{
    let momentum = mul_bits(input.density.bits, input.velocity.bits);
    let inertia = mul_bits(momentum, input.length.bits);
    Fp64 { bits: div_bits(inertia, input.viscosity.bits) }
}

/// Evaluate the whole calculation in binary64 arithmetic.
///
/// `reynolds_pow` must be supplied by the caller as the Reynolds number of
/// the input raised to the power -0.2 (`NEG_ONE_FIFTH_BITS`); raising to
/// that power is the one step of the chain this library does not carry out
/// itself. Every other step is fixed exactly by the contract.
///
/// A rejected (NaN) field poisons every derived quantity that depends on
/// it: a NaN velocity, density or viscosity makes both outputs NaN; a NaN
/// length makes the Reynolds number NaN (and the first layer height too,
/// through `reynolds_pow`, once the caller derives it from the Reynolds
/// number); a NaN target wall distance makes the first layer height NaN
/// while leaving the Reynolds number untouched.
///
/// For a valid input, no derived quantity is ever negative: each output
/// either is NaN or carries a clear sign bit. The Reynolds number's clause
/// asks for a clear sign bit on the velocity, since a negative-zero
/// velocity, valid as it is, signs the product all the way down.
pub fn compute(input: &CalculationInput, reynolds_pow: Fp64) -> (r: CalculationResult)
    ensures
        r == spec_compute(*input, reynolds_pow.bits),
        r.reynolds.bits == spec_reynolds(*input),
        r.first_layer_height.bits == spec_first_layer_height(*input, reynolds_pow.bits),
        is_nan_bits(input.velocity.bits) || is_nan_bits(input.density.bits) || is_nan_bits(
            input.length.bits,
        ) || is_nan_bits(input.viscosity.bits) ==> is_nan_bits(r.reynolds.bits),
        is_nan_bits(input.velocity.bits) || is_nan_bits(input.density.bits) || is_nan_bits(
            input.viscosity.bits,
        ) ==> is_nan_bits(r.first_layer_height.bits),
        is_nan_bits(reynolds_pow.bits) ==> is_nan_bits(r.first_layer_height.bits),
        is_nan_bits(input.target_yplus.bits) ==> is_nan_bits(r.first_layer_height.bits),
        input.is_valid() && sign_field(input.velocity.bits) == 0 ==> is_nan_bits(r.reynolds.bits)
            || sign_field(r.reynolds.bits) == 0,
        input.is_valid() && (is_nan_bits(reynolds_pow.bits) || sign_field(reynolds_pow.bits)
            == 0) ==> is_nan_bits(r.first_layer_height.bits) || sign_field(
            r.first_layer_height.bits,
        ) == 0,
{
    proof {
        assert(sign_field(FRICTION_FACTOR_BITS) == 0 && sign_field(ONE_HALF_BITS) == 0)
            by (bit_vector);
    }
    let reynolds = compute_reynolds(input);
    let coefficient = mul_bits(FRICTION_FACTOR_BITS, reynolds_pow.bits);
    let velocity_sq = mul_bits(input.velocity.bits, input.velocity.bits);
    let stress = mul_bits(
        mul_bits(mul_bits(ONE_HALF_BITS, coefficient), input.density.bits),
        velocity_sq,
    );
    let friction_velocity = sqrt_bits(div_bits(stress, input.density.bits));
    let height = div_bits(
        div_bits(mul_bits(input.target_yplus.bits, input.viscosity.bits), friction_velocity),
        input.density.bits,
    );
    CalculationResult { reynolds, first_layer_height: Fp64 { bits: height } }
}

/// Law: the calculation is deterministic. Two runs over identical inputs,
/// including an identical supplied power of the Reynolds number, give
/// identical results, bit for bit.
pub proof fn lemma_compute_deterministic(
    a: CalculationInput,
    b: CalculationInput,
    a_pow: u64,
    b_pow: u64,
)
    requires
        a == b,
        a_pow == b_pow,
    ensures
        spec_compute(a, a_pow) == spec_compute(b, b_pow),
{
}

/// Law: parsing is deterministic. One text under one rule always yields
/// the same pattern.
pub proof fn lemma_parse_deterministic(a: Seq<char>, b: Seq<char>, rule: DomainRule)
    requires
        a == b,
    ensures
        spec_parse_field(a, rule) == spec_parse_field(b, rule),
{
}

} // verus!
