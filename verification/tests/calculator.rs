use yplus::calc::{
    compute, compute_reynolds, parse_field, parse_input, CalculationInput, DomainRule,
    FRICTION_FACTOR_BITS, NEG_ONE_FIFTH_BITS, ONE_HALF_BITS,
};
use yplus::ieee::{Fp64, QUIET_NAN_BITS};

/// Drive the whole calculation the way a caller does: parse the five texts,
/// derive the power of the Reynolds number, and compute both outputs.
fn run(velocity: &str, density: &str, viscosity: &str, length: &str, yplus: &str) -> (f64, f64) {
    let input = parse_input(velocity, density, viscosity, length, yplus);
    let re = compute_reynolds(&input);
    let re_pow = f64::from_bits(re.bits).powf(f64::from_bits(NEG_ONE_FIFTH_BITS));
    let result = compute(&input, Fp64::from_bits(re_pow.to_bits()));
    (
        f64::from_bits(result.reynolds.bits),
        f64::from_bits(result.first_layer_height.bits),
    )
}

#[test]
fn constants_hold_the_expected_values() {
    assert_eq!(f64::from_bits(FRICTION_FACTOR_BITS), 0.058);
    assert_eq!(f64::from_bits(ONE_HALF_BITS), 0.5);
    assert_eq!(f64::from_bits(NEG_ONE_FIFTH_BITS), -0.2);
    assert!(f64::from_bits(QUIET_NAN_BITS).is_nan());
}

#[test]
fn parse_field_matches_the_platform_parser() {
    for text in [
        "1.0", "1.205", "1.82e-5", "3.14159", "0.058", "2.5", "1e308", "1e400",
        "2.2250738585072014e-308", "5e-324", "66208.79120879121",
    ] {
        let got = parse_field(text, DomainRule::Positive);
        let expected: f64 = text.parse().unwrap();
        assert_eq!(got.bits, expected.to_bits(), "text {}", text);
    }
}

#[test]
fn parse_field_rejects_unparseable_text() {
    for text in ["", "abc", "1.2.3", "12x", "--1", "0x", " 1.0"] {
        let got = parse_field(text, DomainRule::Positive);
        assert_eq!(got.bits, QUIET_NAN_BITS, "text {:?}", text);
    }
}

#[test]
fn parse_field_applies_the_domain_rules() {
    // Zero is accepted as non-negative, rejected as positive.
    assert_eq!(parse_field("0", DomainRule::NonNegative).bits, 0.0f64.to_bits());
    assert_eq!(parse_field("0", DomainRule::Positive).bits, QUIET_NAN_BITS);
    // Negative zero still compares greater than or equal to zero.
    assert_eq!(parse_field("-0.0", DomainRule::NonNegative).bits, (-0.0f64).to_bits());
    assert_eq!(parse_field("-0.0", DomainRule::Positive).bits, QUIET_NAN_BITS);
    // Negative values fail both rules.
    assert_eq!(parse_field("-1.0", DomainRule::NonNegative).bits, QUIET_NAN_BITS);
    assert_eq!(parse_field("-1.0", DomainRule::Positive).bits, QUIET_NAN_BITS);
    // A parsed NaN satisfies no domain rule.
    assert_eq!(parse_field("nan", DomainRule::NonNegative).bits, QUIET_NAN_BITS);
    // Positive infinity compares greater than zero.
    assert_eq!(parse_field("1e999", DomainRule::Positive).bits, f64::INFINITY.to_bits());
}

#[test]
fn reynolds_number_matches_binary64_arithmetic_exactly() {
    let input = parse_input("1.0", "1.205", "1.82e-5", "1.0", "1.0");
    assert!(input.valid());
    let re = compute_reynolds(&input);
    let expected = 1.205f64 * 1.0 * 1.0 / 1.82e-5;
    assert_eq!(re.bits, expected.to_bits());
}

#[test]
fn first_layer_height_matches_binary64_arithmetic_exactly() {
    let input = parse_input("1.0", "1.205", "1.82e-5", "1.0", "1.0");
    let re = compute_reynolds(&input);
    let re_pow = f64::from_bits(re.bits).powf(-0.2);
    let result = compute(&input, Fp64::from_bits(re_pow.to_bits()));

    let (velocity, density, viscosity, yplus) = (1.0f64, 1.205f64, 1.82e-5f64, 1.0f64);
    let reynolds = f64::from_bits(re.bits);
    let cf = 0.058 * re_pow;
    let tw = 0.5 * cf * density * (velocity * velocity);
    let ur = (tw / density).sqrt();
    let y1 = yplus * viscosity / ur / density;
    assert_eq!(f64::from_bits(result.reynolds.bits), reynolds);
    assert_eq!(result.first_layer_height.bits, y1.to_bits());
}

#[test]
fn scenario_default_inputs() {
    let (re, y1) = run("1.0", "1.205", "1.82e-5", "1.0", "1.0");
    assert!((re - 66208.79).abs() < 0.01);
    assert!((re - 66208.79120879121).abs() / re < 1e-12);
    assert!((y1 - 2.691391695447763e-4).abs() / y1 < 1e-10);
}

#[test]
fn scenario_unparseable_viscosity() {
    let (re, y1) = run("1.0", "1.205", "abc", "1.0", "1.0");
    assert!(re.is_nan());
    assert!(y1.is_nan());
}

#[test]
fn scenario_negative_density() {
    let (re, y1) = run("1.0", "-1.0", "1.82e-5", "1.0", "1.0");
    assert!(re.is_nan());
    assert!(y1.is_nan());
}

#[test]
fn scenario_zero_target_yplus() {
    let (re, y1) = run("1.0", "1.205", "1.82e-5", "1.0", "0");
    assert!(!re.is_nan());
    assert!((re - 66208.79).abs() < 0.01);
    assert!(y1.is_nan());
}

#[test]
fn unparseable_velocity_poisons_both_outputs() {
    let (re, y1) = run("x", "1.205", "1.82e-5", "1.0", "1.0");
    assert!(re.is_nan());
    assert!(y1.is_nan());
}

#[test]
fn unparseable_length_poisons_both_outputs() {
    let (re, y1) = run("1.0", "1.205", "1.82e-5", "", "1.0");
    assert!(re.is_nan());
    assert!(y1.is_nan());
}

#[test]
fn zero_velocity_is_valid_but_starves_the_height() {
    // A zero velocity is inside the domain, yet the chain degenerates: the
    // Reynolds number is zero, its negative power infinite, and the height
    // ends as NaN through zero times infinity.
    let input = parse_input("0", "1.205", "1.82e-5", "1.0", "1.0");
    assert!(input.valid());
    let (re, y1) = run("0", "1.205", "1.82e-5", "1.0", "1.0");
    assert_eq!(re, 0.0);
    assert!(y1.is_nan());
}

#[test]
fn compute_twice_gives_identical_bits() {
    let input = parse_input("1.0", "1.205", "1.82e-5", "1.0", "1.0");
    let re = compute_reynolds(&input);
    let re_pow = Fp64::from_bits(f64::from_bits(re.bits).powf(-0.2).to_bits());
    let first = compute(&input, re_pow);
    let second = compute(&input, re_pow);
    assert_eq!(first.reynolds.bits, second.reynolds.bits);
    assert_eq!(first.first_layer_height.bits, second.first_layer_height.bits);
}

#[test]
fn parse_twice_gives_identical_bits() {
    let first = parse_input("1.0", "1.205", "1.82e-5", "1.0", "1.0");
    let second = parse_input("1.0", "1.205", "1.82e-5", "1.0", "1.0");
    assert_eq!(first, second);
}

#[test]
fn validity_requires_every_field() {
    let valid = parse_input("1.0", "1.205", "1.82e-5", "1.0", "1.0");
    assert!(valid.valid());
    let invalid = CalculationInput { density: Fp64::nan(), ..valid };
    assert!(!invalid.valid());
    assert!(Fp64::nan().is_nan());
    assert!(!Fp64::from_bits(1.0f64.to_bits()).is_nan());
    assert!(Fp64::from_bits(1.0f64.to_bits()).is_gt_zero());
    assert!(!Fp64::from_bits((-1.0f64).to_bits()).is_ge_zero());
    assert!(Fp64::from_bits((-0.0f64).to_bits()).is_ge_zero());
    assert!(!Fp64::from_bits((-0.0f64).to_bits()).is_gt_zero());
}

#[test]
fn valid_inputs_give_non_negative_outputs() {
    for (v, d, mu, l, yp) in [
        ("1.0", "1.205", "1.82e-5", "1.0", "1.0"),
        ("10", "1000", "1.0e-3", "2.5", "30"),
        ("0.5", "1.225", "1.8e-5", "0.1", "5"),
        ("340", "0.4", "1.4e-5", "12", "100"),
    ] {
        let (re, y1) = run(v, d, mu, l, yp);
        assert!(re > 0.0, "reynolds for {} {} {} {} {}", v, d, mu, l, yp);
        assert!(y1 > 0.0, "height for {} {} {} {} {}", v, d, mu, l, yp);
    }
}
