use yured::fusion::{maybe_calibrate_gravity_sign, Algorithm, DotBand, FusionEngine, GravitySign};

const BANDS: [DotBand; 6] = [
    DotBand::StrongNegative,
    DotBand::Negative,
    DotBand::Ambiguous,
    DotBand::Positive,
    DotBand::StrongPositive,
    DotBand::Undefined,
];

fn calibrate(sign: GravitySign, near_static: bool, dot: DotBand) -> GravitySign {
    let mut sign = sign;
    maybe_calibrate_gravity_sign(&mut sign, near_static, dot);
    sign
}

#[test]
fn first_static_sample_sets_positive_sign() {
    assert_eq!(calibrate(GravitySign::Unknown, true, DotBand::StrongPositive), GravitySign::Positive);
    assert_eq!(calibrate(GravitySign::Unknown, true, DotBand::Positive), GravitySign::Positive);
}

#[test]
fn first_static_sample_sets_negative_sign() {
    assert_eq!(calibrate(GravitySign::Unknown, true, DotBand::StrongNegative), GravitySign::Negative);
    assert_eq!(calibrate(GravitySign::Unknown, true, DotBand::Negative), GravitySign::Negative);
    assert_eq!(calibrate(GravitySign::Unknown, true, DotBand::Undefined), GravitySign::Negative);
}

#[test]
fn strong_opposition_flips_the_sign() {
    assert_eq!(calibrate(GravitySign::Positive, true, DotBand::StrongNegative), GravitySign::Negative);
    assert_eq!(calibrate(GravitySign::Negative, true, DotBand::StrongPositive), GravitySign::Positive);
}

#[test]
fn set_then_flip() {
    let mut sign = GravitySign::Unknown;
    maybe_calibrate_gravity_sign(&mut sign, true, DotBand::Positive);
    assert_eq!(sign, GravitySign::Positive);
    maybe_calibrate_gravity_sign(&mut sign, true, DotBand::StrongNegative);
    assert_eq!(sign, GravitySign::Negative);
}

#[test]
fn weak_opposition_keeps_the_sign() {
    for dot in [DotBand::Negative, DotBand::Ambiguous, DotBand::Positive, DotBand::Undefined] {
        assert_eq!(calibrate(GravitySign::Positive, true, dot), GravitySign::Positive);
        assert_eq!(calibrate(GravitySign::Negative, true, dot), GravitySign::Negative);
    }
    assert_eq!(calibrate(GravitySign::Positive, true, DotBand::StrongPositive), GravitySign::Positive);
    assert_eq!(calibrate(GravitySign::Negative, true, DotBand::StrongNegative), GravitySign::Negative);
}

#[test]
fn ambiguous_dot_keeps_an_unsettled_sign() {
    assert_eq!(calibrate(GravitySign::Unknown, true, DotBand::Ambiguous), GravitySign::Unknown);
}

#[test]
fn motion_never_alters_the_sign() {
    for sign in [GravitySign::Unknown, GravitySign::Positive, GravitySign::Negative] {
        for dot in BANDS {
            assert_eq!(calibrate(sign, false, dot), sign);
        }
    }
}

#[test]
fn a_settled_sign_never_becomes_unsettled() {
    for sign in [GravitySign::Positive, GravitySign::Negative] {
        for near_static in [false, true] {
            for dot in BANDS {
                assert_ne!(calibrate(sign, near_static, dot), GravitySign::Unknown);
            }
        }
    }
}

#[test]
fn sign_factors() {
    assert_eq!(GravitySign::Unknown.factor(), 1);
    assert_eq!(GravitySign::Positive.factor(), 1);
    assert_eq!(GravitySign::Negative.factor(), -1);
    assert_eq!(GravitySign::from_dot(true), GravitySign::Positive);
    assert_eq!(GravitySign::from_dot(false), GravitySign::Negative);
}

#[test]
fn engine_starts_unsettled_and_returns_the_factor() {
    let mut engine = FusionEngine::new(Algorithm::Mahony);
    assert_eq!(engine.algorithm, Algorithm::Mahony);
    assert_eq!(engine.gravity_sign, GravitySign::Unknown);
    assert_eq!(engine.update(false, DotBand::StrongNegative), 1);
    assert_eq!(engine.gravity_sign, GravitySign::Unknown);
    assert_eq!(engine.update(true, DotBand::StrongNegative), -1);
    assert_eq!(engine.gravity_sign, GravitySign::Negative);
    assert_eq!(engine.update(true, DotBand::Positive), -1);
    assert_eq!(engine.update(true, DotBand::StrongPositive), 1);
    assert_eq!(engine.gravity_sign, GravitySign::Positive);
    assert_eq!(engine.algorithm, Algorithm::Mahony);
}

#[test]
fn algorithm_names() {
    assert_eq!(Algorithm::Madgwick.name(), "madgwick");
    assert_eq!(Algorithm::Mahony.name(), "mahony");
    assert_eq!(Algorithm::Vqf.name(), "vqf");
}
