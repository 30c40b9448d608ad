//! Comparisons on bit patterns agree with those of the machine.
use daedalus::float::{F32, F64};

const SAMPLES: [f32; 17] = [
    0.0,
    -0.0,
    1.0,
    -1.0,
    0.35,
    -0.35,
    1e-40,
    -1e-40,
    f32::MIN_POSITIVE,
    f32::MAX,
    f32::MIN,
    f32::EPSILON,
    500.0,
    f32::INFINITY,
    f32::NEG_INFINITY,
    f32::NAN,
    123456.79,
];

fn f(v: f32) -> F32 {
    F32::from_bits(v.to_bits())
}

#[test]
fn comparisons_are_those_of_the_machine() {
    for a in SAMPLES {
        assert_eq!(f(a).is_finite(), a.is_finite());
        assert_eq!(f(a).is_nan(), a.is_nan());
        assert_eq!(f(a).neg().bits, (-a).to_bits());
        assert_eq!(f(a).abs().bits, a.abs().to_bits());
        let m = f32::from_bits(f(a).max_zero().bits);
        assert_eq!(m, a.max(0.0));
        for b in SAMPLES {
            assert_eq!(f(a).lt(f(b)), a < b, "{a} {b}");
            assert_eq!(f(a).le(f(b)), a <= b, "{a} {b}");
            assert_eq!(f(a).same(f(b)), a == b, "{a} {b}");
            assert_eq!(f(a).total_lt(f(b)), a.total_cmp(&b).is_lt(), "{a} {b}");
        }
    }
    assert_eq!(F32::zero().bits, 0);
}

#[test]
fn scaling_is_that_of_the_machine() {
    for a in SAMPLES {
        for factor in [1u32, 3, 1000, 1_000_000, 0x1fff_ffff] {
            assert_eq!(
                f(a).scaled_floor(factor),
                (a.max(0.0) as f64 * factor as f64) as u64,
                "{a} {factor}"
            );
        }
    }
}

#[test]
fn rates_have_a_floor() {
    let d = |v: f64| F64 { bits: v.to_bits() };
    for v in [0.0, -1.0, 0.5, 1.0, 2.0, 1e300, f64::INFINITY, f64::NEG_INFINITY, f64::NAN] {
        assert_eq!(d(v).at_least(d(1.0)).bits, v.max(1.0).to_bits());
    }
}
