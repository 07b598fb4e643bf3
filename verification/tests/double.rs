use pump_sniper::double::Double;

fn d(x: f64) -> Double {
    Double { bits: x.to_bits() }
}

const SAMPLES: [f64; 12] = [
    0.0,
    -0.0,
    1.0,
    -1.0,
    0.5,
    100.0,
    f64::MIN_POSITIVE,
    5e-324,
    f64::MAX,
    f64::INFINITY,
    f64::NEG_INFINITY,
    f64::NAN,
];

#[test]
fn comparisons_agree_with_the_hardware() {
    for a in SAMPLES {
        for b in SAMPLES {
            assert_eq!(d(a).lt(&d(b)), a < b, "{a} < {b}");
            assert_eq!(d(a).le(&d(b)), a <= b, "{a} <= {b}");
            assert_eq!(d(a).same(&d(b)), a == b, "{a} == {b}");
        }
    }
}

#[test]
fn negation_agrees_with_the_hardware() {
    for a in SAMPLES {
        assert_eq!(d(a).neg().bits, (-a).to_bits());
        assert_eq!(d(a).neg().neg().bits, a.to_bits());
    }
}

#[test]
fn clamping_agrees_with_the_hardware() {
    for a in SAMPLES {
        let r = d(a).clamp(&Double::zero(), &Double::hundred());
        assert_eq!(r.bits, a.clamp(0.0, 100.0).to_bits(), "{a}");
        assert_eq!(d(a).floor_at(&Double::zero()).bits, a.clamp(0.0, f64::INFINITY).to_bits(), "{a}");
    }
}

#[test]
fn named_values() {
    assert_eq!(Double::zero().bits, 0.0f64.to_bits());
    assert_eq!(Double::hundred().bits, 100.0f64.to_bits());
    assert!(d(f64::NAN).is_not_a_number());
    assert!(!d(f64::INFINITY).is_not_a_number());
}
