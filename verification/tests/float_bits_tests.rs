use yeye_floating_clock::float_bits::{bits_is_nan, bits_less_than, clamp_bits};

const SAMPLES: [f64; 12] = [
    f64::NEG_INFINITY,
    -1.5,
    -0.1,
    -0.0,
    0.0,
    f64::MIN_POSITIVE,
    0.1,
    0.82,
    1.0,
    1.25,
    f64::MAX,
    f64::INFINITY,
];

#[test]
fn encoded_order_matches_float_order() {
    let mut all: Vec<f64> = SAMPLES.to_vec();
    all.push(f64::NAN);
    all.push(-f64::NAN);
    for a in &all {
        for b in &all {
            assert_eq!(bits_less_than(a.to_bits(), b.to_bits()), a < b, "{a} < {b}");
        }
        assert_eq!(bits_is_nan(a.to_bits()), a.is_nan());
    }
}

#[test]
fn encoded_clamp_matches_float_clamp() {
    for x in SAMPLES {
        let r = clamp_bits(x.to_bits(), 0.5f64.to_bits(), 1.25f64.to_bits());
        assert_eq!(r, x.clamp(0.5, 1.25).to_bits(), "{x}");
    }
    assert!(f64::from_bits(clamp_bits(f64::NAN.to_bits(), 0.1f64.to_bits(), 1.0f64.to_bits())).is_nan());
}
