use flowgate::ieee::F64Bits;

fn bits(x: f64) -> F64Bits {
    F64Bits { bits: x.to_bits() }
}

fn samples() -> Vec<f64> {
    vec![
        0.0,
        -0.0,
        1.0,
        -1.0,
        0.5,
        -0.5,
        0.87,
        1e-310,
        -1e-310,
        f64::MIN_POSITIVE,
        f64::MAX,
        f64::MIN,
        f64::INFINITY,
        f64::NEG_INFINITY,
        f64::NAN,
        -f64::NAN,
        f64::from_bits(0x7ff0_0000_0000_0001),
        f64::from_bits(0xfff8_0000_0000_0001),
        3.0,
        -3.0,
        0.1 + 0.2,
        0.3,
    ]
}

#[test]
fn comparisons_match_hardware() {
    for &a in &samples() {
        for &b in &samples() {
            assert_eq!(bits(a).ge(&bits(b)), a >= b, "{a} >= {b}");
            assert_eq!(bits(a).lt(&bits(b)), a < b, "{a} < {b}");
        }
    }
}

#[test]
fn clamp_matches_hardware() {
    let bounds = [(0.0, 1.0), (-1.0, 1.0), (0.2, 0.8), (0.5, 0.5), (-0.0, 0.0), (f64::NEG_INFINITY, 0.0)];
    for &(lo, hi) in &bounds {
        for &x in &samples() {
            let expected = x.clamp(lo, hi);
            let got = f64::from_bits(bits(x).clamp(bits(lo), bits(hi)).bits);
            assert_eq!(got.to_bits(), expected.to_bits(), "{x}.clamp({lo}, {hi})");
        }
    }
}

#[test]
fn nan_detection() {
    for &x in &samples() {
        assert_eq!(bits(x).is_nan(), x.is_nan(), "{x}");
    }
}

#[test]
fn order_key_follows_total_order() {
    for &a in &samples() {
        for &b in &samples() {
            assert_eq!(
                bits(a).order_key() < bits(b).order_key(),
                a.total_cmp(&b) == std::cmp::Ordering::Less,
                "{a} vs {b}"
            );
        }
    }
}

#[test]
fn clamp_keeps_value_within_bounds() {
    let c = bits(1.7).clamp(bits(0.0), bits(1.0));
    assert_eq!(f64::from_bits(c.bits), 1.0);
    let c = bits(-3.0).clamp(bits(0.0), bits(1.0));
    assert_eq!(f64::from_bits(c.bits), 0.0);
    let c = bits(0.25).clamp(bits(0.0), bits(1.0));
    assert_eq!(f64::from_bits(c.bits), 0.25);
}
