use typing_guard_svc::models::double::{Double, INFINITY, ONE, SIGN_BIT, ZERO};

fn d(x: f64) -> Double {
    Double::from_bits(x.to_bits())
}

fn samples() -> Vec<f64> {
    let mut values = vec![
        0.0,
        -0.0,
        f64::MIN_POSITIVE,
        -f64::MIN_POSITIVE,
        f64::from_bits(1),
        -f64::from_bits(1),
        f64::from_bits(0x000F_FFFF_FFFF_FFFF),
        0.01,
        0.1,
        0.3,
        0.4,
        0.5,
        0.6,
        0.8,
        0.99,
        1.0,
        1.01,
        -1.0,
        2.0,
        3.5,
        50.0,
        100.0,
        300.0,
        1000.0,
        1.0e300,
        -1.0e300,
        f64::MAX,
        f64::MIN,
        f64::INFINITY,
        f64::NEG_INFINITY,
        f64::NAN,
        -f64::NAN,
        f64::from_bits(0x7FF0_0000_0000_0001),
        f64::from_bits(0xFFFF_FFFF_FFFF_FFFF),
    ];
    let around: Vec<f64> = values
        .iter()
        .filter(|x| x.is_finite())
        .flat_map(|x| {
            let bits = x.to_bits();
            [
                f64::from_bits(bits.wrapping_add(1)),
                f64::from_bits(bits.wrapping_sub(1)),
            ]
        })
        .collect();
    values.extend(around);
    values
}

#[test]
fn bits_round_trip() {
    for x in samples() {
        assert_eq!(d(x).to_bits(), x.to_bits());
        assert_eq!(d(x).bits, x.to_bits());
    }
    assert_eq!(d(0.0).bits, ZERO);
    assert_eq!(d(1.0).bits, ONE);
    assert_eq!(d(f64::INFINITY).bits, INFINITY);
    assert_eq!(d(-0.0).bits, SIGN_BIT);
}

#[test]
fn nan_is_told_as_floating_point_tells_it() {
    for x in samples() {
        assert_eq!(d(x).is_nan(), x.is_nan(), "{:?}", x);
    }
}

#[test]
fn order_is_that_of_floating_point() {
    let values = samples();
    for &a in &values {
        for &b in &values {
            assert_eq!(d(a).lt(d(b)), a < b, "{:?} < {:?}", a, b);
            assert_eq!(d(a).le(d(b)), a <= b, "{:?} <= {:?}", a, b);
            assert_eq!(d(a).gt(d(b)), a > b, "{:?} > {:?}", a, b);
            assert_eq!(d(a).ge(d(b)), a >= b, "{:?} >= {:?}", a, b);
        }
    }
}

#[test]
fn zeros_are_equal_and_nan_is_unordered() {
    assert!(d(0.0).le(d(-0.0)));
    assert!(d(-0.0).le(d(0.0)));
    assert!(d(0.0).ge(d(-0.0)));
    assert!(!d(-0.0).lt(d(0.0)));
    assert!(!d(0.0).gt(d(-0.0)));
    let nan = d(f64::NAN);
    assert!(!nan.lt(nan) && !nan.le(nan) && !nan.gt(nan) && !nan.ge(nan));
    assert!(!nan.lt(d(1.0)) && !d(1.0).lt(nan));
    assert!(!nan.ge(d(f64::NEG_INFINITY)) && !d(f64::INFINITY).ge(nan));
}

#[test]
fn clamp_is_that_of_floating_point() {
    let bounds = [(0.0, 1.0), (-1.0, 1.0), (0.5, 0.5), (-0.0, 0.0), (0.0, f64::INFINITY)];
    for x in samples() {
        for (low, high) in bounds {
            let got = d(x).clamp(d(low), d(high));
            let want = x.clamp(low, high);
            assert_eq!(got.bits, want.to_bits(), "{:?} in {:?}..{:?}", x, low, high);
        }
    }
}

#[test]
fn clamp_keeps_the_sign_of_a_zero_and_a_nan_as_it_is() {
    assert_eq!(d(-0.0).clamp(d(0.0), d(1.0)).bits, SIGN_BIT);
    assert_eq!(d(1.5).clamp(d(0.0), d(1.0)).bits, ONE);
    assert_eq!(d(-7.0).clamp(d(0.0), d(1.0)).bits, ZERO);
    assert_eq!(d(0.8875).clamp(d(0.0), d(1.0)).bits, 0.8875f64.to_bits());
    let nan = f64::from_bits(0x7FF8_0000_0000_1234);
    assert_eq!(d(nan).clamp(d(0.0), d(1.0)).bits, nan.to_bits());
}
