use xcomplex::number::Complex;

fn c(re: f64, im: f64) -> Complex {
    Complex::new(re.to_bits(), im.to_bits())
}

fn samples() -> Vec<f64> {
    vec![
        0.0,
        -0.0,
        1.0,
        -2.0,
        0.44,
        2.23606797749979,
        f64::MIN_POSITIVE,
        f64::INFINITY,
        f64::NEG_INFINITY,
        f64::NAN,
    ]
}

#[test]
fn new_keeps_parts() {
    let x = c(1.0, 2.0);
    assert_eq!(f64::from_bits(x.re), 1.0);
    assert_eq!(f64::from_bits(x.im), 2.0);
}

#[test]
fn conj_negates_imaginary_part() {
    let x = c(1.0, 2.0).conj();
    assert!(x == c(1.0, -2.0));
    assert_eq!(x.re, 1.0f64.to_bits());
    assert_eq!(x.im, (-2.0f64).to_bits());
}

#[test]
fn conj_matches_float_negation() {
    for &v in samples().iter() {
        let x = c(3.0, v).conj();
        assert_eq!(x.im, (-v).to_bits());
        assert_eq!(x.re, 3.0f64.to_bits());
    }
}

#[test]
fn conj_twice_is_identity() {
    for &re in samples().iter() {
        for &im in samples().iter() {
            let x = c(re, im);
            let y = x.conj().conj();
            assert_eq!((y.re, y.im), (x.re, x.im));
            if re.is_finite() && im.is_finite() {
                assert!(y == x);
            }
        }
    }
}

#[test]
fn signed_zeros_compare_equal() {
    assert!(c(0.0, -0.0) == c(-0.0, 0.0));
    assert!(!(c(0.0, 0.0) != c(-0.0, -0.0)));
}

#[test]
fn nan_compares_unequal() {
    let x = c(f64::NAN, 0.0);
    assert!(!(x == x));
    assert!(x != x);
    let y = c(1.0, f64::NAN);
    assert!(y != y);
}

#[test]
fn distinct_values_compare_unequal() {
    assert!(c(1.0, 2.0) != c(1.0, 2.0000000000000004));
    assert!(c(1.0, 2.0) != c(-1.0, 2.0));
    assert!(c(f64::INFINITY, 0.0) == c(f64::INFINITY, 0.0));
    assert!(c(f64::INFINITY, 0.0) != c(f64::NEG_INFINITY, 0.0));
}

#[test]
fn equality_matches_float_equality() {
    for &a in samples().iter() {
        for &b in samples().iter() {
            let same = a == b;
            assert_eq!(c(a, 1.0) == c(b, 1.0), same);
            assert_eq!(c(1.0, a) != c(1.0, b), !same);
        }
    }
}
