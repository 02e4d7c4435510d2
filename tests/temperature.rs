use std::cmp::Ordering;
use temperature::binary64::{cmp_bits, eq_bits, is_nan_bits, is_non_negative_bits, magnitude_of};
use temperature::{Celcius, Fahrenheit, Kelvin};

fn kelvin(x: f64) -> Kelvin {
    Kelvin::from_bits(x.to_bits())
}

fn magnitude(k: Kelvin) -> f64 {
    f64::from_bits(k.to_bits())
}

fn samples() -> Vec<f64> {
    vec![
        0.0,
        -0.0,
        1.0,
        -1.0,
        273.0,
        300.0,
        -1000.0,
        5e-324,
        -5e-324,
        f64::MIN_POSITIVE,
        f64::MAX,
        f64::MIN,
        f64::INFINITY,
        f64::NEG_INFINITY,
        f64::NAN,
        -f64::NAN,
    ]
}

#[test]
fn kelvin_f64() {
    let m = kelvin(300f64);
    assert!(magnitude(m) == 300f64);
}

#[test]
fn kelvin_round_trip_keeps_bits() {
    for x in [0.0f64, -0.0, 1.5, 300.0, 5e-324, f64::MAX, f64::INFINITY] {
        assert_eq!(kelvin(x).to_bits(), x.to_bits());
    }
}

#[test]
fn kelvin_not_below_absolute_zero() {
    let m = kelvin(-1000f64);
    assert!(0f64 <= magnitude(m));
}

#[test]
fn kelvin_clamps_negative_to_positive_zero() {
    for x in [-1000.0f64, -1.0, -5e-324, f64::MIN, f64::NEG_INFINITY] {
        assert_eq!(kelvin(x).to_bits(), 0);
    }
}

#[test]
fn kelvin_clamps_nan_to_zero() {
    assert_eq!(kelvin(f64::NAN).to_bits(), 0);
    assert_eq!(kelvin(-f64::NAN).to_bits(), 0);
    assert_eq!(Kelvin::from_bits(0x7ff0_0000_0000_0001).to_bits(), 0);
}

#[test]
fn every_constructed_magnitude_is_non_negative() {
    for x in samples() {
        let m = magnitude(kelvin(x));
        assert!(m >= 0.0);
        let c = Celcius::from(kelvin(x));
        assert!(magnitude(Kelvin::from(c)) >= 0.0);
        let f = Fahrenheit::from(kelvin(x));
        assert!(magnitude(Kelvin::from(f)) >= 0.0);
    }
}

#[test]
fn celcius_absolute_not_below_zero() {
    let m = Celcius::from(kelvin(-1000f64 + 273.0));
    assert!(0f64 <= magnitude(Kelvin::from(m)));
}

#[test]
fn fahrenheit_absolute_not_below_zero() {
    let m = Fahrenheit::from(kelvin((5f64 / 9f64) * (-1000f64 - 32f64) + 273f64));
    assert!(0f64 <= magnitude(Kelvin::from(m)));
}

#[test]
fn convert() {
    let m = Celcius::from(kelvin(0f64 + 273f64));
    let n = Kelvin::from(m);
    let o = Fahrenheit::from(m);
    assert!(n == Kelvin::from(m) && o == Fahrenheit::from(m) && n == Kelvin::from(o));
    assert!(Celcius::from(o) == m);
    assert_eq!(magnitude(n), 273.0);
}

#[test]
fn conversions_keep_the_absolute_magnitude() {
    let k = kelvin(310.15);
    let c = Celcius::from(k);
    let f = Fahrenheit::from(c);
    assert_eq!(Kelvin::from(c).to_bits(), k.to_bits());
    assert_eq!(Kelvin::from(f).to_bits(), k.to_bits());
    assert_eq!(Kelvin::from(Celcius::from(f)).to_bits(), k.to_bits());
    assert_eq!(Kelvin::from(Fahrenheit::from(k)).to_bits(), k.to_bits());
}

#[test]
fn zeros_are_equal() {
    assert!(kelvin(0.0) == kelvin(-0.0));
    assert_eq!(kelvin(-0.0).to_bits(), (-0.0f64).to_bits());
    assert_eq!(kelvin(0.0).partial_cmp(&kelvin(-0.0)), Some(Ordering::Equal));
}

#[test]
fn equality_and_order_follow_the_magnitude() {
    assert!(kelvin(300.0) == kelvin(300.0));
    assert!(kelvin(300.0) != kelvin(301.0));
    assert!(kelvin(300.0) < kelvin(301.0));
    assert!(kelvin(f64::INFINITY) > kelvin(f64::MAX));
    assert!(Celcius::from(kelvin(1.0)) < Celcius::from(kelvin(2.0)));
    assert!(Fahrenheit::from(kelvin(2.0)) > Fahrenheit::from(kelvin(1.0)));
    assert!(Celcius::from(kelvin(5.0)) == Celcius::from(kelvin(5.0)));
    assert!(Fahrenheit::from(kelvin(5.0)) != Fahrenheit::from(kelvin(6.0)));
    assert_eq!(
        Fahrenheit::from(kelvin(7.0)).partial_cmp(&Fahrenheit::from(kelvin(7.0))),
        Some(Ordering::Equal)
    );
}

#[test]
fn bit_comparisons_agree_with_f64() {
    for a in samples() {
        assert_eq!(is_nan_bits(a.to_bits()), a.is_nan());
        assert_eq!(is_non_negative_bits(a.to_bits()), a >= 0.0);
        assert_eq!(magnitude_of(a.to_bits()), a.abs().to_bits());
        for b in samples() {
            assert_eq!(eq_bits(a.to_bits(), b.to_bits()), a == b);
            assert_eq!(cmp_bits(a.to_bits(), b.to_bits()), a.partial_cmp(&b));
        }
    }
}
