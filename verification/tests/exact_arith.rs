//! The exact rational arithmetic, through its public interface.

use mapproj::frac::Frac;

fn frac(n: i128, d: i128) -> Frac {
    Frac::new(n, d).unwrap()
}

fn assert_val(f: &Frac, n: i128, d: i128) {
    assert!(f.eq_val(&frac(n, d)).unwrap());
}

#[test]
fn frac_add_sub_exact() {
    let a = frac(1, 3);
    let b = frac(1, 6);
    assert_val(&a.add(&b).unwrap(), 1, 2);
    assert_val(&a.sub(&b).unwrap(), 1, 6);
}

#[test]
fn frac_mul_div_exact() {
    let a = frac(3, 4);
    let b = frac(-2, 5);
    assert_val(&a.mul(&b).unwrap(), -3, 10);
    assert_val(&a.div(&b).unwrap(), -15, 8);
    let q = a.div(&b).unwrap();
    assert!(q.den() > 0);
}

#[test]
fn frac_div_by_zero_fails() {
    let a = frac(3, 4);
    let z = frac(0, 7);
    assert!(a.div(&z).is_none());
}

#[test]
fn frac_overflow_is_reported() {
    let big = frac(i128::MAX, 1);
    assert!(big.add(&big).is_none());
    assert!(big.mul(&big).is_none());
    assert!(Frac::new(1, 0).is_none());
}

#[test]
fn frac_negative_denominator_is_normalized() {
    let a = Frac::new(2, -4).unwrap();
    assert!(a.den() > 0);
    assert_val(&a, -1, 2);
}

#[test]
fn frac_order_and_sign() {
    let a = frac(-1, 2);
    let b = frac(1, 3);
    assert!(a.le(&b).unwrap());
    assert!(!b.le(&a).unwrap());
    assert_eq!(a.signum(), -1);
    assert_eq!(frac(0, 9).signum(), 0);
    assert_eq!(b.signum(), 1);
}
