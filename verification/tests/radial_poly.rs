//! The defining function of the zenithal polynomial projection, at exact
//! rational probes, and the SIP structural rules.

use mapproj::frac::Frac;
use mapproj::sip::{
    order_from_n_coeff, sip_exponents, Newton2dObs, Newton2dState, SipCoeff,
};
use mapproj::zpn::RadialPoly;

fn frac(n: i128, d: i128) -> Frac {
    Frac::new(n, d).unwrap()
}

fn gcd(mut a: i128, mut b: i128) -> i128 {
    a = a.abs();
    b = b.abs();
    while b != 0 {
        let t = a % b;
        a = b;
        b = t;
    }
    a
}

/// Compares an exact result against `n/d` after reducing it, for values
/// whose unreduced terms would not fit a cross-multiplication.
fn assert_reduced(f: &Frac, n: i128, d: i128) {
    let g = gcd(f.num(), f.den());
    assert_eq!(f.num() / g, n);
    assert_eq!(f.den() / g, d);
}

fn poly(coeffs: &[(i128, i128)]) -> RadialPoly {
    let v: Vec<Frac> = coeffs.iter().map(|&(n, d)| frac(n, d)).collect();
    RadialPoly::from_coeffs(v)
}

#[test]
fn radial_poly_cubic_probes() {
    // F(a) = a - 50*a^3: the probes bracketing where monotonicity ends.
    let p = poly(&[(0, 1), (1, 1), (0, 1), (-50, 1)]);
    let f0 = p.polynomial(&frac(0, 1)).unwrap();
    let f1 = p.polynomial(&frac(1, 10)).unwrap();
    let f2 = p.polynomial(&frac(1, 5)).unwrap();
    assert!(f0.eq_val(&frac(0, 1)).unwrap());
    assert!(f1.eq_val(&frac(1, 20)).unwrap()); // 0.05 exactly
    assert!(f2.eq_val(&frac(-1, 5)).unwrap()); // -0.2 exactly
}

#[test]
fn radial_poly_cubic_derivative_probes() {
    // F'(a) = 1 - 150*a^2.
    let p = poly(&[(0, 1), (1, 1), (0, 1), (-50, 1)]);
    let d0 = p.dpolynomial(&frac(0, 1)).unwrap();
    let d1 = p.dpolynomial(&frac(1, 10)).unwrap();
    let d2 = p.dpolynomial(&frac(1, 5)).unwrap();
    assert!(d0.eq_val(&frac(1, 1)).unwrap());
    assert!(d1.eq_val(&frac(-1, 2)).unwrap()); // -0.5 exactly
    assert!(d2.eq_val(&frac(-5, 1)).unwrap()); // -5 exactly
}

#[test]
fn radial_poly_degree_seven_probes() {
    // Coefficients in thousandths: 0.050, 0.975, -0.807, 0.337, -0.065,
    // 0.010, 0.003, -0.001.
    let p = poly(&[
        (50, 1000), (975, 1000), (-807, 1000), (337, 1000),
        (-65, 1000), (10, 1000), (3, 1000), (-1, 1000),
    ]);
    let f0 = p.polynomial(&frac(0, 1)).unwrap();
    let f1 = p.polynomial(&frac(1, 10)).unwrap();
    assert!(f0.eq_val(&frac(50, 1000)).unwrap());
    // 0.1397606029 exactly.
    assert_reduced(&f1, 1397606029, 10_000_000_000);
    let d0 = p.dpolynomial(&frac(0, 1)).unwrap();
    assert!(d0.eq_val(&frac(975, 1000)).unwrap());
    // 0.2153153792 exactly.
    let f2 = p.polynomial(&frac(1, 5)).unwrap();
    assert_reduced(&f2, 8410757, 39062500);
    // The derivative probes: the float literal 0.8234551729999999 of the
    // evaluation at 1/10 encodes round-off; the exact value is
    // 823455173/10^9.  At 1/5 the exact value is 0.690645312.
    let d1 = p.dpolynomial(&frac(1, 10)).unwrap();
    assert_reduced(&d1, 823455173, 1_000_000_000);
    let d2 = p.dpolynomial(&frac(1, 5)).unwrap();
    assert_reduced(&d2, 10791333, 15625000);
}

#[test]
fn derivative_of_constant_is_zero() {
    let p = poly(&[(7, 2)]);
    let d = p.dpolynomial(&frac(5, 3)).unwrap();
    assert!(d.eq_val(&frac(0, 1)).unwrap());
    let e = poly(&[]);
    let d = e.dpolynomial(&frac(5, 3)).unwrap();
    assert!(d.eq_val(&frac(0, 1)).unwrap());
}

#[test]
fn sip_coeff_rejects_non_triangular_lengths() {
    let c4: Vec<mapproj::frac::Frac> = (0..4).map(|_| frac(1, 1)).collect();
    assert!(SipCoeff::new(c4).is_none());
    let c3: Vec<mapproj::frac::Frac> = (0..3).map(|_| frac(1, 1)).collect();
    let s = SipCoeff::new(c3).unwrap();
    assert_eq!(s.order, 2);
    let c10: Vec<mapproj::frac::Frac> = (0..10).map(|_| frac(1, 1)).collect();
    assert_eq!(SipCoeff::new(c10).unwrap().order, 4);
}

#[test]
fn sip_coeff_evaluates_exactly() {
    // Order 2, schedule (0,0), (0,1), (1,0): p(u,v) = 1/2 + 3v + 5u.
    let s = SipCoeff::new(vec![frac(1, 2), frac(3, 1), frac(5, 1)]).unwrap();
    let p = s.p(&frac(2, 1), &frac(1, 4)).unwrap();
    assert!(p.eq_val(&frac(45, 4)).unwrap());
    assert!(s.dpdu(&frac(2, 1), &frac(1, 4)).unwrap().eq_val(&frac(5, 1)).unwrap());
    assert!(s.dpdv(&frac(2, 1), &frac(1, 4)).unwrap().eq_val(&frac(3, 1)).unwrap());
}

#[test]
fn sip_coeff_partials_of_quadratic() {
    // Order 3, schedule (0,0), (0,1), (0,2), (1,0), (1,1), (2,0):
    // p(u,v) = v^2 + 2*u^2.
    let s = SipCoeff::new(vec![
        frac(0, 1), frac(0, 1), frac(1, 1), frac(0, 1), frac(0, 1), frac(2, 1),
    ])
    .unwrap();
    let u = frac(3, 1);
    let v = frac(1, 2);
    assert!(s.p(&u, &v).unwrap().eq_val(&frac(73, 4)).unwrap());
    // dp/du = 4u, dp/dv = 2v.
    assert!(s.dpdu(&u, &v).unwrap().eq_val(&frac(12, 1)).unwrap());
    assert!(s.dpdv(&u, &v).unwrap().eq_val(&frac(1, 1)).unwrap());
}

#[test]
fn bivariate_newton_decisions() {
    // Converged inside the rectangle: accepted.
    let s = Newton2dState::start(20);
    let s = s.step(&Newton2dObs { residual_small: true, in_rect: true });
    assert_eq!(s, Newton2dState::Done { accepted: true });
    // Converged outside the declared rectangle: the inverter refuses.
    let s = Newton2dState::start(20);
    let s = s.step(&Newton2dObs { residual_small: true, in_rect: false });
    assert_eq!(s, Newton2dState::Done { accepted: false });
    // The budget counts down, and exhaustion ends the run.
    let mut s = Newton2dState::start(2);
    s = s.step(&Newton2dObs { residual_small: false, in_rect: true });
    assert_eq!(s, Newton2dState::Iterate { left: 1 });
    s = s.step(&Newton2dObs { residual_small: false, in_rect: true });
    assert_eq!(s, Newton2dState::Iterate { left: 0 });
    s = s.step(&Newton2dObs { residual_small: false, in_rect: true });
    assert_eq!(s, Newton2dState::Done { accepted: true });
    assert!(s.is_done());
}

#[test]
fn radial_poly_empty_is_zero() {
    let p = poly(&[]);
    let f = p.polynomial(&frac(7, 3)).unwrap();
    assert!(f.eq_val(&frac(0, 1)).unwrap());
}

#[test]
fn sip_order_is_triangular_only() {
    assert_eq!(order_from_n_coeff(0), Some(0));
    assert_eq!(order_from_n_coeff(1), Some(1));
    assert_eq!(order_from_n_coeff(3), Some(2));
    assert_eq!(order_from_n_coeff(6), Some(3));
    assert_eq!(order_from_n_coeff(10), Some(4));
    assert_eq!(order_from_n_coeff(2), None);
    assert_eq!(order_from_n_coeff(7), None);
    assert_eq!(order_from_n_coeff(11), None);
}

#[test]
fn sip_exponent_schedule_order_four() {
    // The documented schedule 0_0, 0_1, 0_2, 0_3, 1_0, 1_1, 1_2, 2_0, 2_1,
    // 3_0 of a ten-coefficient polynomial.
    let e = sip_exponents(4);
    assert_eq!(
        e,
        vec![
            (0, 0), (0, 1), (0, 2), (0, 3),
            (1, 0), (1, 1), (1, 2),
            (2, 0), (2, 1),
            (3, 0),
        ]
    );
    assert_eq!(sip_exponents(0), vec![]);
    assert_eq!(sip_exponents(1), vec![(0, 0)]);
}
