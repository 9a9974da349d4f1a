//! The projection catalog's exact surface: names, plane bounds, the exact
//! zenithal forward formulas, and the recentering rotation.

use mapproj::cylindrical::{Car, Mer};
use mapproj::frac::Frac;
use mapproj::hybrid::Hpx;
use mapproj::pseudocyl::{Ait, Par, Sfl};
use mapproj::rotation::RotationMatrix;
use mapproj::zenithal::{Arc, Feye, Ncp, Sin, Stg, Tan, Zea};
use mapproj::{Basis, BoundVal, XYZ};

fn frac(n: i128, d: i128) -> Frac {
    Frac::new(n, d).unwrap()
}

#[test]
fn wcs_codes_are_three_characters() {
    assert_eq!(Car::new().wcs_name(), "CAR");
    assert_eq!(Mer::new().wcs_name(), "MER");
    assert_eq!(Hpx::new().wcs_name(), "HPX");
    assert_eq!(Ait::new().wcs_name(), "AIT");
    assert_eq!(Par::new().wcs_name(), "PAR");
    assert_eq!(Sfl::new().wcs_name(), "SFL");
    assert_eq!(Arc::new().wcs_name(), "ARC");
    assert_eq!(Feye::new().wcs_name(), "FEYE");
    assert_eq!(Ncp::new().wcs_name(), "NCP");
    assert_eq!(Sin::new().wcs_name(), "SIN");
    assert_eq!(Stg::new().wcs_name(), "STG");
    assert_eq!(Tan::new().wcs_name(), "TAN");
    assert_eq!(Zea::new().wcs_name(), "ZEA");
    assert_eq!(Tan::default().full_name(), "Gnomonic");
}

#[test]
fn plate_carree_bounds_are_pi_and_half_pi() {
    let b = Car::new().bounds();
    let x = b.x_bounds().unwrap();
    assert_eq!(x.hi, BoundVal { num: 1, den: 1, basis: Basis::Pi });
    assert_eq!(x.lo, BoundVal { num: -1, den: 1, basis: Basis::Pi });
    let y = b.y_bounds().unwrap();
    assert_eq!(y.hi, BoundVal { num: 1, den: 2, basis: Basis::Pi });
    assert_eq!(Mer::new().bounds().y_bounds(), &None);
}

#[test]
fn aitoff_and_fisheye_bounds() {
    let b = Ait::new().bounds();
    assert_eq!(
        b.x_bounds().unwrap().hi,
        BoundVal { num: 2, den: 1, basis: Basis::Sqrt2 }
    );
    assert_eq!(
        b.y_bounds().unwrap().hi,
        BoundVal { num: 1, den: 1, basis: Basis::Sqrt2 }
    );
    // 95 degrees = 19*pi/36.
    let f = Feye::new().bounds();
    assert_eq!(
        f.x_bounds().unwrap().hi,
        BoundVal { num: 19, den: 36, basis: Basis::Pi }
    );
    assert_eq!(
        Zea::new().bounds().x_bounds().unwrap().hi,
        BoundVal { num: 2, den: 1, basis: Basis::One }
    );
}

#[test]
fn unit_vector_constructor_checks_the_sphere() {
    assert!(XYZ::new(3, 4, 0, 5).is_some());
    assert!(XYZ::new(1, 1, 1, 2).is_none());
    assert!(XYZ::new(1, 0, 0, 1).is_some());
    let v = XYZ::new(3, 0, 4, 5).unwrap();
    let w = XYZ::new(0, 5, 0, 5).unwrap();
    // Orthogonal directions have dot product zero.
    assert_eq!(v.scalar(&w).num(), 0);
}

#[test]
fn gnomonic_projects_reference_direction_to_origin() {
    // The closed-form oracle: the reference direction maps to (0, 0).
    let v = XYZ::new(1, 0, 0, 1).unwrap();
    let p = Tan::new().proj(&v).unwrap();
    assert!(p.x().eq_val(&frac(0, 1)).unwrap());
    assert!(p.y().eq_val(&frac(0, 1)).unwrap());
    // The back hemisphere is refused.
    let b = XYZ::new(-3, 4, 0, 5).unwrap();
    assert!(Tan::new().proj(&b).is_none());
    // A slanted direction: (3/5, 4/5, 0) maps to (4/3, 0).
    let s = XYZ::new(3, 4, 0, 5).unwrap();
    let p = Tan::new().proj(&s).unwrap();
    assert!(p.x().eq_val(&frac(4, 3)).unwrap());
    assert!(p.y().eq_val(&frac(0, 1)).unwrap());
}

#[test]
fn orthographic_drops_the_first_component() {
    let v = XYZ::new(0, 3, 4, 5).unwrap();
    let p = Sin::new().proj(&v).unwrap();
    assert!(p.x().eq_val(&frac(3, 5)).unwrap());
    assert!(p.y().eq_val(&frac(4, 5)).unwrap());
    let b = XYZ::new(-1, 0, 0, 1).unwrap();
    assert!(Sin::new().proj(&b).is_none());
    assert!(Ncp::new().proj(&v).is_some());
}

#[test]
fn stereographic_exact_values() {
    // (3/5, 4/5, 0) maps to (2*(4/5)/(1+3/5), 0) = (1, 0).
    let v = XYZ::new(3, 4, 0, 5).unwrap();
    let p = Stg::new().proj(&v).unwrap();
    assert!(p.x().eq_val(&frac(1, 1)).unwrap());
    assert!(p.y().eq_val(&frac(0, 1)).unwrap());
    // The opposite pole diverges.
    let b = XYZ::new(-1, 0, 0, 1).unwrap();
    assert!(Stg::new().proj(&b).is_none());
}

#[test]
fn stereographic_round_trip_is_exact() {
    // proj (3/5, 4/5, 0) = (1, 0); unproj (1, 0) returns the direction
    // with no error at all.
    let v = XYZ::new(3, 4, 0, 5).unwrap();
    let stg = Stg::new();
    let p = stg.proj(&v).unwrap();
    assert!(stg.is_in_valid_proj_area(&p));
    let (ux, uy, uz) = stg.unproj(&p).unwrap();
    assert!(ux.eq_val(&frac(3, 5)).unwrap());
    assert!(uy.eq_val(&frac(4, 5)).unwrap());
    assert!(uz.eq_val(&frac(0, 1)).unwrap());
}

#[test]
fn identity_rotation_changes_nothing() {
    let v = XYZ::new(3, 4, 0, 5).unwrap();
    let m = RotationMatrix::identity();
    let (x, y, z) = m.apply(&v);
    assert!(x.eq_val(&frac(3, 5)).unwrap());
    assert!(y.eq_val(&frac(4, 5)).unwrap());
    assert!(z.eq_val(&frac(0, 1)).unwrap());
    assert_eq!(m.transpose(), m);
}

#[test]
fn rotation_constructor_checks_orthonormality() {
    // A rotation by the (3, 4, 5) angle in the xy plane, scaled by 5.
    let m = RotationMatrix::new(3, -4, 0, 4, 3, 0, 0, 0, 5, 5);
    assert!(m.is_some());
    let m = m.unwrap();
    let v = XYZ::new(1, 0, 0, 1).unwrap();
    let (x, y, z) = m.apply(&v);
    assert!(x.eq_val(&frac(3, 5)).unwrap());
    assert!(y.eq_val(&frac(4, 5)).unwrap());
    assert!(z.eq_val(&frac(0, 1)).unwrap());
    // The same entries with one sign broken are not orthonormal.
    assert!(RotationMatrix::new(3, 4, 0, 4, 3, 0, 0, 0, 5, 5).is_none());
}

#[test]
fn rotation_transpose_inverts_exactly() {
    // Applying a rotation and then its transpose returns the direction.
    let m = RotationMatrix::new(3, -4, 0, 4, 3, 0, 0, 0, 5, 5).unwrap();
    let v = XYZ::new(0, 3, 4, 5).unwrap();
    let (x, y, _z) = m.apply(&v);
    // w = ((-12)/25, 9/25, 4/5); feed it back through the transpose by hand:
    // t row 1 = (3, 4, 0)/5: (3*(-12) + 4*9)/125 = 0/125 = v.x.
    let t = m.transpose();
    let tx = frac(t.r11 as i128, t.d as i128).mul(&x).unwrap()
        .add(&frac(t.r12 as i128, t.d as i128).mul(&y).unwrap()).unwrap();
    assert!(tx.eq_val(&frac(0, 1)).unwrap());
}
