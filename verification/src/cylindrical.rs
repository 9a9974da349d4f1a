//! Cylindrical projections whose construction takes no parameter.

use vstd::prelude::*;
use crate::{Basis, BoundRange, BoundVal, ProjBounds};

verus! {

/// Plate Carre projection.
pub struct Car;

impl Car {
    pub fn new() -> (r: Car)
        ensures
            r == (Car {}),
    {
        Car
    }

    /// WCS projection code (3 characters).
    pub fn wcs_name(&self) -> (r: &'static str)
        ensures
            r@ == "CAR"@,
    {
        "CAR"
    }

    /// Full projection name.
    pub fn full_name(&self) -> (r: &'static str)
        ensures
            r@ == "Plate Carre"@,
    {
        "Plate Carre"
    }

    /// Plane domain: `x` in `[-pi, pi]`, `y` in `[-pi/2, pi/2]`.
    pub fn bounds(&self) -> (r: ProjBounds)
        ensures
            r.spec_x() == Some((BoundRange {
                lo: (BoundVal { num: -1i64, den: 1i64, basis: Basis::Pi }),
                hi: (BoundVal { num: 1i64, den: 1i64, basis: Basis::Pi }),
            })),
            r.spec_y() == Some((BoundRange {
                lo: (BoundVal { num: -1i64, den: 2i64, basis: Basis::Pi }),
                hi: (BoundVal { num: 1i64, den: 2i64, basis: Basis::Pi }),
            })),
    {
        ProjBounds::new(
            Some(BoundRange::symmetric(1, 1, Basis::Pi)),
            Some(BoundRange::symmetric(1, 2, Basis::Pi)),
        )
    }
}

impl Default for Car {
    fn default() -> (r: Car)
        ensures
            r == (Car {}),
    {
        Car::new()
    }
}

/// Mercator projection.
pub struct Mer;

impl Mer {
    pub fn new() -> (r: Mer)
        ensures
            r == (Mer {}),
    {
        Mer
    }

    /// WCS projection code (3 characters).
    pub fn wcs_name(&self) -> (r: &'static str)
        ensures
            r@ == "MER"@,
    {
        "MER"
    }

    /// Full projection name.
    pub fn full_name(&self) -> (r: &'static str)
        ensures
            r@ == "Mercator"@,
    {
        "Mercator"
    }

    /// Plane domain: `x` in `[-pi, pi]`, `y` unbounded.
    pub fn bounds(&self) -> (r: ProjBounds)
        ensures
            r.spec_x() == Some((BoundRange {
                lo: (BoundVal { num: -1i64, den: 1i64, basis: Basis::Pi }),
                hi: (BoundVal { num: 1i64, den: 1i64, basis: Basis::Pi }),
            })),
            r.spec_y() is None,
    {
        ProjBounds::new(Some(BoundRange::symmetric(1, 1, Basis::Pi)), None)
    }
}

impl Default for Mer {
    fn default() -> (r: Mer)
        ensures
            r == (Mer {}),
    {
        Mer::new()
    }
}

} // verus!
