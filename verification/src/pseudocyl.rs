//! Pseudocylindrical projections whose construction takes no parameter.
//!
//! Pseudocylindrical projections are like cylindrical projections except
//! that the parallels of latitude are projected at diminishing lengths
//! towards the polar regions.

use vstd::prelude::*;
use crate::{Basis, BoundRange, BoundVal, ProjBounds};

verus! {

/// Hammer-Aitoff projection.
pub struct Ait;

impl Ait {
    pub fn new() -> (r: Ait)
        ensures
            r == (Ait {}),
    {
        Ait
    }

    /// WCS projection code (3 characters).
    pub fn wcs_name(&self) -> (r: &'static str)
        ensures
            r@ == "AIT"@,
    {
        "AIT"
    }

    /// Full projection name.
    pub fn full_name(&self) -> (r: &'static str)
        ensures
            r@ == "Hammer-Aitoff"@,
    {
        "Hammer-Aitoff"
    }

    /// Plane domain: `x` in `[-2*sqrt(2), 2*sqrt(2)]`, `y` in `[-sqrt(2), sqrt(2)]`.
    pub fn bounds(&self) -> (r: ProjBounds)
        ensures
            r.spec_x() == Some((BoundRange {
                lo: (BoundVal { num: -2i64, den: 1i64, basis: Basis::Sqrt2 }),
                hi: (BoundVal { num: 2i64, den: 1i64, basis: Basis::Sqrt2 }),
            })),
            r.spec_y() == Some((BoundRange {
                lo: (BoundVal { num: -1i64, den: 1i64, basis: Basis::Sqrt2 }),
                hi: (BoundVal { num: 1i64, den: 1i64, basis: Basis::Sqrt2 }),
            })),
    {
        ProjBounds::new(
            Some(BoundRange::symmetric(2, 1, Basis::Sqrt2)),
            Some(BoundRange::symmetric(1, 1, Basis::Sqrt2)),
        )
    }
}

impl Default for Ait {
    fn default() -> (r: Ait)
        ensures
            r == (Ait {}),
    {
        Ait::new()
    }
}

/// Parabolic (Craster) projection.
pub struct Par;

impl Par {
    pub fn new() -> (r: Par)
        ensures
            r == (Par {}),
    {
        Par
    }

    /// WCS projection code (3 characters).
    pub fn wcs_name(&self) -> (r: &'static str)
        ensures
            r@ == "PAR"@,
    {
        "PAR"
    }

    /// Full projection name.
    pub fn full_name(&self) -> (r: &'static str)
        ensures
            r@ == "Parabolic"@,
    {
        "Parabolic"
    }

    /// Plane domain: `x` in `[-pi, pi]`, `y` in `[-1/2, 1/2]`.
    pub fn bounds(&self) -> (r: ProjBounds)
        ensures
            r.spec_x() == Some((BoundRange {
                lo: (BoundVal { num: -1i64, den: 1i64, basis: Basis::Pi }),
                hi: (BoundVal { num: 1i64, den: 1i64, basis: Basis::Pi }),
            })),
            r.spec_y() == Some((BoundRange {
                lo: (BoundVal { num: -1i64, den: 2i64, basis: Basis::One }),
                hi: (BoundVal { num: 1i64, den: 2i64, basis: Basis::One }),
            })),
    {
        ProjBounds::new(
            Some(BoundRange::symmetric(1, 1, Basis::Pi)),
            Some(BoundRange::symmetric(1, 2, Basis::One)),
        )
    }
}

impl Default for Par {
    fn default() -> (r: Par)
        ensures
            r == (Par {}),
    {
        Par::new()
    }
}

/// Sanson-Flamsteed projection.
pub struct Sfl;

impl Sfl {
    pub fn new() -> (r: Sfl)
        ensures
            r == (Sfl {}),
    {
        Sfl
    }

    /// WCS projection code (3 characters).
    pub fn wcs_name(&self) -> (r: &'static str)
        ensures
            r@ == "SFL"@,
    {
        "SFL"
    }

    /// Full projection name.
    pub fn full_name(&self) -> (r: &'static str)
        ensures
            r@ == "Sanson-Flamsteed"@,
    {
        "Sanson-Flamsteed"
    }

    /// Plane domain: `x` in `[-pi, pi]`, `y` in `[-pi/2, pi/2]`.
    pub fn bounds(&self) -> (r: ProjBounds)
        ensures
            r.spec_x() == Some((BoundRange {
                lo: (BoundVal { num: -1i64, den: 1i64, basis: Basis::Pi }),
                hi: (BoundVal { num: 1i64, den: 1i64, basis: Basis::Pi }),
            })),
            r.spec_y() == Some((BoundRange {
                lo: (BoundVal { num: -1i64, den: 2i64, basis: Basis::Pi }),
                hi: (BoundVal { num: 1i64, den: 2i64, basis: Basis::Pi }),
            })),
    {
        ProjBounds::new(
            Some(BoundRange::symmetric(1, 1, Basis::Pi)),
            Some(BoundRange::symmetric(1, 2, Basis::Pi)),
        )
    }
}

impl Default for Sfl {
    fn default() -> (r: Sfl)
        ensures
            r == (Sfl {}),
    {
        Sfl::new()
    }
}

} // verus!
