//! Hybrid projections whose construction takes no parameter.

use vstd::prelude::*;
use crate::{Basis, BoundRange, BoundVal, ProjBounds};

verus! {

/// HEALPix projection (the K=3, H=4 HPX hybrid of the cylindrical
/// equal-area and Collignon projections).
pub struct Hpx;

impl Hpx {
    pub fn new() -> (r: Hpx)
        ensures
            r == (Hpx {}),
    {
        Hpx
    }

    /// WCS projection code (3 characters).
    pub fn wcs_name(&self) -> (r: &'static str)
        ensures
            r@ == "HPX"@,
    {
        "HPX"
    }

    /// Full projection name.
    pub fn full_name(&self) -> (r: &'static str)
        ensures
            r@ == "HEALPix"@,
    {
        "HEALPix"
    }

    /// Plane domain: `x` in `[-pi, pi]`, `y` in `[-pi/2, pi/2]`.
    pub fn bounds(&self) -> (r: ProjBounds)
        ensures
            r.spec_x() == Some((BoundRange {
                lo: (BoundVal { num: -1i64, den: 1i64, basis: Basis::Pi }),
                hi: (BoundVal { num: 1i64, den: 1i64, basis: Basis::Pi }),
            })),
            r.spec_y() == Some((BoundRange {
                lo: (BoundVal { num: -1i64, den: 2i64, basis: Basis::Pi }),
                hi: (BoundVal { num: 1i64, den: 2i64, basis: Basis::Pi }),
            })),
    {
        ProjBounds::new(
            Some(BoundRange::symmetric(1, 1, Basis::Pi)),
            Some(BoundRange::symmetric(1, 2, Basis::Pi)),
        )
    }
}

impl Default for Hpx {
    fn default() -> (r: Hpx)
        ensures
            r == (Hpx {}),
    {
        Hpx::new()
    }
}

} // verus!
