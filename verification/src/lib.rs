//! Conversions between pixel coordinates, a 2-D projection plane, and
//! directions on the celestial unit sphere, in the spirit of the FITS
//! World Coordinate System (WCS) and its SIP distortion extension.
//!
//! The verified core works on exact values: rational numbers stand for the
//! coordinates, and plane bounds are stated as exact multiples of 1, pi or
//! the square root of 2.  The floating-point evaluation that a renderer
//! needs sits outside this crate; everything here is proved.

use vstd::prelude::*;
use crate::frac::{Frac, Rat};

pub mod frac;
pub mod img2proj;
pub mod solver;
pub mod sip;
pub mod zpn;
pub mod rotation;
pub mod cylindrical;
pub mod pseudocyl;
pub mod zenithal;
pub mod hybrid;

verus! {

/// X, Y coordinates in the 2-D projection plane, as exact rationals.
#[derive(Clone, Copy, Debug)]
pub struct ProjXY {
    pub x: Frac,
    pub y: Frac,
}

impl ProjXY {
    /// Both coordinates are well formed.
    pub open spec fn wf(self) -> bool {
        self.x.wf() && self.y.wf()
    }

    pub fn new(x: Frac, y: Frac) -> (r: ProjXY)
        ensures
            r == (ProjXY { x, y }),
    {
        ProjXY { x, y }
    }

    /// Get the x coordinate.
    pub fn x(&self) -> (r: Frac)
        ensures
            r == self.x,
    {
        self.x
    }

    /// Get the y coordinate.
    pub fn y(&self) -> (r: Frac)
        ensures
            r == self.y,
    {
        self.y
    }
}

/// X, Y pixel coordinates in an image, as exact rationals.
#[derive(Clone, Copy, Debug)]
pub struct ImgXY {
    pub x: Frac,
    pub y: Frac,
}

impl ImgXY {
    /// Both coordinates are well formed.
    pub open spec fn wf(self) -> bool {
        self.x.wf() && self.y.wf()
    }

    pub fn new(x: Frac, y: Frac) -> (r: ImgXY)
        ensures
            r == (ImgXY { x, y }),
    {
        ImgXY { x, y }
    }

    /// Get the x coordinate.
    pub fn x(&self) -> (r: Frac)
        ensures
            r == self.x,
    {
        self.x
    }

    /// Get the y coordinate.
    pub fn y(&self) -> (r: Frac)
        ensures
            r == self.y,
    {
        self.y
    }
}

/// The largest denominator a [`XYZ`] may carry; keeps every product of two
/// components inside the machine range.
pub const MAX_XYZ_DEN: i64 = 1_000_000_000;

/// Euclidean coordinates of a direction on the unit sphere, as exact
/// rationals over a common denominator: the direction is
/// `(x/d, y/d, z/d)`.
///
/// The invariant `x^2 + y^2 + z^2 == d^2` is checked exactly by [`XYZ::new`];
/// it is the unit-norm invariant with no rounding tolerance at all.
#[derive(Clone, Copy, Debug)]
pub struct XYZ {
    pub x: i64,
    pub y: i64,
    pub z: i64,
    pub d: i64,
}

impl XYZ {
    /// Structural well-formedness: positive bounded denominator, components
    /// no larger than it.
    pub open spec fn wf(self) -> bool {
        &&& 0 < self.d <= MAX_XYZ_DEN
        &&& -self.d <= self.x <= self.d
        &&& -self.d <= self.y <= self.d
        &&& -self.d <= self.z <= self.d
    }

    /// The exact unit-norm invariant.
    pub open spec fn is_unit(self) -> bool {
        self.x * self.x + self.y * self.y + self.z * self.z == self.d * self.d
    }

    /// The x component as a ghost rational.
    pub open spec fn rx(self) -> Rat {
        Rat { n: self.x as int, d: self.d as int }
    }

    /// The y component as a ghost rational.
    pub open spec fn ry(self) -> Rat {
        Rat { n: self.y as int, d: self.d as int }
    }

    /// The z component as a ghost rational.
    pub open spec fn rz(self) -> Rat {
        Rat { n: self.z as int, d: self.d as int }
    }

    /// Builds the direction `(x/d, y/d, z/d)`, checking the unit-norm
    /// invariant exactly; fails exactly when the point is off the sphere.
    pub fn new(x: i64, y: i64, z: i64, d: i64) -> (r: Option<XYZ>)
        requires
            0 < d <= MAX_XYZ_DEN,
            -d <= x <= d,
            -d <= y <= d,
            -d <= z <= d,
        ensures
            r is Some <==> x * x + y * y + z * z == d * d,
            r matches Some(v) ==> v == (XYZ { x, y, z, d }) && v.wf() && v.is_unit(),
    {
        proof {
            lemma_mul_bound(x as int, x as int, MAX_XYZ_DEN as int);
            lemma_mul_bound(y as int, y as int, MAX_XYZ_DEN as int);
            lemma_mul_bound(z as int, z as int, MAX_XYZ_DEN as int);
            lemma_mul_bound(d as int, d as int, MAX_XYZ_DEN as int);
        }
        let xx = (x as i128) * (x as i128);
        let yy = (y as i128) * (y as i128);
        let zz = (z as i128) * (z as i128);
        let dd = (d as i128) * (d as i128);
        if xx + yy + zz == dd {
            Some(XYZ { x, y, z, d })
        } else {
            None
        }
    }

    /// The raw components `(x, y, z, d)`.
    pub fn parts(&self) -> (r: (i64, i64, i64, i64))
        ensures
            r == (self.x, self.y, self.z, self.d),
    {
        (self.x, self.y, self.z, self.d)
    }

    /// Get the x coordinate as an exact rational.
    pub fn x(&self) -> (r: Frac)
        requires
            self.wf(),
        ensures
            r.wf(),
            r.r() == self.rx(),
    {
        let f = Frac::new(self.x as i128, self.d as i128);
        f.unwrap()
    }

    /// Get the y coordinate as an exact rational.
    pub fn y(&self) -> (r: Frac)
        requires
            self.wf(),
        ensures
            r.wf(),
            r.r() == self.ry(),
    {
        let f = Frac::new(self.y as i128, self.d as i128);
        f.unwrap()
    }

    /// Get the z coordinate as an exact rational.
    pub fn z(&self) -> (r: Frac)
        requires
            self.wf(),
        ensures
            r.wf(),
            r.r() == self.rz(),
    {
        let f = Frac::new(self.z as i128, self.d as i128);
        f.unwrap()
    }

    /// Exact dot product of this direction with another.
    pub fn scalar(&self, rhs: &XYZ) -> (r: Frac)
        requires
            self.wf(),
            rhs.wf(),
        ensures
            r.wf(),
            r.r() == (Rat {
                n: self.rx().n * rhs.rx().n + self.ry().n * rhs.ry().n + self.rz().n * rhs.rz().n,
                d: self.rx().d * rhs.rx().d,
            }),
    {
        proof {
            lemma_mul_bound(self.x as int, rhs.x as int, MAX_XYZ_DEN as int);
            lemma_mul_bound(self.y as int, rhs.y as int, MAX_XYZ_DEN as int);
            lemma_mul_bound(self.z as int, rhs.z as int, MAX_XYZ_DEN as int);
            lemma_mul_bound(self.d as int, rhs.d as int, MAX_XYZ_DEN as int);
            assert((self.d as int) * (rhs.d as int) > 0) by (nonlinear_arith)
                requires
                    self.d > 0,
                    rhs.d > 0,
            ;
        }
        let n = (self.x as i128) * (rhs.x as i128) + (self.y as i128) * (rhs.y as i128)
            + (self.z as i128) * (rhs.z as i128);
        let d = (self.d as i128) * (rhs.d as i128);
        let f = Frac::new(n, d);
        f.unwrap()
    }
}

/// The irrational (or trivial) factor of an exact bound value.
#[derive(Clone, Copy, PartialEq, Eq, Debug)]
pub enum Basis {
    /// The value is `num / den` itself.
    One,
    /// The value is `(num / den) * pi`.
    Pi,
    /// The value is `(num / den) * sqrt(2)`.
    Sqrt2,
}

/// An exact plane-bound value: `(num / den) * basis`.
///
/// All fixed projection bounds are rational multiples of 1, pi or sqrt(2),
/// so this represents each of them without rounding.
#[derive(Clone, Copy, PartialEq, Eq, Debug)]
pub struct BoundVal {
    pub num: i64,
    pub den: i64,
    pub basis: Basis,
}

impl BoundVal {
    /// A bound value is well formed when its denominator is positive.
    pub open spec fn wf(self) -> bool {
        self.den > 0
    }

    /// Builds `(num / den) * basis`.
    pub fn of(num: i64, den: i64, basis: Basis) -> (r: BoundVal)
        requires
            den > 0,
        ensures
            r == (BoundVal { num, den, basis }),
            r.wf(),
    {
        BoundVal { num, den, basis }
    }
}

/// An inclusive range of exact bound values.
#[derive(Clone, Copy, PartialEq, Eq, Debug)]
pub struct BoundRange {
    pub lo: BoundVal,
    pub hi: BoundVal,
}

impl BoundRange {
    /// The symmetric range `[-(num/den)*basis, (num/den)*basis]`.
    pub fn symmetric(num: i64, den: i64, basis: Basis) -> (r: BoundRange)
        requires
            den > 0,
            num > i64::MIN,
        ensures
            r.lo.num == -num && r.lo.den == den && r.lo.basis == basis,
            r.hi.num == num && r.hi.den == den && r.hi.basis == basis,
            r.lo.wf(),
            r.hi.wf(),
    {
        BoundRange {
            lo: BoundVal { num: -num, den, basis },
            hi: BoundVal { num, den, basis },
        }
    }
}

/// The X and Y bounds of a projection in the Euclidean projection plane.
/// `None` means the projection is unbounded along that axis.
#[derive(Clone, Copy, PartialEq, Eq, Debug)]
pub struct ProjBounds {
    x: Option<BoundRange>,
    y: Option<BoundRange>,
}

impl ProjBounds {
    /// The range along the x-axis, `None` meaning unbounded.
    pub closed spec fn spec_x(self) -> Option<BoundRange> {
        self.x
    }

    /// The range along the y-axis, `None` meaning unbounded.
    pub closed spec fn spec_y(self) -> Option<BoundRange> {
        self.y
    }

    /// Creates a new pair of projection bounds.
    pub fn new(x: Option<BoundRange>, y: Option<BoundRange>) -> (r: ProjBounds)
        ensures
            r.spec_x() == x,
            r.spec_y() == y,
    {
        ProjBounds { x, y }
    }

    /// Returns the bounds of the projection along the x-axis.
    pub fn x_bounds(&self) -> (r: &Option<BoundRange>)
        ensures
            *r == self.spec_x(),
    {
        &self.x
    }

    /// Returns the bounds of the projection along the y-axis.
    pub fn y_bounds(&self) -> (r: &Option<BoundRange>)
        ensures
            *r == self.spec_y(),
    {
        &self.y
    }
}

/// Bound on a product of two bounded integers.
proof fn lemma_mul_bound(a: int, b: int, m: int) by (nonlinear_arith)
    requires
        0 <= m,
        -m <= a <= m,
        -m <= b <= m,
    ensures
        -(m * m) <= a * b <= m * m,
{
}

} // verus!
