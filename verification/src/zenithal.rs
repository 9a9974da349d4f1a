//! Zenithal (azimuthal) projections whose construction takes no parameter.

use vstd::prelude::*;
use crate::{Basis, BoundRange, BoundVal, ProjBounds, ProjXY, XYZ};
use crate::frac::{
    Frac, Rat, rat_add, rat_div, rat_eq, rat_int, rat_mul, rat_sub,
    add_defined, div_defined, mul_defined, sub_defined,
};

verus! {

/// Zenithal (or azimuthal) equidistant projection.
pub struct Arc;

impl Arc {
    pub fn new() -> (r: Arc)
        ensures
            r == (Arc {}),
    {
        Arc
    }

    /// WCS projection code (3 characters).
    pub fn wcs_name(&self) -> (r: &'static str)
        ensures
            r@ == "ARC"@,
    {
        "ARC"
    }

    /// Full projection name.
    pub fn full_name(&self) -> (r: &'static str)
        ensures
            r@ == "Zenithal equidistant"@,
    {
        "Zenithal equidistant"
    }

    /// No declared plane bounds (the valid area is the disc of radius pi).
    pub fn bounds(&self) -> (r: ProjBounds)
        ensures
            r.spec_x() is None,
            r.spec_y() is None,
    {
        ProjBounds::new(None, None)
    }
}

impl Default for Arc {
    fn default() -> (r: Arc)
        ensures
            r == (Arc {}),
    {
        Arc::new()
    }
}

/// Fisheye projection, valid up to 95 degrees from the projection center.
pub struct Feye;

impl Feye {
    pub fn new() -> (r: Feye)
        ensures
            r == (Feye {}),
    {
        Feye
    }

    /// WCS projection code (3 characters).
    pub fn wcs_name(&self) -> (r: &'static str)
        ensures
            r@ == "FEYE"@,
    {
        "FEYE"
    }

    /// Full projection name.
    pub fn full_name(&self) -> (r: &'static str)
        ensures
            r@ == "Fisheye"@,
    {
        "Fisheye"
    }

    /// Plane domain: the square of half-width 95 degrees, i.e. `19*pi/36`.
    pub fn bounds(&self) -> (r: ProjBounds)
        ensures
            r.spec_x() == Some((BoundRange {
                lo: (BoundVal { num: -19i64, den: 36i64, basis: Basis::Pi }),
                hi: (BoundVal { num: 19i64, den: 36i64, basis: Basis::Pi }),
            })),
            r.spec_y() == Some((BoundRange {
                lo: (BoundVal { num: -19i64, den: 36i64, basis: Basis::Pi }),
                hi: (BoundVal { num: 19i64, den: 36i64, basis: Basis::Pi }),
            })),
    {
        ProjBounds::new(
            Some(BoundRange::symmetric(19, 36, Basis::Pi)),
            Some(BoundRange::symmetric(19, 36, Basis::Pi)),
        )
    }
}

impl Default for Feye {
    fn default() -> (r: Feye)
        ensures
            r == (Feye {}),
    {
        Feye::new()
    }
}

/// North Celestial Pole orthographic projection.
pub struct Ncp;

impl Ncp {
    pub fn new() -> (r: Ncp)
        ensures
            r == (Ncp {}),
    {
        Ncp
    }

    /// WCS projection code (3 characters).
    pub fn wcs_name(&self) -> (r: &'static str)
        ensures
            r@ == "NCP"@,
    {
        "NCP"
    }

    /// Full projection name.
    pub fn full_name(&self) -> (r: &'static str)
        ensures
            r@ == "North Celestial Pole orthographic"@,
    {
        "North Celestial Pole orthographic"
    }

    /// Plane domain: the unit square `[-1, 1] x [-1, 1]`.
    pub fn bounds(&self) -> (r: ProjBounds)
        ensures
            r.spec_x() == Some((BoundRange {
                lo: (BoundVal { num: -1i64, den: 1i64, basis: Basis::One }),
                hi: (BoundVal { num: 1i64, den: 1i64, basis: Basis::One }),
            })),
            r.spec_y() == Some((BoundRange {
                lo: (BoundVal { num: -1i64, den: 1i64, basis: Basis::One }),
                hi: (BoundVal { num: 1i64, den: 1i64, basis: Basis::One }),
            })),
    {
        ProjBounds::new(
            Some(BoundRange::symmetric(1, 1, Basis::One)),
            Some(BoundRange::symmetric(1, 1, Basis::One)),
        )
    }

    /// Projects a direction orthographically: `(y, z)`, exactly.  Fails
    /// exactly on the back hemisphere.
    pub fn proj(&self, v: &XYZ) -> (r: Option<ProjXY>)
        requires
            v.wf(),
        ensures
            r is Some <==> v.x >= 0,
            r matches Some(p) ==> p.wf() && p.x.r() == v.ry() && p.y.r() == v.rz(),
    {
        if v.x >= 0 {
            let px = Frac::new(v.y as i128, v.d as i128).unwrap();
            let py = Frac::new(v.z as i128, v.d as i128).unwrap();
            Some(ProjXY::new(px, py))
        } else {
            None
        }
    }
}

impl Default for Ncp {
    fn default() -> (r: Ncp)
        ensures
            r == (Ncp {}),
    {
        Ncp::new()
    }
}

/// Orthographic projection.
pub struct Sin;

impl Sin {
    pub fn new() -> (r: Sin)
        ensures
            r == (Sin {}),
    {
        Sin
    }

    /// WCS projection code (3 characters).
    pub fn wcs_name(&self) -> (r: &'static str)
        ensures
            r@ == "SIN"@,
    {
        "SIN"
    }

    /// Full projection name.
    pub fn full_name(&self) -> (r: &'static str)
        ensures
            r@ == "Orthographic"@,
    {
        "Orthographic"
    }

    /// Plane domain: the unit square `[-1, 1] x [-1, 1]`.
    pub fn bounds(&self) -> (r: ProjBounds)
        ensures
            r.spec_x() == Some((BoundRange {
                lo: (BoundVal { num: -1i64, den: 1i64, basis: Basis::One }),
                hi: (BoundVal { num: 1i64, den: 1i64, basis: Basis::One }),
            })),
            r.spec_y() == Some((BoundRange {
                lo: (BoundVal { num: -1i64, den: 1i64, basis: Basis::One }),
                hi: (BoundVal { num: 1i64, den: 1i64, basis: Basis::One }),
            })),
    {
        ProjBounds::new(
            Some(BoundRange::symmetric(1, 1, Basis::One)),
            Some(BoundRange::symmetric(1, 1, Basis::One)),
        )
    }

    /// Projects a direction orthographically: `(y, z)`, exactly.  Fails
    /// exactly on the back hemisphere.
    pub fn proj(&self, v: &XYZ) -> (r: Option<ProjXY>)
        requires
            v.wf(),
        ensures
            r is Some <==> v.x >= 0,
            r matches Some(p) ==> p.wf() && p.x.r() == v.ry() && p.y.r() == v.rz(),
    {
        if v.x >= 0 {
            let px = Frac::new(v.y as i128, v.d as i128).unwrap();
            let py = Frac::new(v.z as i128, v.d as i128).unwrap();
            Some(ProjXY::new(px, py))
        } else {
            None
        }
    }
}

impl Default for Sin {
    fn default() -> (r: Sin)
        ensures
            r == (Sin {}),
    {
        Sin::new()
    }
}

/// Stereographic projection.
pub struct Stg;

impl Stg {
    pub fn new() -> (r: Stg)
        ensures
            r == (Stg {}),
    {
        Stg
    }

    /// WCS projection code (3 characters).
    pub fn wcs_name(&self) -> (r: &'static str)
        ensures
            r@ == "STG"@,
    {
        "STG"
    }

    /// Full projection name.
    pub fn full_name(&self) -> (r: &'static str)
        ensures
            r@ == "Stereographic"@,
    {
        "Stereographic"
    }

    /// No plane bounds: the whole plane is reached (the opposite pole
    /// diverges to infinity).
    pub fn bounds(&self) -> (r: ProjBounds)
        ensures
            r.spec_x() is None,
            r.spec_y() is None,
    {
        ProjBounds::new(None, None)
    }

    /// Projects a direction stereographically from the opposite pole:
    /// `(y/w, z/w)` with `w = (1 + x)/2`, exactly.  Fails exactly at the
    /// opposite pole itself, where the projection diverges.
    pub fn proj(&self, v: &XYZ) -> (r: Option<ProjXY>)
        requires
            v.wf(),
        ensures
            r is Some <==> v.x > -v.d,
            r matches Some(p) ==> p.wf()
                && rat_eq(p.x.r(), rat_div(rat_mul(rat_int(2), v.ry()),
                    rat_add(rat_int(1), v.rx())))
                && rat_eq(p.y.r(), rat_div(rat_mul(rat_int(2), v.rz()),
                    rat_add(rat_int(1), v.rx()))),
    {
        if v.x > -v.d {
            let w = v.d as i128 + v.x as i128;
            let px = Frac::new(2 * v.y as i128, w).unwrap();
            let py = Frac::new(2 * v.z as i128, w).unwrap();
            proof {
                lemma_stg_ratio(v.y as int, v.x as int, v.d as int);
                lemma_stg_ratio(v.z as int, v.x as int, v.d as int);
            }
            Some(ProjXY::new(px, py))
        } else {
            None
        }
    }

    /// The whole inverse computation stays within the machine range.
    pub open spec fn unproj_defined(self, p: ProjXY) -> bool {
        let x2 = rat_mul(p.x.r(), p.x.r());
        let y2 = rat_mul(p.y.r(), p.y.r());
        let s = rat_add(x2, y2);
        let r = rat_div(s, rat_int(4));
        let w = rat_add(rat_int(1), r);
        let t = rat_sub(rat_int(1), r);
        &&& mul_defined(p.x.r(), p.x.r())
        &&& mul_defined(p.y.r(), p.y.r())
        &&& add_defined(x2, y2)
        &&& div_defined(s, rat_int(4))
        &&& add_defined(rat_int(1), r)
        &&& sub_defined(rat_int(1), r)
        &&& div_defined(t, w)
        &&& div_defined(p.x.r(), w)
        &&& div_defined(p.y.r(), w)
    }

    /// Deprojects a plane point, exactly: with `r = (X^2 + Y^2)/4` and
    /// `w = 1 + r` the direction is `((1 - r)/w, X/w, Y/w)`.  Every plane
    /// point is valid (the whole plane is reached); `None` only when a
    /// machine bound is exceeded.
    pub fn unproj(&self, p: &ProjXY) -> (r: Option<(Frac, Frac, Frac)>)
        requires
            p.wf(),
        ensures
            r is Some <==> self.unproj_defined(*p),
            r matches Some(v) ==> ({
                let s = rat_add(rat_mul(p.x.r(), p.x.r()), rat_mul(p.y.r(), p.y.r()));
                let rr = rat_div(s, rat_int(4));
                let w = rat_add(rat_int(1), rr);
                &&& v.0.wf() && v.1.wf() && v.2.wf()
                &&& v.0.r() == rat_div(rat_sub(rat_int(1), rr), w)
                &&& v.1.r() == rat_div(p.x.r(), w)
                &&& v.2.r() == rat_div(p.y.r(), w)
            }),
    {
        let x2 = p.x.mul(&p.x);
        let y2 = p.y.mul(&p.y);
        let one = Frac::of_int(1);
        let four = Frac::of_int(4);
        match (x2, y2) {
            (Some(x2), Some(y2)) => match x2.add(&y2) {
                Some(s) => match s.div(&four) {
                    Some(rr) => {
                        let w = one.add(&rr);
                        let t = one.sub(&rr);
                        match (w, t) {
                            (Some(w), Some(t)) => {
                                let ux = t.div(&w);
                                let uy = p.x.div(&w);
                                let uz = p.y.div(&w);
                                match (ux, uy, uz) {
                                    (Some(ux), Some(uy), Some(uz)) => Some((ux, uy, uz)),
                                    _ => None,
                                }
                            },
                            _ => None,
                        }
                    },
                    None => None,
                },
                None => None,
            },
            _ => None,
        }
    }

    /// Whether a plane point lies in the valid projection area: for the
    /// stereographic projection the whole plane does, so this holds
    /// exactly where [`Stg::unproj`] returns a direction — validity and
    /// invertibility coincide point by point.
    pub fn is_in_valid_proj_area(&self, p: &ProjXY) -> (r: bool)
        requires
            p.wf(),
        ensures
            r <==> self.unproj_defined(*p),
    {
        self.unproj(p).is_some()
    }
}

impl Default for Stg {
    fn default() -> (r: Stg)
        ensures
            r == (Stg {}),
    {
        Stg::new()
    }
}

/// Gnomonic projection.
pub struct Tan;

impl Tan {
    pub fn new() -> (r: Tan)
        ensures
            r == (Tan {}),
    {
        Tan
    }

    /// WCS projection code (3 characters).
    pub fn wcs_name(&self) -> (r: &'static str)
        ensures
            r@ == "TAN"@,
    {
        "TAN"
    }

    /// Full projection name.
    pub fn full_name(&self) -> (r: &'static str)
        ensures
            r@ == "Gnomonic"@,
    {
        "Gnomonic"
    }

    /// No plane bounds: the front hemisphere maps onto the whole plane.
    pub fn bounds(&self) -> (r: ProjBounds)
        ensures
            r.spec_x() is None,
            r.spec_y() is None,
    {
        ProjBounds::new(None, None)
    }

    /// Projects a direction onto the plane tangent at the reference
    /// direction: `(y/x, z/x)`, exactly.  Fails exactly on the back
    /// hemisphere and its rim, where the gnomonic projection is undefined.
    pub fn proj(&self, v: &XYZ) -> (r: Option<ProjXY>)
        requires
            v.wf(),
        ensures
            r is Some <==> v.x > 0,
            r matches Some(p) ==> p.wf()
                && rat_eq(p.x.r(), rat_div(v.ry(), v.rx()))
                && rat_eq(p.y.r(), rat_div(v.rz(), v.rx())),
    {
        if v.x > 0 {
            let px = Frac::new(v.y as i128, v.x as i128).unwrap();
            let py = Frac::new(v.z as i128, v.x as i128).unwrap();
            proof {
                lemma_ratio_div(v.y as int, v.x as int, v.d as int);
                lemma_ratio_div(v.z as int, v.x as int, v.d as int);
            }
            Some(ProjXY::new(px, py))
        } else {
            None
        }
    }
}

impl Default for Tan {
    fn default() -> (r: Tan)
        ensures
            r == (Tan {}),
    {
        Tan::new()
    }
}

/// Lambert's zenithal (or azimuthal) equal area projection.
pub struct Zea;

impl Zea {
    pub fn new() -> (r: Zea)
        ensures
            r == (Zea {}),
    {
        Zea
    }

    /// WCS projection code (3 characters).
    pub fn wcs_name(&self) -> (r: &'static str)
        ensures
            r@ == "ZEA"@,
    {
        "ZEA"
    }

    /// Full projection name.
    pub fn full_name(&self) -> (r: &'static str)
        ensures
            r@ == "Zenithal equal area"@,
    {
        "Zenithal equal area"
    }

    /// Plane domain: the square `[-2, 2] x [-2, 2]` (the whole sphere maps
    /// into the disc of radius 2).
    pub fn bounds(&self) -> (r: ProjBounds)
        ensures
            r.spec_x() == Some((BoundRange {
                lo: (BoundVal { num: -2i64, den: 1i64, basis: Basis::One }),
                hi: (BoundVal { num: 2i64, den: 1i64, basis: Basis::One }),
            })),
            r.spec_y() == Some((BoundRange {
                lo: (BoundVal { num: -2i64, den: 1i64, basis: Basis::One }),
                hi: (BoundVal { num: 2i64, den: 1i64, basis: Basis::One }),
            })),
    {
        ProjBounds::new(
            Some(BoundRange::symmetric(2, 1, Basis::One)),
            Some(BoundRange::symmetric(2, 1, Basis::One)),
        )
    }
}

impl Default for Zea {
    fn default() -> (r: Zea)
        ensures
            r == (Zea {}),
    {
        Zea::new()
    }
}

/// `y/x` as one fraction equals the quotient of the two scaled components
/// `(y/d) / (x/d)`.
proof fn lemma_ratio_div(y: int, x: int, d: int) by (nonlinear_arith)
    requires
        x > 0,
        d > 0,
    ensures
        rat_eq((Rat { n: y, d: x }), rat_div((Rat { n: y, d }), (Rat { n: x, d }))),
{
}

/// `2y/(d + x)` as one fraction equals `2(y/d) / (1 + x/d)`.
proof fn lemma_stg_ratio(y: int, x: int, d: int) by (nonlinear_arith)
    requires
        x > -d,
        d > 0,
    ensures
        rat_eq(
            (Rat { n: 2 * y, d: d + x }),
            rat_div(rat_mul(rat_int(2), (Rat { n: y, d })),
                rat_add(rat_int(1), (Rat { n: x, d }))),
        ),
{
}



proof fn stg_sq(y: int, e: int)
    ensures
        ((2 * y) * (2 * y)) * (e * e) == (4 * (y * y)) * (e * e),
{
    broadcast use vstd::arithmetic::mul::group_mul_properties;

}

proof fn stg_fourth(e: int)
    ensures
        ((e * e) * (e * e)) * 4 == (4 * (e * e)) * (e * e),
{
    broadcast use vstd::arithmetic::mul::group_mul_properties;

}

proof fn stg_collect_add(p: int, q: int, m: int)
    ensures
        (4 * p) * m + (4 * q) * m == (4 * (p + q)) * m,
{
    broadcast use vstd::arithmetic::mul::group_mul_properties;

}

proof fn stg_collect_sub(p: int, q: int, m: int)
    ensures
        (4 * p) * m - (4 * q) * m == (4 * (p - q)) * m,
{
    broadcast use vstd::arithmetic::mul::group_mul_properties;

}

proof fn stg_diff_squares(x: int, d: int, e: int) by (nonlinear_arith)
    requires
        e == d + x,
    ensures
        d * d - x * x == (d - x) * e,
{
}

proof fn stg_factor_add(e: int, g: int)
    ensures
        e * e + g * e == (e + g) * e,
{
    broadcast use vstd::arithmetic::mul::group_mul_properties;

}

proof fn stg_factor_sub(e: int, g: int)
    ensures
        e * e - g * e == (e - g) * e,
{
    broadcast use vstd::arithmetic::mul::group_mul_properties;

}

proof fn stg_scale_w(d: int, e: int)
    ensures
        (4 * (((2 * d) * e))) * (e * e) == (8 * d) * ((e * e) * e),
{
    broadcast use vstd::arithmetic::mul::group_mul_properties;

}

proof fn stg_pos(d: int, e: int) by (nonlinear_arith)
    requires
        d > 0,
        e > 0,
    ensures
        (8 * d) * ((e * e) * e) > 0,
{
}

/// The cross-multiplied first component of the round trip.
proof fn stg_cross_x(tn: int, wn: int, c: int, x: int, d: int, k: int)
    requires
        tn == (8 * x) * k,
        wn == (8 * d) * k,
    ensures
        (tn * c) * d == x * (c * wn),
{
    broadcast use vstd::arithmetic::mul::group_mul_properties;

}

/// The cross-multiplied tangential components of the round trip.
proof fn stg_cross_yz(y: int, d: int, e: int)
    ensures
        ((2 * y) * (((e * e) * (e * e)) * 4)) * d == y * (e * ((8 * d) * ((e * e) * e))),
{
    broadcast use vstd::arithmetic::mul::group_mul_properties;

}

/// Round trip of the stereographic projection, exactly: for every unit
/// direction `(x/d, y/d, z/d)` off the opposite pole, deprojecting the
/// projected plane point gives back the direction with no error at all.
/// The plane point is `(2y/e, 2z/e)` with `e = d + x`, exactly as
/// [`Stg::proj`] computes it, and the deprojection formulas are those of
/// [`Stg::unproj`].
pub proof fn lemma_stg_round_trip(x: int, y: int, z: int, d: int)
    requires
        d > 0,
        x * x + y * y + z * z == d * d,
        x > -d,
    ensures
        ({
            let e = d + x;
            let fx = Rat { n: 2 * y, d: e };
            let fy = Rat { n: 2 * z, d: e };
            let s = rat_add(rat_mul(fx, fx), rat_mul(fy, fy));
            let rr = rat_div(s, rat_int(4));
            let w = rat_add(rat_int(1), rr);
            &&& rat_eq(rat_div(rat_sub(rat_int(1), rr), w), (Rat { n: x, d }))
            &&& rat_eq(rat_div(fx, w), (Rat { n: y, d }))
            &&& rat_eq(rat_div(fy, w), (Rat { n: z, d }))
        }),
{
    let e = d + x;
    let fx = Rat { n: 2 * y, d: e };
    let fy = Rat { n: 2 * z, d: e };
    let s = rat_add(rat_mul(fx, fx), rat_mul(fy, fy));
    let rr = rat_div(s, rat_int(4));
    let w = rat_add(rat_int(1), rr);
    let t = rat_sub(rat_int(1), rr);
    let k = (e * e) * e;
    let c = ((e * e) * (e * e)) * 4;
    // The numerators of `1 + r` and `1 - r` simplify to `8*d*e^3` and
    // `8*x*e^3` on the unit sphere.
    stg_sq(y, e);
    stg_sq(z, e);
    stg_collect_add(y * y, z * z, e * e);
    stg_fourth(e);
    stg_collect_add(e * e, (y * y) + (z * z), e * e);
    stg_collect_sub(e * e, (y * y) + (z * z), e * e);
    assert((y * y) + (z * z) == d * d - x * x);
    stg_diff_squares(x, d, e);
    stg_factor_add(e, d - x);
    stg_factor_sub(e, d - x);
    assert(e + (d - x) == 2 * d);
    assert(e - (d - x) == 2 * x);
    stg_scale_w(d, e);
    stg_scale_w(x, e);
    assert(w.n == (8 * d) * k);
    assert(t.n == (8 * x) * k);
    assert(w.d == c && t.d == c);
    stg_pos(d, e);
    // First component: `(1 - r)/w == x/d`.
    stg_cross_x(t.n, w.n, c, x, d, k);
    // Tangential components: `fx/w == y/d` and `fy/w == z/d`.
    stg_cross_yz(y, d, e);
    stg_cross_yz(z, d, e);
}

} // verus!
