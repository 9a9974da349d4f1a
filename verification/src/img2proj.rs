//! Conversion between pixel coordinates in an image and coordinates in the
//! projection plane: a translation by the reference pixel followed by a
//! 2 x 2 linear map, both exact.
//!
//! The three FITS conventions (`CDij`; `PCij` with per-axis `CDELTi`;
//! `CROTA2` with per-axis `CDELTi`) normalize to the same internal form
//! `plane = CD * (pixel - CRPIX)`.  The `CROTA2` convention needs a sine and
//! a cosine, which are not rational; it is left to the caller, who hands in
//! the resulting `CD` entries.
//!
//! The inverse goes through the adjugate over the determinant; a zero
//! determinant is refused at construction time, never at call time.  The
//! round trip is proved exact: [`lemma_wcs_round_trip`].

use vstd::prelude::*;
use crate::{ImgXY, ProjXY};
use crate::frac::{
    Frac, Rat, rat_add, rat_div, rat_eq, rat_mul, rat_neg, rat_sub, rat_wf,
    add_defined, div_defined, mul_defined, sub_defined,
};

verus! {

/// The determinant of the linear part, `cd11*cd22 - cd12*cd21`.
pub open spec fn spec_det(cd11: Rat, cd12: Rat, cd21: Rat, cd22: Rat) -> Rat {
    rat_sub(rat_mul(cd11, cd22), rat_mul(cd12, cd21))
}

/// First coordinate of the forward map: `cd11*(px - t1) + cd12*(py - t2)`.
pub open spec fn spec_fwd_x(cd11: Rat, cd12: Rat, t1: Rat, t2: Rat, px: Rat, py: Rat) -> Rat {
    rat_add(rat_mul(cd11, rat_sub(px, t1)), rat_mul(cd12, rat_sub(py, t2)))
}

/// First coordinate of the backward map: `icd11*x + icd12*y + t1`.
pub open spec fn spec_bwd_x(icd11: Rat, icd12: Rat, t1: Rat, x: Rat, y: Rat) -> Rat {
    rat_add(rat_add(rat_mul(icd11, x), rat_mul(icd12, y)), t1)
}

/// Transforms pixel coordinates into projection-plane coordinates, under
/// the FITS WCS conventions.
#[derive(Clone, Copy, Debug)]
pub struct WcsImgXY2ProjXY {
    /// Reference-pixel translation (`CRPIX`), in pixel units.
    pub crpix1: Frac,
    pub crpix2: Frac,
    /// Linear map (`CD`), in the map's angular unit per pixel.
    pub cd11: Frac,
    pub cd12: Frac,
    pub cd21: Frac,
    pub cd22: Frac,
}

/// Transforms projection-plane coordinates back into pixel coordinates.
#[derive(Clone, Copy, Debug)]
pub struct WcsProjXY2ImgXY {
    /// Reference-pixel translation (`CRPIX`), in pixel units.
    pub crpix1: Frac,
    pub crpix2: Frac,
    /// The inverted linear map, `CD^-1`.
    pub icd11: Frac,
    pub icd12: Frac,
    pub icd21: Frac,
    pub icd22: Frac,
}

impl WcsImgXY2ProjXY {
    /// All entries are well formed.
    pub open spec fn wf(self) -> bool {
        &&& self.crpix1.wf()
        &&& self.crpix2.wf()
        &&& self.cd11.wf()
        &&& self.cd12.wf()
        &&& self.cd21.wf()
        &&& self.cd22.wf()
    }

    /// The determinant of this map's linear part.
    pub open spec fn det(self) -> Rat {
        spec_det(self.cd11.r(), self.cd12.r(), self.cd21.r(), self.cd22.r())
    }

    /// The determinant computation stays within the machine range.
    pub open spec fn det_defined(self) -> bool {
        &&& mul_defined(self.cd11.r(), self.cd22.r())
        &&& mul_defined(self.cd12.r(), self.cd21.r())
        &&& sub_defined(rat_mul(self.cd11.r(), self.cd22.r()), rat_mul(self.cd12.r(), self.cd21.r()))
    }

    /// Creates the map from the `CDij` convention.  Fails exactly when the
    /// determinant is zero (a degenerate configuration) or its computation
    /// leaves the machine range.
    pub fn from_cd(
        crpix1: Frac,
        crpix2: Frac,
        cd11: Frac,
        cd12: Frac,
        cd21: Frac,
        cd22: Frac,
    ) -> (r: Option<WcsImgXY2ProjXY>)
        requires
            crpix1.wf(),
            crpix2.wf(),
            cd11.wf(),
            cd12.wf(),
            cd21.wf(),
            cd22.wf(),
        ensures
            r matches Some(m) ==> m == (WcsImgXY2ProjXY { crpix1, crpix2, cd11, cd12, cd21, cd22 })
                && m.wf() && m.det().n != 0,
            r is Some <==> spec_det(cd11.r(), cd12.r(), cd21.r(), cd22.r()).n != 0
                && mul_defined(cd11.r(), cd22.r()) && mul_defined(cd12.r(), cd21.r())
                && sub_defined(rat_mul(cd11.r(), cd22.r()), rat_mul(cd12.r(), cd21.r())),
    {
        let p = cd11.mul(&cd22);
        let q = cd12.mul(&cd21);
        match (p, q) {
            (Some(p), Some(q)) => match p.sub(&q) {
                Some(det) => {
                    if det.num() != 0 {
                        Some(WcsImgXY2ProjXY { crpix1, crpix2, cd11, cd12, cd21, cd22 })
                    } else {
                        None
                    }
                },
                None => None,
            },
            _ => None,
        }
    }

    /// Creates the map from the `PCij` + `CDELTi` convention:
    /// `cd1j = cdelt1 * pc1j`, `cd2j = cdelt2 * pc2j`.
    pub fn from_pc(
        crpix1: Frac,
        crpix2: Frac,
        pc11: Frac,
        pc12: Frac,
        pc21: Frac,
        pc22: Frac,
        cdelt1: Frac,
        cdelt2: Frac,
    ) -> (r: Option<WcsImgXY2ProjXY>)
        requires
            crpix1.wf(),
            crpix2.wf(),
            pc11.wf(),
            pc12.wf(),
            pc21.wf(),
            pc22.wf(),
            cdelt1.wf(),
            cdelt2.wf(),
        ensures
            r matches Some(m) ==> m.wf() && m.det().n != 0
                && m.crpix1 == crpix1 && m.crpix2 == crpix2
                && m.cd11.r() == rat_mul(cdelt1.r(), pc11.r())
                && m.cd12.r() == rat_mul(cdelt1.r(), pc12.r())
                && m.cd21.r() == rat_mul(cdelt2.r(), pc21.r())
                && m.cd22.r() == rat_mul(cdelt2.r(), pc22.r()),
            r is Some <==> ({
                let a = rat_mul(cdelt1.r(), pc11.r());
                let b = rat_mul(cdelt1.r(), pc12.r());
                let c = rat_mul(cdelt2.r(), pc21.r());
                let e = rat_mul(cdelt2.r(), pc22.r());
                &&& mul_defined(cdelt1.r(), pc11.r())
                &&& mul_defined(cdelt1.r(), pc12.r())
                &&& mul_defined(cdelt2.r(), pc21.r())
                &&& mul_defined(cdelt2.r(), pc22.r())
                &&& mul_defined(a, e)
                &&& mul_defined(b, c)
                &&& sub_defined(rat_mul(a, e), rat_mul(b, c))
                &&& spec_det(a, b, c, e).n != 0
            }),
    {
        let a = cdelt1.mul(&pc11);
        let b = cdelt1.mul(&pc12);
        let c = cdelt2.mul(&pc21);
        let d = cdelt2.mul(&pc22);
        match (a, b, c, d) {
            (Some(a), Some(b), Some(c), Some(d)) => {
                WcsImgXY2ProjXY::from_cd(crpix1, crpix2, a, b, c, d)
            },
            _ => None,
        }
    }

    /// The whole forward computation stays within the machine range.
    pub open spec fn fwd_defined(self, xy: ImgXY) -> bool {
        let u = rat_sub(xy.x.r(), self.crpix1.r());
        let v = rat_sub(xy.y.r(), self.crpix2.r());
        &&& sub_defined(xy.x.r(), self.crpix1.r())
        &&& sub_defined(xy.y.r(), self.crpix2.r())
        &&& mul_defined(self.cd11.r(), u)
        &&& mul_defined(self.cd12.r(), v)
        &&& add_defined(rat_mul(self.cd11.r(), u), rat_mul(self.cd12.r(), v))
        &&& mul_defined(self.cd21.r(), u)
        &&& mul_defined(self.cd22.r(), v)
        &&& add_defined(rat_mul(self.cd21.r(), u), rat_mul(self.cd22.r(), v))
    }

    /// Transforms pixel coordinates to projection-plane coordinates:
    /// a translation by `CRPIX`, then the linear map `CD`; exact.
    pub fn img2proj(&self, xy: &ImgXY) -> (r: Option<ProjXY>)
        requires
            self.wf(),
            xy.wf(),
        ensures
            r matches Some(p) ==> p.wf()
                && p.x.r() == spec_fwd_x(self.cd11.r(), self.cd12.r(), self.crpix1.r(),
                    self.crpix2.r(), xy.x.r(), xy.y.r())
                && p.y.r() == spec_fwd_x(self.cd21.r(), self.cd22.r(), self.crpix1.r(),
                    self.crpix2.r(), xy.x.r(), xy.y.r()),
            r is Some <==> self.fwd_defined(*xy),
    {
        let u = xy.x.sub(&self.crpix1);
        let v = xy.y.sub(&self.crpix2);
        match (u, v) {
            (Some(u), Some(v)) => {
                let ax = self.cd11.mul(&u);
                let bx = self.cd12.mul(&v);
                let ay = self.cd21.mul(&u);
                let by = self.cd22.mul(&v);
                match (ax, bx, ay, by) {
                    (Some(ax), Some(bx), Some(ay), Some(by)) => {
                        let px = ax.add(&bx);
                        let py = ay.add(&by);
                        match (px, py) {
                            (Some(px), Some(py)) => Some(ProjXY::new(px, py)),
                            _ => None,
                        }
                    },
                    _ => None,
                }
            },
            _ => None,
        }
    }

    /// The whole inversion stays within the machine range.
    pub open spec fn inv_defined(self) -> bool {
        let det = self.det();
        &&& self.det_defined()
        &&& det.n != 0
        &&& div_defined(self.cd22.r(), det)
        &&& self.cd12.r().n > i128::MIN
        &&& div_defined(rat_neg(self.cd12.r()), det)
        &&& self.cd21.r().n > i128::MIN
        &&& div_defined(rat_neg(self.cd21.r()), det)
        &&& div_defined(self.cd11.r(), det)
    }

    /// Provides the exact inverse transformation, through the adjugate over
    /// the determinant.  Fails exactly when the determinant is zero or a
    /// machine bound is exceeded.
    pub fn inverse(&self) -> (r: Option<WcsProjXY2ImgXY>)
        requires
            self.wf(),
        ensures
            r matches Some(w) ==> w.wf()
                && w.crpix1 == self.crpix1 && w.crpix2 == self.crpix2
                && w.icd11.r() == rat_div(self.cd22.r(), self.det())
                && w.icd12.r() == rat_div(rat_neg(self.cd12.r()), self.det())
                && w.icd21.r() == rat_div(rat_neg(self.cd21.r()), self.det())
                && w.icd22.r() == rat_div(self.cd11.r(), self.det()),
            r is Some <==> self.inv_defined(),
    {
        let p = self.cd11.mul(&self.cd22);
        let q = self.cd12.mul(&self.cd21);
        match (p, q) {
            (Some(p), Some(q)) => match p.sub(&q) {
                Some(det) => {
                    let ncd12 = self.cd12.neg();
                    let ncd21 = self.cd21.neg();
                    match (ncd12, ncd21) {
                        (Some(ncd12), Some(ncd21)) => {
                            let i11 = self.cd22.div(&det);
                            let i12 = ncd12.div(&det);
                            let i21 = ncd21.div(&det);
                            let i22 = self.cd11.div(&det);
                            match (i11, i12, i21, i22) {
                                (Some(i11), Some(i12), Some(i21), Some(i22)) => {
                                    Some(WcsProjXY2ImgXY {
                                        crpix1: self.crpix1,
                                        crpix2: self.crpix2,
                                        icd11: i11,
                                        icd12: i12,
                                        icd21: i21,
                                        icd22: i22,
                                    })
                                },
                                _ => None,
                            }
                        },
                        _ => None,
                    }
                },
                None => None,
            },
            _ => None,
        }
    }
}

impl WcsProjXY2ImgXY {
    /// All entries are well formed.
    pub open spec fn wf(self) -> bool {
        &&& self.crpix1.wf()
        &&& self.crpix2.wf()
        &&& self.icd11.wf()
        &&& self.icd12.wf()
        &&& self.icd21.wf()
        &&& self.icd22.wf()
    }

    /// The whole backward computation stays within the machine range.
    pub open spec fn bwd_defined(self, xy: ProjXY) -> bool {
        let sx = rat_add(rat_mul(self.icd11.r(), xy.x.r()), rat_mul(self.icd12.r(), xy.y.r()));
        let sy = rat_add(rat_mul(self.icd21.r(), xy.x.r()), rat_mul(self.icd22.r(), xy.y.r()));
        &&& mul_defined(self.icd11.r(), xy.x.r())
        &&& mul_defined(self.icd12.r(), xy.y.r())
        &&& add_defined(rat_mul(self.icd11.r(), xy.x.r()), rat_mul(self.icd12.r(), xy.y.r()))
        &&& add_defined(sx, self.crpix1.r())
        &&& mul_defined(self.icd21.r(), xy.x.r())
        &&& mul_defined(self.icd22.r(), xy.y.r())
        &&& add_defined(rat_mul(self.icd21.r(), xy.x.r()), rat_mul(self.icd22.r(), xy.y.r()))
        &&& add_defined(sy, self.crpix2.r())
    }

    /// Transforms projection-plane coordinates back to pixel coordinates:
    /// the inverted linear map, then the translation back by `CRPIX`; exact.
    pub fn proj2img(&self, xy: &ProjXY) -> (r: Option<ImgXY>)
        requires
            self.wf(),
            xy.wf(),
        ensures
            r matches Some(p) ==> p.wf()
                && p.x.r() == spec_bwd_x(self.icd11.r(), self.icd12.r(), self.crpix1.r(),
                    xy.x.r(), xy.y.r())
                && p.y.r() == spec_bwd_x(self.icd21.r(), self.icd22.r(), self.crpix2.r(),
                    xy.x.r(), xy.y.r()),
            r is Some <==> self.bwd_defined(*xy),
    {
        let ax = self.icd11.mul(&xy.x);
        let bx = self.icd12.mul(&xy.y);
        let ay = self.icd21.mul(&xy.x);
        let by = self.icd22.mul(&xy.y);
        match (ax, bx, ay, by) {
            (Some(ax), Some(bx), Some(ay), Some(by)) => {
                let sx = ax.add(&bx);
                let sy = ay.add(&by);
                match (sx, sy) {
                    (Some(sx), Some(sy)) => {
                        let px = sx.add(&self.crpix1);
                        let py = sy.add(&self.crpix2);
                        match (px, py) {
                            (Some(px), Some(py)) => Some(ImgXY::new(px, py)),
                            _ => None,
                        }
                    },
                    _ => None,
                }
            },
            _ => None,
        }
    }
}

// ---------------------------------------------------------------------------
// The exact round-trip theorem.
//
// The rational identities below are proved over plain integers first, with
// the numerators and denominators of every rational spelled out; the
// products are reordered through the multiplication properties of vstd.
// ---------------------------------------------------------------------------

proof fn step_distr_fx(en: int, p: int, q: int, rx: int)
    ensures
        (en * (p + q)) * rx == en * p * rx + en * q * rx,
{
    broadcast use vstd::arithmetic::mul::group_mul_properties;

}

proof fn step_row1_keep(
    an: int, bd: int, cdd: int, en: int, ed: int, un: int, ud: int, vd: int,
)
    ensures
        en * ((an * un) * (bd * vd)) * (bd * ((cdd * ud) * (ed * vd)))
            == ((an * en) * (bd * cdd)) * (ud * vd * vd * bd * ed) * un,
{
    broadcast use vstd::arithmetic::mul::group_mul_properties;

}

proof fn step_row1_cancel(
    ad: int, bn: int, bd: int, cdd: int, en: int, ed: int, ud: int, vn: int, vd: int,
)
    ensures
        en * ((bn * vn) * (ad * ud)) * (bd * ((cdd * ud) * (ed * vd)))
            == bn * ((en * vn) * (cdd * ud)) * (ed * ((ad * ud) * (bd * vd))),
{
    broadcast use vstd::arithmetic::mul::group_mul_properties;

}

proof fn step_row1_drop(
    ad: int, bn: int, bd: int, cn: int, ed: int, un: int, ud: int, vd: int,
)
    ensures
        bn * ((cn * un) * (ed * vd)) * (ed * ((ad * ud) * (bd * vd)))
            == ((bn * cn) * (ad * ed)) * (ud * vd * vd * bd * ed) * un,
{
    broadcast use vstd::arithmetic::mul::group_mul_properties;

}

proof fn step_distr_det(p: int, q: int, k: int, un: int)
    ensures
        (p - q) * k * un == p * k * un - q * k * un,
{
    broadcast use vstd::arithmetic::mul::group_mul_properties;

}

proof fn step_row1_den(
    ad: int, bd: int, cdd: int, ed: int, ud: int, vd: int, k: int,
)
    requires
        k == ud * vd * vd * bd * ed,
    ensures
        (ed * ((ad * ud) * (bd * vd))) * (bd * ((cdd * ud) * (ed * vd)))
            == ((ad * ed) * (bd * cdd)) * k * ud,
{
    broadcast use vstd::arithmetic::mul::group_mul_properties;

}

proof fn step_cross(sn: int, sd: int, dn: int, dd: int, k: int, un: int, ud: int)
    requires
        sn == dn * k * un,
        sd == dd * k * ud,
    ensures
        sn * (dd * ud) == (dn * un) * sd,
{
    broadcast use vstd::arithmetic::mul::group_mul_properties;

}

/// The first adjugate row applied to the forward image of `(u, v)` gives
/// back `det * u`, exactly:
/// `cd22*(cd11*u + cd12*v) - cd12*(cd21*u + cd22*v) == det * u`.
proof fn lemma_adjugate_row1(cd11: Rat, cd12: Rat, cd21: Rat, cd22: Rat, u: Rat, v: Rat)
    ensures
        rat_eq(
            rat_sub(
                rat_mul(cd22, rat_add(rat_mul(cd11, u), rat_mul(cd12, v))),
                rat_mul(cd12, rat_add(rat_mul(cd21, u), rat_mul(cd22, v))),
            ),
            rat_mul(spec_det(cd11, cd12, cd21, cd22), u),
        ),
{
    let an = cd11.n;
    let ad = cd11.d;
    let bn = cd12.n;
    let bd = cd12.d;
    let cn = cd21.n;
    let cdd = cd21.d;
    let en = cd22.n;
    let ed = cd22.d;
    let un = u.n;
    let ud = u.d;
    let vn = v.n;
    let vd = v.d;
    let k = ud * vd * vd * bd * ed;
    let fxn = (an * un) * (bd * vd) + (bn * vn) * (ad * ud);
    let fxd = (ad * ud) * (bd * vd);
    let fyn = (cn * un) * (ed * vd) + (en * vn) * (cdd * ud);
    let fyd = (cdd * ud) * (ed * vd);
    step_distr_fx(en, (an * un) * (bd * vd), (bn * vn) * (ad * ud), bd * fyd);
    step_distr_fx(bn, (cn * un) * (ed * vd), (en * vn) * (cdd * ud), ed * fxd);
    step_row1_keep(an, bd, cdd, en, ed, un, ud, vd);
    step_row1_cancel(ad, bn, bd, cdd, en, ed, ud, vn, vd);
    step_row1_drop(ad, bn, bd, cn, ed, un, ud, vd);
    step_distr_det((an * en) * (bd * cdd), (bn * cn) * (ad * ed), k, un);
    let sn = (en * fxn) * (bd * fyd) - (bn * fyn) * (ed * fxd);
    let sd = (ed * fxd) * (bd * fyd);
    let dn = (an * en) * (bd * cdd) - (bn * cn) * (ad * ed);
    let dd = (ad * ed) * (bd * cdd);
    assert(sn == dn * k * un);
    step_row1_den(ad, bd, cdd, ed, ud, vd, k);
    step_cross(sn, sd, dn, dd, k, un, ud);
}

proof fn step_row2_keep(
    an: int, ad: int, bd: int, cdd: int, en: int, ud: int, vn: int, vd: int,
)
    ensures
        an * ((en * vn) * (cdd * ud)) * (cdd * ((ad * ud) * (bd * vd)))
            == ((an * en) * (bd * cdd)) * (ud * ud * vd * ad * cdd) * vn,
{
    broadcast use vstd::arithmetic::mul::group_mul_properties;

}

proof fn step_row2_cancel(
    an: int, ad: int, bd: int, cn: int, cdd: int, ed: int, un: int, ud: int, vd: int,
)
    ensures
        an * ((cn * un) * (ed * vd)) * (cdd * ((ad * ud) * (bd * vd)))
            == cn * ((an * un) * (bd * vd)) * (ad * ((cdd * ud) * (ed * vd))),
{
    broadcast use vstd::arithmetic::mul::group_mul_properties;

}

proof fn step_row2_drop(
    ad: int, bn: int, bd: int, cn: int, cdd: int, ed: int, ud: int, vn: int, vd: int,
)
    ensures
        cn * ((bn * vn) * (ad * ud)) * (ad * ((cdd * ud) * (ed * vd)))
            == ((bn * cn) * (ad * ed)) * (ud * ud * vd * ad * cdd) * vn,
{
    broadcast use vstd::arithmetic::mul::group_mul_properties;

}

proof fn step_row2_den(
    ad: int, bd: int, cdd: int, ed: int, ud: int, vd: int, k: int,
)
    requires
        k == ud * ud * vd * ad * cdd,
    ensures
        (ad * ((cdd * ud) * (ed * vd))) * (cdd * ((ad * ud) * (bd * vd)))
            == ((ad * ed) * (bd * cdd)) * k * vd,
{
    broadcast use vstd::arithmetic::mul::group_mul_properties;

}

/// The second adjugate row applied to the forward image of `(u, v)` gives
/// back `det * v`, exactly:
/// `cd11*(cd21*u + cd22*v) - cd21*(cd11*u + cd12*v) == det * v`.
proof fn lemma_adjugate_row2(cd11: Rat, cd12: Rat, cd21: Rat, cd22: Rat, u: Rat, v: Rat)
    ensures
        rat_eq(
            rat_sub(
                rat_mul(cd11, rat_add(rat_mul(cd21, u), rat_mul(cd22, v))),
                rat_mul(cd21, rat_add(rat_mul(cd11, u), rat_mul(cd12, v))),
            ),
            rat_mul(spec_det(cd11, cd12, cd21, cd22), v),
        ),
{
    let an = cd11.n;
    let ad = cd11.d;
    let bn = cd12.n;
    let bd = cd12.d;
    let cn = cd21.n;
    let cdd = cd21.d;
    let en = cd22.n;
    let ed = cd22.d;
    let un = u.n;
    let ud = u.d;
    let vn = v.n;
    let vd = v.d;
    let k = ud * ud * vd * ad * cdd;
    let fxn = (an * un) * (bd * vd) + (bn * vn) * (ad * ud);
    let fxd = (ad * ud) * (bd * vd);
    let fyn = (cn * un) * (ed * vd) + (en * vn) * (cdd * ud);
    let fyd = (cdd * ud) * (ed * vd);
    step_distr_fx(an, (cn * un) * (ed * vd), (en * vn) * (cdd * ud), cdd * fxd);
    step_distr_fx(cn, (an * un) * (bd * vd), (bn * vn) * (ad * ud), ad * fyd);
    step_row2_keep(an, ad, bd, cdd, en, ud, vn, vd);
    step_row2_cancel(an, ad, bd, cn, cdd, ed, un, ud, vd);
    step_row2_drop(ad, bn, bd, cn, cdd, ed, ud, vn, vd);
    step_distr_det((an * en) * (bd * cdd), (bn * cn) * (ad * ed), k, vn);
    let sn = (an * fyn) * (cdd * fxd) - (cn * fxn) * (ad * fyd);
    let sd = (ad * fyd) * (cdd * fxd);
    let dn = (an * en) * (bd * cdd) - (bn * cn) * (ad * ed);
    let dd = (ad * ed) * (bd * cdd);
    assert(sn == dn * k * vn);
    step_row2_den(ad, bd, cdd, ed, ud, vd, k);
    step_cross(sn, sd, dn, dd, k, vn, vd);
}


proof fn step_b1(pn: int, dd: int, fxn: int, qd: int, dn: int, fyd: int)
    ensures
        ((pn * dd) * fxn) * ((qd * dn) * fyd) == (dd * dn) * ((pn * fxn) * (qd * fyd)),
{
    broadcast use vstd::arithmetic::mul::group_mul_properties;

}

proof fn step_b2(qn: int, dd: int, fyn: int, pd: int, dn: int, fxd: int)
    ensures
        (((-qn) * dd) * fyn) * ((pd * dn) * fxd) == -((dd * dn) * ((qn * fyn) * (pd * fxd))),
{
    broadcast use vstd::arithmetic::mul::group_mul_properties;

}

proof fn step_b3(c: int, x: int, y: int)
    ensures
        c * (x - y) == c * x - c * y,
{
    broadcast use vstd::arithmetic::mul::group_mul_properties;

}

proof fn step_b4(pd: int, dn: int, fxd: int, qd: int, fyd: int)
    ensures
        ((pd * dn) * fxd) * ((qd * dn) * fyd) == (dn * dn) * ((pd * fxd) * (qd * fyd)),
{
    broadcast use vstd::arithmetic::mul::group_mul_properties;

}

proof fn step_b5(dn: int, sn: int, dd: int, ud: int)
    ensures
        dn * (sn * (dd * ud)) == ((dd * dn) * sn) * ud,
{
    broadcast use vstd::arithmetic::mul::group_mul_properties;

}

proof fn step_b6(dn: int, un: int, sd: int)
    ensures
        dn * ((dn * un) * sd) == un * ((dn * dn) * sd),
{
    broadcast use vstd::arithmetic::mul::group_mul_properties;

}

proof fn step_bridge_row(
    pn: int, pd: int, qn: int, qd: int,
    fxn: int, fxd: int, fyn: int, fyd: int,
    dn: int, dd: int, un: int, ud: int, sn: int, sd: int,
)
    requires
        sn == (pn * fxn) * (qd * fyd) - (qn * fyn) * (pd * fxd),
        sd == (pd * fxd) * (qd * fyd),
        sn * (dd * ud) == (dn * un) * sd,
    ensures
        (((pn * dd) * fxn) * ((qd * dn) * fyd) + (((-qn) * dd) * fyn) * ((pd * dn) * fxd)) * ud
            == un * (((pd * dn) * fxd) * ((qd * dn) * fyd)),
{
    step_b1(pn, dd, fxn, qd, dn, fyd);
    step_b2(qn, dd, fyn, pd, dn, fxd);
    step_b3(dd * dn, (pn * fxn) * (qd * fyd), (qn * fyn) * (pd * fxd));
    step_b4(pd, dn, fxd, qd, fyd);
    step_b5(dn, sn, dd, ud);
    step_b6(dn, un, sd);
    assert(((pn * dd) * fxn) * ((qd * dn) * fyd) + (((-qn) * dd) * fyn) * ((pd * dn) * fxd)
        == (dd * dn) * sn);
    assert(dn * (sn * (dd * ud)) == dn * ((dn * un) * sd));
}

/// The flipped form of the scaled equality, for a negative determinant.
proof fn step_flip_signs(sn: int, sd: int, dn: int, dd: int, un: int, ud: int)
    requires
        sn * (dd * ud) == (dn * un) * sd,
    ensures
        sn * ((-dd) * ud) == ((-dn) * un) * sd,
{
    broadcast use vstd::arithmetic::mul::group_mul_properties;

}


proof fn step_mul_comm(x: int, y: int)
    ensures
        x * y == y * x,
{
    broadcast use vstd::arithmetic::mul::group_mul_properties;

}

proof fn step_add_cong(an: int, ad: int, bn: int, bd: int, tn: int, td: int)
    requires
        an * bd == bn * ad,
    ensures
        (an * td + tn * ad) * (bd * td) == (bn * td + tn * bd) * (ad * td),
{
    broadcast use vstd::arithmetic::mul::group_mul_properties;

}

proof fn step_sub_add(pn: int, pd: int, tn: int, td: int)
    ensures
        ((pn * td - tn * pd) * td + tn * (pd * td)) * pd == pn * ((pd * td) * td),
{
    broadcast use vstd::arithmetic::mul::group_mul_properties;

}

/// Exact equality is a congruence for adding the same translation.
proof fn lemma_add_cong_rat(a: Rat, b: Rat, t: Rat)
    requires
        rat_eq(a, b),
    ensures
        rat_eq(rat_add(a, t), rat_add(b, t)),
{
    step_add_cong(a.n, a.d, b.n, b.d, t.n, t.d);
}

/// Subtracting and adding back the same translation is exact identity.
proof fn lemma_sub_add_rat(p: Rat, t: Rat)
    ensures
        rat_eq(rat_add(rat_sub(p, t), t), p),
{
    step_sub_add(p.n, p.d, t.n, t.d);
}

/// Applying the first row of the inverted matrix to the forward image gives
/// back exactly `u = px - t1`.
proof fn lemma_bwd_row1(cd11: Rat, cd12: Rat, cd21: Rat, cd22: Rat, u: Rat, v: Rat)
    requires
        spec_det(cd11, cd12, cd21, cd22).n != 0,
    ensures
        rat_eq(
            rat_add(
                rat_mul(
                    rat_div(cd22, spec_det(cd11, cd12, cd21, cd22)),
                    rat_add(rat_mul(cd11, u), rat_mul(cd12, v)),
                ),
                rat_mul(
                    rat_div(rat_neg(cd12), spec_det(cd11, cd12, cd21, cd22)),
                    rat_add(rat_mul(cd21, u), rat_mul(cd22, v)),
                ),
            ),
            u,
        ),
{
    let det = spec_det(cd11, cd12, cd21, cd22);
    let fx = rat_add(rat_mul(cd11, u), rat_mul(cd12, v));
    let fy = rat_add(rat_mul(cd21, u), rat_mul(cd22, v));
    let s = rat_sub(rat_mul(cd22, fx), rat_mul(cd12, fy));
    lemma_adjugate_row1(cd11, cd12, cd21, cd22, u, v);
    if det.n > 0 {
        step_bridge_row(
            cd22.n, cd22.d, cd12.n, cd12.d,
            fx.n, fx.d, fy.n, fy.d,
            det.n, det.d, u.n, u.d, s.n, s.d,
        );
    } else {
        step_flip_signs(s.n, s.d, det.n, det.d, u.n, u.d);
        step_bridge_row(
            cd22.n, cd22.d, cd12.n, cd12.d,
            fx.n, fx.d, fy.n, fy.d,
            -det.n, -det.d, u.n, u.d, s.n, s.d,
        );
    }
}

/// Applying the second row of the inverted matrix to the forward image
/// gives back exactly `v = py - t2`.
proof fn lemma_bwd_row2(cd11: Rat, cd12: Rat, cd21: Rat, cd22: Rat, u: Rat, v: Rat)
    requires
        spec_det(cd11, cd12, cd21, cd22).n != 0,
    ensures
        rat_eq(
            rat_add(
                rat_mul(
                    rat_div(rat_neg(cd21), spec_det(cd11, cd12, cd21, cd22)),
                    rat_add(rat_mul(cd11, u), rat_mul(cd12, v)),
                ),
                rat_mul(
                    rat_div(cd11, spec_det(cd11, cd12, cd21, cd22)),
                    rat_add(rat_mul(cd21, u), rat_mul(cd22, v)),
                ),
            ),
            v,
        ),
{
    let det = spec_det(cd11, cd12, cd21, cd22);
    let fx = rat_add(rat_mul(cd11, u), rat_mul(cd12, v));
    let fy = rat_add(rat_mul(cd21, u), rat_mul(cd22, v));
    let s = rat_sub(rat_mul(cd11, fy), rat_mul(cd21, fx));
    lemma_adjugate_row2(cd11, cd12, cd21, cd22, u, v);
    if det.n > 0 {
        step_bridge_row(
            cd11.n, cd11.d, cd21.n, cd21.d,
            fy.n, fy.d, fx.n, fx.d,
            det.n, det.d, v.n, v.d, s.n, s.d,
        );
        step_mul_comm((cd21.d * det.n) * fx.d, (cd11.d * det.n) * fy.d);
    } else {
        step_flip_signs(s.n, s.d, det.n, det.d, v.n, v.d);
        step_bridge_row(
            cd11.n, cd11.d, cd21.n, cd21.d,
            fy.n, fy.d, fx.n, fx.d,
            -det.n, -det.d, v.n, v.d, s.n, s.d,
        );
        step_mul_comm((cd21.d * -det.n) * fx.d, (cd11.d * -det.n) * fy.d);
    }
}

/// The pixel-to-plane-to-pixel round trip is exact.
///
/// For every linear map with nonzero determinant, every reference pixel and
/// every pixel position `(px, py)`: applying the forward map [`spec_fwd_x`]
/// for both axes and then the backward map [`spec_bwd_x`] built from the
/// adjugate-over-determinant entries (the entries [`WcsImgXY2ProjXY::inverse`]
/// computes) gives back exactly `(px, py)` — with no tolerance.
pub proof fn lemma_wcs_round_trip(
    cd11: Rat,
    cd12: Rat,
    cd21: Rat,
    cd22: Rat,
    t1: Rat,
    t2: Rat,
    px: Rat,
    py: Rat,
)
    requires
        rat_wf(cd11),
        rat_wf(cd12),
        rat_wf(cd21),
        rat_wf(cd22),
        rat_wf(t1),
        rat_wf(t2),
        rat_wf(px),
        rat_wf(py),
        spec_det(cd11, cd12, cd21, cd22).n != 0,
    ensures
        rat_eq(
            spec_bwd_x(
                rat_div(cd22, spec_det(cd11, cd12, cd21, cd22)),
                rat_div(rat_neg(cd12), spec_det(cd11, cd12, cd21, cd22)),
                t1,
                spec_fwd_x(cd11, cd12, t1, t2, px, py),
                spec_fwd_x(cd21, cd22, t1, t2, px, py),
            ),
            px,
        ),
        rat_eq(
            spec_bwd_x(
                rat_div(rat_neg(cd21), spec_det(cd11, cd12, cd21, cd22)),
                rat_div(cd11, spec_det(cd11, cd12, cd21, cd22)),
                t2,
                spec_fwd_x(cd11, cd12, t1, t2, px, py),
                spec_fwd_x(cd21, cd22, t1, t2, px, py),
            ),
            py,
        ),
{
    let det = spec_det(cd11, cd12, cd21, cd22);
    let u = rat_sub(px, t1);
    let v = rat_sub(py, t2);
    let fx = spec_fwd_x(cd11, cd12, t1, t2, px, py);
    let fy = spec_fwd_x(cd21, cd22, t1, t2, px, py);
    let l1 = rat_add(
        rat_mul(rat_div(cd22, det), fx),
        rat_mul(rat_div(rat_neg(cd12), det), fy),
    );
    let l2 = rat_add(
        rat_mul(rat_div(rat_neg(cd21), det), fx),
        rat_mul(rat_div(cd11, det), fy),
    );
    lemma_bwd_row1(cd11, cd12, cd21, cd22, u, v);
    lemma_bwd_row2(cd11, cd12, cd21, cd22, u, v);
    lemma_add_cong_rat(l1, u, t1);
    lemma_add_cong_rat(l2, v, t2);
    lemma_sub_add_rat(px, t1);
    lemma_sub_add_rat(py, t2);
    crate::frac::lemma_sub_wf(px, t1);
    crate::frac::lemma_sub_wf(py, t2);
    crate::frac::lemma_add_wf(u, t1);
    crate::frac::lemma_add_wf(v, t2);
    crate::frac::lemma_rat_eq_trans(rat_add(l1, t1), rat_add(u, t1), px);
    crate::frac::lemma_rat_eq_trans(rat_add(l2, t2), rat_add(v, t2), py);
}

} // verus!
