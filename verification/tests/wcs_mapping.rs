//! The pixel/plane mapping: the three construction conventions, the
//! degenerate-determinant refusal, and the exact round trip.

use mapproj::frac::Frac;
use mapproj::img2proj::WcsImgXY2ProjXY;
use mapproj::ImgXY;

fn frac(n: i128, d: i128) -> Frac {
    Frac::new(n, d).unwrap()
}

#[test]
fn wcs_from_cd_rejects_degenerate() {
    // Rows proportional: determinant zero, a construction-time error.
    let r = WcsImgXY2ProjXY::from_cd(
        frac(0, 1), frac(0, 1),
        frac(1, 2), frac(1, 3),
        frac(3, 2), frac(1, 1),
    );
    assert!(r.is_none());
    let r = WcsImgXY2ProjXY::from_cd(
        frac(0, 1), frac(0, 1),
        frac(2, 1), frac(0, 1),
        frac(0, 1), frac(2, 1),
    );
    assert!(r.is_some());
}

#[test]
fn wcs_forward_is_exact() {
    // plane = CD * (pixel - CRPIX), with CD = diag(2) and CRPIX = (3, 4).
    let m = WcsImgXY2ProjXY::from_cd(
        frac(3, 1), frac(4, 1),
        frac(2, 1), frac(0, 1),
        frac(0, 1), frac(2, 1),
    )
    .unwrap();
    let p = m.img2proj(&ImgXY::new(frac(5, 1), frac(10, 1))).unwrap();
    assert!(p.x().eq_val(&frac(4, 1)).unwrap());
    assert!(p.y().eq_val(&frac(12, 1)).unwrap());
}

#[test]
fn wcs_round_trip_is_exact() {
    // A full, non-diagonal linear part with translation; forward then
    // backward returns the pixel exactly, with no tolerance.
    let m = WcsImgXY2ProjXY::from_cd(
        frac(3, 1), frac(4, 1),
        frac(2, 1), frac(1, 2),
        frac(-1, 3), frac(1, 1),
    )
    .unwrap();
    let inv = m.inverse().unwrap();
    let pix = ImgXY::new(frac(7, 2), frac(-9, 5));
    let plane = m.img2proj(&pix).unwrap();
    let back = inv.proj2img(&plane).unwrap();
    assert!(back.x().eq_val(&pix.x()).unwrap());
    assert!(back.y().eq_val(&pix.y()).unwrap());
}

#[test]
fn wcs_from_pc_multiplies_cdelt() {
    // cd1j = cdelt1 * pc1j, cd2j = cdelt2 * pc2j.
    let m = WcsImgXY2ProjXY::from_pc(
        frac(0, 1), frac(0, 1),
        frac(1, 1), frac(1, 2),
        frac(-1, 2), frac(1, 1),
        frac(3, 1), frac(5, 1),
    )
    .unwrap();
    assert!(m.cd11.eq_val(&frac(3, 1)).unwrap());
    assert!(m.cd12.eq_val(&frac(3, 2)).unwrap());
    assert!(m.cd21.eq_val(&frac(-5, 2)).unwrap());
    assert!(m.cd22.eq_val(&frac(5, 1)).unwrap());
}
