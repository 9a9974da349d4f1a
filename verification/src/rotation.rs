//! The recentering rotation of a canonical projection.
//!
//! A canonical projection is centered on the reference direction; to center
//! it anywhere else, every direction is rotated by an orthonormal 3 x 3
//! matrix before the forward call, and by its transpose after the inverse
//! call.  The matrix built from a center's sine and cosine values is not
//! rational, so this model carries exact entries over a common denominator
//! (the identity, and every matrix a caller certifies through
//! [`RotationMatrix::new`]); what is proved is the algebra the design rests
//! on: the identity rotation changes nothing
//! ([`lemma_identity_rotation`]), and for an orthonormal matrix the
//! transpose really is the inverse, so no explicit matrix inversion is ever
//! needed ([`lemma_transpose_inverts`]).

use vstd::prelude::*;
use crate::{MAX_XYZ_DEN, XYZ};
use crate::frac::{Frac, Rat, rat_eq};

verus! {

/// An exact 3 x 3 rotation matrix: the entry at row `i`, column `j` is
/// `r_ij / d`.
#[derive(Clone, Copy, PartialEq, Eq, Structural, Debug)]
pub struct RotationMatrix {
    pub r11: i64,
    pub r12: i64,
    pub r13: i64,
    pub r21: i64,
    pub r22: i64,
    pub r23: i64,
    pub r31: i64,
    pub r32: i64,
    pub r33: i64,
    pub d: i64,
}

/// The exact identity rotation.
pub open spec fn spec_identity() -> RotationMatrix {
    RotationMatrix {
        r11: 1, r12: 0, r13: 0,
        r21: 0, r22: 1, r23: 0,
        r31: 0, r32: 0, r33: 1,
        d: 1,
    }
}

impl RotationMatrix {
    /// Bounded entries over a positive bounded common denominator.
    pub open spec fn wf(self) -> bool {
        &&& 0 < self.d <= MAX_XYZ_DEN
        &&& -self.d <= self.r11 <= self.d
        &&& -self.d <= self.r12 <= self.d
        &&& -self.d <= self.r13 <= self.d
        &&& -self.d <= self.r21 <= self.d
        &&& -self.d <= self.r22 <= self.d
        &&& -self.d <= self.r23 <= self.d
        &&& -self.d <= self.r31 <= self.d
        &&& -self.d <= self.r32 <= self.d
        &&& -self.d <= self.r33 <= self.d
    }

    /// Exact orthonormality: the rows, and so the columns, are unit vectors
    /// and mutually orthogonal; scaled by `d^2` this is integer arithmetic.
    pub open spec fn is_orthonormal(self) -> bool {
        // Columns.
        &&& self.r11 * self.r11 + self.r21 * self.r21 + self.r31 * self.r31 == self.d * self.d
        &&& self.r12 * self.r12 + self.r22 * self.r22 + self.r32 * self.r32 == self.d * self.d
        &&& self.r13 * self.r13 + self.r23 * self.r23 + self.r33 * self.r33 == self.d * self.d
        &&& self.r11 * self.r12 + self.r21 * self.r22 + self.r31 * self.r32 == 0
        &&& self.r11 * self.r13 + self.r21 * self.r23 + self.r31 * self.r33 == 0
        &&& self.r12 * self.r13 + self.r22 * self.r23 + self.r32 * self.r33 == 0
        // Rows.
        &&& self.r11 * self.r11 + self.r12 * self.r12 + self.r13 * self.r13 == self.d * self.d
        &&& self.r21 * self.r21 + self.r22 * self.r22 + self.r23 * self.r23 == self.d * self.d
        &&& self.r31 * self.r31 + self.r32 * self.r32 + self.r33 * self.r33 == self.d * self.d
        &&& self.r11 * self.r21 + self.r12 * self.r22 + self.r13 * self.r23 == 0
        &&& self.r11 * self.r31 + self.r12 * self.r32 + self.r13 * self.r33 == 0
        &&& self.r21 * self.r31 + self.r22 * self.r32 + self.r23 * self.r33 == 0
    }

    /// The x component of this matrix applied to `v`, as a ghost rational.
    pub open spec fn spec_apply_x(self, v: XYZ) -> Rat {
        Rat { n: self.r11 * v.x + self.r12 * v.y + self.r13 * v.z, d: self.d * v.d }
    }

    /// The y component of this matrix applied to `v`, as a ghost rational.
    pub open spec fn spec_apply_y(self, v: XYZ) -> Rat {
        Rat { n: self.r21 * v.x + self.r22 * v.y + self.r23 * v.z, d: self.d * v.d }
    }

    /// The z component of this matrix applied to `v`, as a ghost rational.
    pub open spec fn spec_apply_z(self, v: XYZ) -> Rat {
        Rat { n: self.r31 * v.x + self.r32 * v.y + self.r33 * v.z, d: self.d * v.d }
    }

    /// The identity rotation, the default center of a canonical projection.
    pub fn identity() -> (r: RotationMatrix)
        ensures
            r == spec_identity(),
            r.wf(),
            r.is_orthonormal(),
    {
        RotationMatrix {
            r11: 1, r12: 0, r13: 0,
            r21: 0, r22: 1, r23: 0,
            r31: 0, r32: 0, r33: 1,
            d: 1,
        }
    }

    /// Builds a rotation from its scaled entries, checking exact
    /// orthonormality; fails exactly when the rows or columns are not
    /// orthonormal.
    pub fn new(
        r11: i64, r12: i64, r13: i64,
        r21: i64, r22: i64, r23: i64,
        r31: i64, r32: i64, r33: i64,
        d: i64,
    ) -> (r: Option<RotationMatrix>)
        requires
            0 < d <= MAX_XYZ_DEN,
            -d <= r11 <= d, -d <= r12 <= d, -d <= r13 <= d,
            -d <= r21 <= d, -d <= r22 <= d, -d <= r23 <= d,
            -d <= r31 <= d, -d <= r32 <= d, -d <= r33 <= d,
        ensures
            r matches Some(m) ==> m == (RotationMatrix {
                r11, r12, r13, r21, r22, r23, r31, r32, r33, d,
            }) && m.wf() && m.is_orthonormal(),
            r is Some <==> (RotationMatrix {
                r11, r12, r13, r21, r22, r23, r31, r32, r33, d,
            }).is_orthonormal(),
    {
        let m = RotationMatrix { r11, r12, r13, r21, r22, r23, r31, r32, r33, d };
        let ok = dot3(r11, r21, r31, r11, r21, r31, d) == dot3(d, 0, 0, d, 0, 0, d)
            && dot3(r12, r22, r32, r12, r22, r32, d) == dot3(d, 0, 0, d, 0, 0, d)
            && dot3(r13, r23, r33, r13, r23, r33, d) == dot3(d, 0, 0, d, 0, 0, d)
            && dot3(r11, r21, r31, r12, r22, r32, d) == 0
            && dot3(r11, r21, r31, r13, r23, r33, d) == 0
            && dot3(r12, r22, r32, r13, r23, r33, d) == 0
            && dot3(r11, r12, r13, r11, r12, r13, d) == dot3(d, 0, 0, d, 0, 0, d)
            && dot3(r21, r22, r23, r21, r22, r23, d) == dot3(d, 0, 0, d, 0, 0, d)
            && dot3(r31, r32, r33, r31, r32, r33, d) == dot3(d, 0, 0, d, 0, 0, d)
            && dot3(r11, r12, r13, r21, r22, r23, d) == 0
            && dot3(r11, r12, r13, r31, r32, r33, d) == 0
            && dot3(r21, r22, r23, r31, r32, r33, d) == 0;
        if ok {
            Some(m)
        } else {
            None
        }
    }

    /// The transpose, which for an orthonormal rotation is its inverse.
    pub fn transpose(&self) -> (r: RotationMatrix)
        ensures
            r == (RotationMatrix {
                r11: self.r11, r12: self.r21, r13: self.r31,
                r21: self.r12, r22: self.r22, r23: self.r32,
                r31: self.r13, r32: self.r23, r33: self.r33,
                d: self.d,
            }),
    {
        RotationMatrix {
            r11: self.r11, r12: self.r21, r13: self.r31,
            r21: self.r12, r22: self.r22, r23: self.r32,
            r31: self.r13, r32: self.r23, r33: self.r33,
            d: self.d,
        }
    }

    /// Applies the rotation to a direction, exactly: each component is the
    /// dot product of a row with the direction, over the product of the two
    /// denominators.
    pub fn apply(&self, v: &XYZ) -> (r: (Frac, Frac, Frac))
        requires
            self.wf(),
            v.wf(),
        ensures
            r.0.wf() && r.1.wf() && r.2.wf(),
            r.0.r() == self.spec_apply_x(*v),
            r.1.r() == self.spec_apply_y(*v),
            r.2.r() == self.spec_apply_z(*v),
    {
        proof {
            crate::lemma_mul_bound(self.r11 as int, v.x as int, MAX_XYZ_DEN as int);
            crate::lemma_mul_bound(self.r12 as int, v.y as int, MAX_XYZ_DEN as int);
            crate::lemma_mul_bound(self.r13 as int, v.z as int, MAX_XYZ_DEN as int);
            crate::lemma_mul_bound(self.r21 as int, v.x as int, MAX_XYZ_DEN as int);
            crate::lemma_mul_bound(self.r22 as int, v.y as int, MAX_XYZ_DEN as int);
            crate::lemma_mul_bound(self.r23 as int, v.z as int, MAX_XYZ_DEN as int);
            crate::lemma_mul_bound(self.r31 as int, v.x as int, MAX_XYZ_DEN as int);
            crate::lemma_mul_bound(self.r32 as int, v.y as int, MAX_XYZ_DEN as int);
            crate::lemma_mul_bound(self.r33 as int, v.z as int, MAX_XYZ_DEN as int);
            crate::lemma_mul_bound(self.d as int, v.d as int, MAX_XYZ_DEN as int);
            assert((self.d as int) * (v.d as int) > 0) by (nonlinear_arith)
                requires
                    self.d > 0,
                    v.d > 0,
            ;
        }
        let nx = (self.r11 as i128) * (v.x as i128) + (self.r12 as i128) * (v.y as i128)
            + (self.r13 as i128) * (v.z as i128);
        let ny = (self.r21 as i128) * (v.x as i128) + (self.r22 as i128) * (v.y as i128)
            + (self.r23 as i128) * (v.z as i128);
        let nz = (self.r31 as i128) * (v.x as i128) + (self.r32 as i128) * (v.y as i128)
            + (self.r33 as i128) * (v.z as i128);
        let den = (self.d as i128) * (v.d as i128);
        (
            Frac::new(nx, den).unwrap(),
            Frac::new(ny, den).unwrap(),
            Frac::new(nz, den).unwrap(),
        )
    }
}

/// The scaled dot product of two rows or columns, compared against `d^2`
/// through [`RotationMatrix::new`].
fn dot3(a1: i64, a2: i64, a3: i64, b1: i64, b2: i64, b3: i64, bound: i64) -> (r: i128)
    requires
        0 < bound <= MAX_XYZ_DEN,
        -bound <= a1 <= bound, -bound <= a2 <= bound, -bound <= a3 <= bound,
        -bound <= b1 <= bound, -bound <= b2 <= bound, -bound <= b3 <= bound,
    ensures
        r == a1 * b1 + a2 * b2 + a3 * b3,
{
    proof {
        crate::lemma_mul_bound(a1 as int, b1 as int, MAX_XYZ_DEN as int);
        crate::lemma_mul_bound(a2 as int, b2 as int, MAX_XYZ_DEN as int);
        crate::lemma_mul_bound(a3 as int, b3 as int, MAX_XYZ_DEN as int);
    }
    (a1 as i128) * (b1 as i128) + (a2 as i128) * (b2 as i128) + (a3 as i128) * (b3 as i128)
}

/// The identity rotation leaves every direction exactly unchanged, in both
/// the forward direction and (being its own transpose) the inverse one: the
/// outputs of a projection wrapped in the identity rotation are those of
/// the bare projection.
pub proof fn lemma_identity_rotation(v: XYZ)
    requires
        v.wf(),
    ensures
        rat_eq(spec_identity().spec_apply_x(v), v.rx()),
        rat_eq(spec_identity().spec_apply_y(v), v.ry()),
        rat_eq(spec_identity().spec_apply_z(v), v.rz()),
        spec_identity().transpose_spec() == spec_identity(),
{
    assert((1 * v.x + 0 * v.y + 0 * v.z) * (v.d as int) == (v.x as int) * (1 * v.d))
        by (nonlinear_arith);
    assert((0 * v.x + 1 * v.y + 0 * v.z) * (v.d as int) == (v.y as int) * (1 * v.d))
        by (nonlinear_arith);
    assert((0 * v.x + 0 * v.y + 1 * v.z) * (v.d as int) == (v.z as int) * (1 * v.d))
        by (nonlinear_arith);
}

impl RotationMatrix {
    /// The ghost transpose.
    pub open spec fn transpose_spec(self) -> RotationMatrix {
        RotationMatrix {
            r11: self.r11, r12: self.r21, r13: self.r31,
            r21: self.r12, r22: self.r22, r23: self.r32,
            r31: self.r13, r32: self.r23, r33: self.r33,
            d: self.d,
        }
    }
}

proof fn step_distr3(a: int, p: int, q: int, s: int)
    ensures
        a * (p + q + s) == a * p + a * q + a * s,
{
    broadcast use vstd::arithmetic::mul::group_mul_properties;

}

proof fn step_assoc(a: int, b: int, c: int)
    ensures
        a * (b * c) == (a * b) * c,
{
    broadcast use vstd::arithmetic::mul::group_mul_properties;

}

proof fn step_collect3(a: int, b: int, c: int, t: int)
    ensures
        (a + b + c) * t == a * t + b * t + c * t,
{
    broadcast use vstd::arithmetic::mul::group_mul_properties;

}

proof fn step_zero(t: int)
    ensures
        0 * t == 0,
{
    broadcast use vstd::arithmetic::mul::group_mul_properties;

}

proof fn swap_dot(p1: int, p2: int, p3: int, q1: int, q2: int, q3: int, s: int)
    requires
        p1 * q1 + p2 * q2 + p3 * q3 == s,
    ensures
        q1 * p1 + q2 * p2 + q3 * p3 == s,
{
    broadcast use vstd::arithmetic::mul::group_mul_properties;

}

/// One component of the transpose-inversion: applying a column of the
/// matrix to the rotated components gives the original component scaled by
/// `d^2`, provided the columns are orthonormal.
proof fn lemma_transpose_component(
    a1: int, a2: int, a3: int,
    b1: int, b2: int, b3: int,
    c1: int, c2: int, c3: int,
    d: int, x: int, y: int, z: int,
)
    requires
        a1 * a1 + a2 * a2 + a3 * a3 == d * d,
        a1 * b1 + a2 * b2 + a3 * b3 == 0,
        a1 * c1 + a2 * c2 + a3 * c3 == 0,
    ensures
        a1 * (a1 * x + b1 * y + c1 * z) + a2 * (a2 * x + b2 * y + c2 * z)
            + a3 * (a3 * x + b3 * y + c3 * z) == (d * d) * x,
{
    step_distr3(a1, a1 * x, b1 * y, c1 * z);
    step_distr3(a2, a2 * x, b2 * y, c2 * z);
    step_distr3(a3, a3 * x, b3 * y, c3 * z);
    step_assoc(a1, a1, x);
    step_assoc(a2, a2, x);
    step_assoc(a3, a3, x);
    step_assoc(a1, b1, y);
    step_assoc(a2, b2, y);
    step_assoc(a3, b3, y);
    step_assoc(a1, c1, z);
    step_assoc(a2, c2, z);
    step_assoc(a3, c3, z);
    step_collect3(a1 * a1, a2 * a2, a3 * a3, x);
    step_collect3(a1 * b1, a2 * b2, a3 * b3, y);
    step_collect3(a1 * c1, a2 * c2, a3 * c3, z);
    step_zero(y);
    step_zero(z);
}

/// The transpose of an orthonormal rotation undoes it exactly: applying
/// the matrix and then its transpose returns every component scaled by
/// `d^2` in both numerator and denominator, that is, the original
/// direction.  This is why the inverse mapping never inverts a matrix.
pub proof fn lemma_transpose_inverts(m: RotationMatrix, v: XYZ)
    requires
        m.wf(),
        v.wf(),
        m.is_orthonormal(),
    ensures
        m.transpose_spec().r11 * m.spec_apply_x(v).n + m.transpose_spec().r12
            * m.spec_apply_y(v).n + m.transpose_spec().r13 * m.spec_apply_z(v).n
            == (m.d * m.d) * v.x,
        m.transpose_spec().r21 * m.spec_apply_x(v).n + m.transpose_spec().r22
            * m.spec_apply_y(v).n + m.transpose_spec().r23 * m.spec_apply_z(v).n
            == (m.d * m.d) * v.y,
        m.transpose_spec().r31 * m.spec_apply_x(v).n + m.transpose_spec().r32
            * m.spec_apply_y(v).n + m.transpose_spec().r33 * m.spec_apply_z(v).n
            == (m.d * m.d) * v.z,
        rat_eq(
            (Rat { n: (m.d * m.d) * v.x, d: (m.d * m.d) * v.d }),
            v.rx(),
        ),
        rat_eq(
            (Rat { n: (m.d * m.d) * v.y, d: (m.d * m.d) * v.d }),
            v.ry(),
        ),
        rat_eq(
            (Rat { n: (m.d * m.d) * v.z, d: (m.d * m.d) * v.d }),
            v.rz(),
        ),
{
    lemma_transpose_component(
        m.r11 as int, m.r21 as int, m.r31 as int,
        m.r12 as int, m.r22 as int, m.r32 as int,
        m.r13 as int, m.r23 as int, m.r33 as int,
        m.d as int, v.x as int, v.y as int, v.z as int,
    );
    swap_dot(m.r11 as int, m.r21 as int, m.r31 as int,
        m.r12 as int, m.r22 as int, m.r32 as int, 0);
    lemma_transpose_component(
        m.r12 as int, m.r22 as int, m.r32 as int,
        m.r11 as int, m.r21 as int, m.r31 as int,
        m.r13 as int, m.r23 as int, m.r33 as int,
        m.d as int, v.y as int, v.x as int, v.z as int,
    );
    swap_dot(m.r11 as int, m.r21 as int, m.r31 as int,
        m.r13 as int, m.r23 as int, m.r33 as int, 0);
    swap_dot(m.r12 as int, m.r22 as int, m.r32 as int,
        m.r13 as int, m.r23 as int, m.r33 as int, 0);
    lemma_transpose_component(
        m.r13 as int, m.r23 as int, m.r33 as int,
        m.r11 as int, m.r21 as int, m.r31 as int,
        m.r12 as int, m.r22 as int, m.r32 as int,
        m.d as int, v.z as int, v.x as int, v.y as int,
    );
    assert(((m.d * m.d) * v.x) * (v.d as int) == (v.x as int) * ((m.d * m.d) * v.d))
        by (nonlinear_arith);
    assert(((m.d * m.d) * v.y) * (v.d as int) == (v.y as int) * ((m.d * m.d) * v.d))
        by (nonlinear_arith);
    assert(((m.d * m.d) * v.z) * (v.d as int) == (v.z as int) * ((m.d * m.d) * v.d))
        by (nonlinear_arith);
}

} // verus!
