//! Structural rules of the SIP (Simple Imaging Polynomial) convention.
//!
//! A SIP coefficient array lists the coefficients of a bivariate polynomial
//! ordered by the implicit triangular exponent schedule
//! `0_0, 0_1, ..., 0_(n-1), 1_0, ..., (n-1)_0`, where `p_q` multiplies
//! `u^p * v^q`.  For an integral order `n` the array length must be exactly
//! `n*(n+1)/2`; any other length is refused at construction time.

use vstd::prelude::*;
use crate::frac::{
    Frac, Rat, rat_add, rat_int, rat_mul, rat_pow,
    add_defined, mul_defined, pow_defined, pow_frac,
};

verus! {

/// The `n`-th triangular number, `0 + 1 + ... + n`... counted as the number
/// of exponent pairs `(p, q)` with `p + q < n`.
pub open spec fn triangular(n: nat) -> nat
    decreases n,
{
    if n == 0 {
        0
    } else {
        triangular((n - 1) as nat) + n
    }
}

/// The recursive count agrees with the closed form: `2 * triangular(n) == n * (n + 1)`.
pub proof fn lemma_triangular_closed(n: nat)
    ensures
        2 * triangular(n) == n * (n + 1),
    decreases n,
{
    if n > 0 {
        let m = (n - 1) as nat;
        lemma_triangular_closed(m);
        assert(triangular(n) == triangular(m) + n);
        assert(2 * triangular(n) == m * (m + 1) + 2 * n);
        assert(m * (m + 1) + 2 * n == n * (n + 1)) by (nonlinear_arith)
            requires
                n == m + 1,
        ;
    } else {
        assert(n * (n + 1) == 0) by (nonlinear_arith)
            requires
                n == 0,
        ;
    }
}

/// Triangular numbers grow strictly.
proof fn lemma_triangular_strict(a: nat, b: nat)
    requires
        a < b,
    ensures
        triangular(a) < triangular(b),
    decreases b,
{
    if a + 1 < b {
        lemma_triangular_strict(a, (b - 1) as nat);
    }
}

/// Returns the order of a bivariate SIP polynomial from its number of
/// coefficients: the `n` with `n*(n+1)/2 == n_coeff`.  Fails exactly when
/// the length is not a triangular number, as the convention demands.
pub fn order_from_n_coeff(n_coeff: usize) -> (r: Option<usize>)
    ensures
        r matches Some(n) ==> triangular(n as nat) == n_coeff
            && 2 * (n_coeff as nat) == (n as nat) * (n as nat + 1),
        r is Some <==> exists|n: nat| triangular(n) == n_coeff,
{
    let mut n: usize = 0;
    let mut tri: u128 = 0;
    while tri < n_coeff as u128
        invariant
            tri == triangular(n as nat),
            n as u128 <= tri,
            forall|k: nat| k < n ==> triangular(k) < n_coeff,
        decreases n_coeff - n,
    {
        proof {
            assert(triangular((n + 1) as nat) == tri + n + 1);
        }
        tri = tri + n as u128 + 1;
        n = n + 1;
    }
    if tri == n_coeff as u128 {
        proof {
            lemma_triangular_closed(n as nat);
        }
        Some(n)
    } else {
        proof {
            assert forall|k: nat| triangular(k) != n_coeff by {
                if k >= n as nat {
                    if k > n as nat {
                        lemma_triangular_strict(n as nat, k);
                    }
                }
            }
        }
        None
    }
}

/// Lexicographic order on exponent pairs.
pub open spec fn exp_lt(a: (u16, u16), b: (u16, u16)) -> bool {
    a.0 < b.0 || (a.0 == b.0 && a.1 < b.1)
}

/// The implicit triangular exponent schedule of a SIP polynomial of the
/// given order: all pairs `(p, q)` with `p + q < order`, in increasing
/// lexicographic order, `(0,0), (0,1), ..., (1,0), ...`.  Together with the
/// length `triangular(order)` this pins the schedule down completely.
pub fn sip_exponents(order: u16) -> (r: Vec<(u16, u16)>)
    ensures
        r@.len() == triangular(order as nat),
        forall|i: int| 0 <= i < r@.len() ==> r@[i].0 + r@[i].1 < order,
        forall|i: int, j: int| 0 <= i < j < r@.len() ==> exp_lt(r@[i], r@[j]),
{
    let mut r: Vec<(u16, u16)> = Vec::new();
    let mut p: u16 = 0;
    while p < order
        invariant
            p <= order,
            r@.len() == triangular(order as nat) - triangular((order - p) as nat),
            forall|i: int| 0 <= i < r@.len() ==> r@[i].0 + r@[i].1 < order,
            forall|i: int| 0 <= i < r@.len() ==> r@[i].0 < p,
            forall|i: int, j: int| 0 <= i < j < r@.len() ==> exp_lt(r@[i], r@[j]),
        decreases order - p,
    {
        let mut q: u16 = 0;
        proof {
            assert(triangular((order - p) as nat)
                == triangular((order - p - 1) as nat) + (order - p));
        }
        while q < order - p
            invariant
                p < order,
                q <= order - p,
                r@.len() == triangular(order as nat) - triangular((order - p) as nat) + q,
                forall|i: int| 0 <= i < r@.len() ==> r@[i].0 + r@[i].1 < order,
                forall|i: int| 0 <= i < r@.len()
                    ==> (r@[i].0 < p || (r@[i].0 == p && r@[i].1 < q)),
                forall|i: int, j: int| 0 <= i < j < r@.len() ==> exp_lt(r@[i], r@[j]),
                triangular((order - p) as nat)
                    == triangular((order - p - 1) as nat) + (order - p),
            decreases order - p - q,
        {
            r.push((p, q));
            q = q + 1;
        }
        p = p + 1;
    }
    r
}


/// One term of a SIP polynomial: `u^p * v^q * c[k]`, with `(p, q)` the
/// `k`-th pair of the exponent schedule.
pub open spec fn sip_term(c: Seq<Rat>, e: Seq<(u16, u16)>, u: Rat, v: Rat, k: int) -> Rat {
    rat_mul(rat_mul(rat_pow(u, e[k].0 as nat), rat_pow(v, e[k].1 as nat)), c[k])
}

/// The sum of the first `k` terms of a SIP polynomial.
pub open spec fn sip_partial(c: Seq<Rat>, e: Seq<(u16, u16)>, u: Rat, v: Rat, k: int) -> Rat
    decreases k,
{
    if k <= 0 {
        rat_int(0)
    } else {
        rat_add(sip_partial(c, e, u, v, k - 1), sip_term(c, e, u, v, k - 1))
    }
}

/// The value of the bivariate SIP polynomial with coefficients `c` over the
/// exponent schedule `e`, at `(u, v)`.
pub open spec fn spec_sip_eval(c: Seq<Rat>, e: Seq<(u16, u16)>, u: Rat, v: Rat) -> Rat {
    sip_partial(c, e, u, v, c.len() as int)
}

/// The exact computation of the `k`-th term and its addition to the running
/// sum stay within the machine range.
pub open spec fn sip_term_defined(c: Seq<Rat>, e: Seq<(u16, u16)>, u: Rat, v: Rat, k: int)
    -> bool {
    let pu = rat_pow(u, e[k].0 as nat);
    let pv = rat_pow(v, e[k].1 as nat);
    &&& pow_defined(u, e[k].0 as nat)
    &&& pow_defined(v, e[k].1 as nat)
    &&& mul_defined(pu, pv)
    &&& mul_defined(rat_mul(pu, pv), c[k])
    &&& add_defined(sip_partial(c, e, u, v, k), sip_term(c, e, u, v, k))
}

/// The exact evaluation of the first `k` terms stays within the machine
/// range.
pub open spec fn sip_defined_upto(c: Seq<Rat>, e: Seq<(u16, u16)>, u: Rat, v: Rat, k: int)
    -> bool
    decreases k,
{
    if k <= 0 {
        true
    } else {
        sip_defined_upto(c, e, u, v, k - 1) && sip_term_defined(c, e, u, v, k - 1)
    }
}

/// The whole exact evaluation stays within the machine range.
pub open spec fn sip_eval_defined(c: Seq<Rat>, e: Seq<(u16, u16)>, u: Rat, v: Rat) -> bool {
    sip_defined_upto(c, e, u, v, c.len() as int)
}

/// If the evaluation already fails within the first `j` terms, it fails as
/// a whole.
proof fn lemma_sip_prefix_undef(c: Seq<Rat>, e: Seq<(u16, u16)>, u: Rat, v: Rat, j: int, k: int)
    requires
        0 <= j <= k,
        !sip_defined_upto(c, e, u, v, j),
    ensures
        !sip_defined_upto(c, e, u, v, k),
    decreases k,
{
    if j < k {
        lemma_sip_prefix_undef(c, e, u, v, j, k - 1);
    }
}

/// The exact sum of the terms `u^p * v^q * c[k]` over the schedule `e`.
fn eval_terms(coeffs: &Vec<Frac>, exps: &Vec<(u16, u16)>, u: &Frac, v: &Frac)
    -> (r: Option<Frac>)
    requires
        forall|i: int| 0 <= i < coeffs@.len() ==> (#[trigger] coeffs@[i]).wf(),
        exps@.len() == coeffs@.len(),
        u.wf(),
        v.wf(),
    ensures
        r matches Some(w) ==> w.wf() && w.r() == spec_sip_eval(
            coeffs@.map_values(|f: Frac| f.r()), exps@, u.r(), v.r()),
        r is Some <==> sip_eval_defined(
            coeffs@.map_values(|f: Frac| f.r()), exps@, u.r(), v.r()),
{
    let ghost c = coeffs@.map_values(|f: Frac| f.r());
    let ghost e = exps@;
    let n = coeffs.len();
    let mut acc = Frac::of_int(0);
    let mut k: usize = 0;
    while k < n
        invariant
            k <= n,
            n == coeffs@.len(),
            exps@.len() == coeffs@.len(),
            c == coeffs@.map_values(|f: Frac| f.r()),
            e == exps@,
            forall|i: int| 0 <= i < coeffs@.len() ==> (#[trigger] coeffs@[i]).wf(),
            u.wf(),
            v.wf(),
            acc.wf(),
            acc.r() == sip_partial(c, e, u.r(), v.r(), k as int),
            sip_defined_upto(c, e, u.r(), v.r(), k as int),
        decreases n - k,
    {
        let (p, q) = exps[k];
        let pu = pow_frac(u, p);
        let pv = pow_frac(v, q);
        match (pu, pv) {
            (Some(pu), Some(pv)) => match pu.mul(&pv) {
                Some(uv) => match uv.mul(&coeffs[k]) {
                    Some(t) => match acc.add(&t) {
                        Some(a) => {
                            acc = a;
                            k = k + 1;
                        },
                        None => {
                            proof {
                                lemma_sip_prefix_undef(c, e, u.r(), v.r(), k + 1, n as int);
                            }
                            return None;
                        },
                    },
                    None => {
                        proof {
                            lemma_sip_prefix_undef(c, e, u.r(), v.r(), k + 1, n as int);
                        }
                        return None;
                    },
                },
                None => {
                    proof {
                        lemma_sip_prefix_undef(c, e, u.r(), v.r(), k + 1, n as int);
                    }
                    return None;
                },
            },
            _ => {
                proof {
                    lemma_sip_prefix_undef(c, e, u.r(), v.r(), k + 1, n as int);
                }
                return None;
            },
        }
    }
    Some(acc)
}


/// One term of the partial derivative in `u`: zero where `p == 0`, else
/// `p * c[k] * u^(p-1) * v^q`.
pub open spec fn sip_dterm_u(c: Seq<Rat>, e: Seq<(u16, u16)>, u: Rat, v: Rat, k: int) -> Rat {
    if e[k].0 == 0 {
        rat_int(0)
    } else {
        rat_mul(
            rat_mul(rat_pow(u, (e[k].0 - 1) as nat), rat_pow(v, e[k].1 as nat)),
            rat_mul(rat_int(e[k].0 as int), c[k]),
        )
    }
}

/// The sum of the first `k` derivative terms in `u`.
pub open spec fn sip_dpartial_u(c: Seq<Rat>, e: Seq<(u16, u16)>, u: Rat, v: Rat, k: int) -> Rat
    decreases k,
{
    if k <= 0 {
        rat_int(0)
    } else {
        rat_add(sip_dpartial_u(c, e, u, v, k - 1), sip_dterm_u(c, e, u, v, k - 1))
    }
}

/// The partial derivative in `u` of the bivariate SIP polynomial at `(u, v)`.
pub open spec fn spec_sip_dpdu(c: Seq<Rat>, e: Seq<(u16, u16)>, u: Rat, v: Rat) -> Rat {
    sip_dpartial_u(c, e, u, v, c.len() as int)
}

/// The `k`-th derivative-in-`u` step stays within the machine range.
pub open spec fn sip_dterm_u_defined(c: Seq<Rat>, e: Seq<(u16, u16)>, u: Rat, v: Rat, k: int)
    -> bool {
    let pu = rat_pow(u, (e[k].0 - 1) as nat);
    let pv = rat_pow(v, e[k].1 as nat);
    &&& (e[k].0 > 0 ==> {
        &&& pow_defined(u, (e[k].0 - 1) as nat)
        &&& pow_defined(v, e[k].1 as nat)
        &&& mul_defined(pu, pv)
        &&& mul_defined(rat_int(e[k].0 as int), c[k])
        &&& mul_defined(rat_mul(pu, pv), rat_mul(rat_int(e[k].0 as int), c[k]))
    })
    &&& add_defined(sip_dpartial_u(c, e, u, v, k), sip_dterm_u(c, e, u, v, k))
}

/// The first `k` derivative-in-`u` steps stay within the machine range.
pub open spec fn sip_du_defined_upto(c: Seq<Rat>, e: Seq<(u16, u16)>, u: Rat, v: Rat, k: int)
    -> bool
    decreases k,
{
    if k <= 0 {
        true
    } else {
        sip_du_defined_upto(c, e, u, v, k - 1) && sip_dterm_u_defined(c, e, u, v, k - 1)
    }
}

/// The whole exact derivative-in-`u` evaluation stays within the machine
/// range.
pub open spec fn sip_dpdu_defined(c: Seq<Rat>, e: Seq<(u16, u16)>, u: Rat, v: Rat) -> bool {
    sip_du_defined_upto(c, e, u, v, c.len() as int)
}

/// If the derivative evaluation already fails within the first `j` steps,
/// it fails as a whole.
proof fn lemma_sip_du_prefix_undef(
    c: Seq<Rat>, e: Seq<(u16, u16)>, u: Rat, v: Rat, j: int, k: int,
)
    requires
        0 <= j <= k,
        !sip_du_defined_upto(c, e, u, v, j),
    ensures
        !sip_du_defined_upto(c, e, u, v, k),
    decreases k,
{
    if j < k {
        lemma_sip_du_prefix_undef(c, e, u, v, j, k - 1);
    }
}

/// The exact sum of the derivative-in-`u` terms over the schedule `e`.
fn du_terms(coeffs: &Vec<Frac>, exps: &Vec<(u16, u16)>, u: &Frac, v: &Frac)
    -> (r: Option<Frac>)
    requires
        forall|i: int| 0 <= i < coeffs@.len() ==> (#[trigger] coeffs@[i]).wf(),
        exps@.len() == coeffs@.len(),
        u.wf(),
        v.wf(),
    ensures
        r matches Some(w) ==> w.wf() && w.r() == spec_sip_dpdu(
            coeffs@.map_values(|f: Frac| f.r()), exps@, u.r(), v.r()),
        r is Some <==> sip_dpdu_defined(
            coeffs@.map_values(|f: Frac| f.r()), exps@, u.r(), v.r()),
{
    let ghost c = coeffs@.map_values(|f: Frac| f.r());
    let ghost e = exps@;
    let n = coeffs.len();
    let mut acc = Frac::of_int(0);
    let mut k: usize = 0;
    while k < n
        invariant
            k <= n,
            n == coeffs@.len(),
            exps@.len() == coeffs@.len(),
            c == coeffs@.map_values(|f: Frac| f.r()),
            e == exps@,
            forall|i: int| 0 <= i < coeffs@.len() ==> (#[trigger] coeffs@[i]).wf(),
            u.wf(),
            v.wf(),
            acc.wf(),
            acc.r() == sip_dpartial_u(c, e, u.r(), v.r(), k as int),
            sip_du_defined_upto(c, e, u.r(), v.r(), k as int),
        decreases n - k,
    {
        let (p, q) = exps[k];
        let t = if p == 0 {
            Some(Frac::of_int(0))
        } else {
            let pu = pow_frac(u, p - 1);
            let pv = pow_frac(v, q);
            match (pu, pv) {
                (Some(pu), Some(pv)) => match pu.mul(&pv) {
                    Some(uv) => match Frac::of_int(p as i128).mul(&coeffs[k]) {
                        Some(pc) => uv.mul(&pc),
                        None => None,
                    },
                    None => None,
                },
                _ => None,
            }
        };
        match t {
            Some(t) => {
                proof {
                    crate::frac::lemma_frac_bounds(acc);
                }
                match acc.add(&t) {
                    Some(a) => {
                        acc = a;
                        k = k + 1;
                    },
                    None => {
                        proof {
                            lemma_sip_du_prefix_undef(c, e, u.r(), v.r(), k + 1, n as int);
                        }
                        return None;
                    },
                }
            },
            None => {
                proof {
                    lemma_sip_du_prefix_undef(c, e, u.r(), v.r(), k + 1, n as int);
                }
                return None;
            },
        }
    }
    Some(acc)
}


/// One term of the partial derivative in `v`: zero where `q == 0`, else
/// `q * c[k] * u^p * v^(q-1)`.
pub open spec fn sip_dterm_v(c: Seq<Rat>, e: Seq<(u16, u16)>, u: Rat, v: Rat, k: int) -> Rat {
    if e[k].1 == 0 {
        rat_int(0)
    } else {
        rat_mul(
            rat_mul(rat_pow(u, e[k].0 as nat), rat_pow(v, (e[k].1 - 1) as nat)),
            rat_mul(rat_int(e[k].1 as int), c[k]),
        )
    }
}

/// The sum of the first `k` derivative terms in `v`.
pub open spec fn sip_dpartial_v(c: Seq<Rat>, e: Seq<(u16, u16)>, u: Rat, v: Rat, k: int) -> Rat
    decreases k,
{
    if k <= 0 {
        rat_int(0)
    } else {
        rat_add(sip_dpartial_v(c, e, u, v, k - 1), sip_dterm_v(c, e, u, v, k - 1))
    }
}

/// The partial derivative in `v` of the bivariate SIP polynomial at `(u, v)`.
pub open spec fn spec_sip_dpdv(c: Seq<Rat>, e: Seq<(u16, u16)>, u: Rat, v: Rat) -> Rat {
    sip_dpartial_v(c, e, u, v, c.len() as int)
}

/// The `k`-th derivative-in-`v` step stays within the machine range.
pub open spec fn sip_dterm_v_defined(c: Seq<Rat>, e: Seq<(u16, u16)>, u: Rat, v: Rat, k: int)
    -> bool {
    let pu = rat_pow(u, e[k].0 as nat);
    let pv = rat_pow(v, (e[k].1 - 1) as nat);
    &&& (e[k].1 > 0 ==> {
        &&& pow_defined(u, e[k].0 as nat)
        &&& pow_defined(v, (e[k].1 - 1) as nat)
        &&& mul_defined(pu, pv)
        &&& mul_defined(rat_int(e[k].1 as int), c[k])
        &&& mul_defined(rat_mul(pu, pv), rat_mul(rat_int(e[k].1 as int), c[k]))
    })
    &&& add_defined(sip_dpartial_v(c, e, u, v, k), sip_dterm_v(c, e, u, v, k))
}

/// The first `k` derivative-in-`v` steps stay within the machine range.
pub open spec fn sip_dv_defined_upto(c: Seq<Rat>, e: Seq<(u16, u16)>, u: Rat, v: Rat, k: int)
    -> bool
    decreases k,
{
    if k <= 0 {
        true
    } else {
        sip_dv_defined_upto(c, e, u, v, k - 1) && sip_dterm_v_defined(c, e, u, v, k - 1)
    }
}

/// The whole exact derivative-in-`v` evaluation stays within the machine
/// range.
pub open spec fn sip_dpdv_defined(c: Seq<Rat>, e: Seq<(u16, u16)>, u: Rat, v: Rat) -> bool {
    sip_dv_defined_upto(c, e, u, v, c.len() as int)
}

/// If the derivative evaluation already fails within the first `j` steps,
/// it fails as a whole.
proof fn lemma_sip_dv_prefix_undef(
    c: Seq<Rat>, e: Seq<(u16, u16)>, u: Rat, v: Rat, j: int, k: int,
)
    requires
        0 <= j <= k,
        !sip_dv_defined_upto(c, e, u, v, j),
    ensures
        !sip_dv_defined_upto(c, e, u, v, k),
    decreases k,
{
    if j < k {
        lemma_sip_dv_prefix_undef(c, e, u, v, j, k - 1);
    }
}

/// The exact sum of the derivative-in-`v` terms over the schedule `e`.
fn dv_terms(coeffs: &Vec<Frac>, exps: &Vec<(u16, u16)>, u: &Frac, v: &Frac)
    -> (r: Option<Frac>)
    requires
        forall|i: int| 0 <= i < coeffs@.len() ==> (#[trigger] coeffs@[i]).wf(),
        exps@.len() == coeffs@.len(),
        u.wf(),
        v.wf(),
    ensures
        r matches Some(w) ==> w.wf() && w.r() == spec_sip_dpdv(
            coeffs@.map_values(|f: Frac| f.r()), exps@, u.r(), v.r()),
        r is Some <==> sip_dpdv_defined(
            coeffs@.map_values(|f: Frac| f.r()), exps@, u.r(), v.r()),
{
    let ghost c = coeffs@.map_values(|f: Frac| f.r());
    let ghost e = exps@;
    let n = coeffs.len();
    let mut acc = Frac::of_int(0);
    let mut k: usize = 0;
    while k < n
        invariant
            k <= n,
            n == coeffs@.len(),
            exps@.len() == coeffs@.len(),
            c == coeffs@.map_values(|f: Frac| f.r()),
            e == exps@,
            forall|i: int| 0 <= i < coeffs@.len() ==> (#[trigger] coeffs@[i]).wf(),
            u.wf(),
            v.wf(),
            acc.wf(),
            acc.r() == sip_dpartial_v(c, e, u.r(), v.r(), k as int),
            sip_dv_defined_upto(c, e, u.r(), v.r(), k as int),
        decreases n - k,
    {
        let (p, q) = exps[k];
        let t = if q == 0 {
            Some(Frac::of_int(0))
        } else {
            let pu = pow_frac(u, p);
            let pv = pow_frac(v, q - 1);
            match (pu, pv) {
                (Some(pu), Some(pv)) => match pu.mul(&pv) {
                    Some(uv) => match Frac::of_int(q as i128).mul(&coeffs[k]) {
                        Some(qc) => uv.mul(&qc),
                        None => None,
                    },
                    None => None,
                },
                _ => None,
            }
        };
        match t {
            Some(t) => {
                proof {
                    crate::frac::lemma_frac_bounds(acc);
                }
                match acc.add(&t) {
                    Some(a) => {
                        acc = a;
                        k = k + 1;
                    },
                    None => {
                        proof {
                            lemma_sip_dv_prefix_undef(c, e, u.r(), v.r(), k + 1, n as int);
                        }
                        return None;
                    },
                }
            },
            None => {
                proof {
                    lemma_sip_dv_prefix_undef(c, e, u.r(), v.r(), k + 1, n as int);
                }
                return None;
            },
        }
    }
    Some(acc)
}

/// SIP polynomial coefficients for one axis, with the exponent schedule the
/// order dictates.  In the coefficient array, entry `k` multiplies
/// `u^p * v^q` for the `k`-th pair of [`sip_exponents`].
#[derive(Clone, Debug)]
pub struct SipCoeff {
    /// Order of the polynomial: the array holds `order*(order+1)/2` entries.
    pub order: u16,
    /// The coefficients, by the triangular schedule.
    pub c: Vec<Frac>,
    /// The exponent pair of each coefficient.
    pub exps: Vec<(u16, u16)>,
}

impl SipCoeff {
    /// Well-formedness: every coefficient is a valid rational and the
    /// schedule covers the array.
    pub open spec fn wf(self) -> bool {
        &&& forall|i: int| 0 <= i < self.c@.len() ==> (#[trigger] self.c@[i]).wf()
        &&& self.exps@.len() == self.c@.len()
    }

    /// The ghost coefficient sequence.
    pub open spec fn r(self) -> Seq<Rat> {
        self.c@.map_values(|f: Frac| f.r())
    }

    /// Builds the polynomial from its coefficient array.  Fails exactly
    /// when the length is not `n*(n+1)/2` for an order `n` the schedule can
    /// carry: the construction-time error the convention demands.
    pub fn new(c: Vec<Frac>) -> (r: Option<SipCoeff>)
        requires
            forall|i: int| 0 <= i < c@.len() ==> (#[trigger] c@[i]).wf(),
        ensures
            r matches Some(s) ==> s.wf() && s.c == c
                && triangular(s.order as nat) == c@.len()
                && (forall|i: int| 0 <= i < s.exps@.len()
                    ==> s.exps@[i].0 + s.exps@[i].1 < s.order)
                && (forall|i: int, j: int| 0 <= i < j < s.exps@.len()
                    ==> exp_lt(s.exps@[i], s.exps@[j])),
            r is Some <==> exists|n: nat| n <= u16::MAX && triangular(n) == c@.len(),
    {
        match order_from_n_coeff(c.len()) {
            Some(n) => {
                if n <= u16::MAX as usize {
                    let exps = sip_exponents(n as u16);
                    Some(SipCoeff { order: n as u16, c, exps })
                } else {
                    proof {
                        assert forall|m: nat| m <= u16::MAX implies triangular(m) != c@.len()
                        by {
                            if m < n as nat {
                                lemma_triangular_strict(m, n as nat);
                            }
                        }
                    }
                    None
                }
            },
            None => None,
        }
    }

    /// The value of the polynomial at `(u, v)`, exactly; `None` exactly
    /// when a machine bound is exceeded.
    pub fn p(&self, u: &Frac, v: &Frac) -> (r: Option<Frac>)
        requires
            self.wf(),
            u.wf(),
            v.wf(),
        ensures
            r matches Some(w) ==> w.wf()
                && w.r() == spec_sip_eval(self.r(), self.exps@, u.r(), v.r()),
            r is Some <==> sip_eval_defined(self.r(), self.exps@, u.r(), v.r()),
    {
        eval_terms(&self.c, &self.exps, u, v)
    }

    /// The partial derivative in `u` at `(u, v)`, exactly; `None` exactly
    /// when a machine bound is exceeded.
    pub fn dpdu(&self, u: &Frac, v: &Frac) -> (r: Option<Frac>)
        requires
            self.wf(),
            u.wf(),
            v.wf(),
        ensures
            r matches Some(w) ==> w.wf()
                && w.r() == spec_sip_dpdu(self.r(), self.exps@, u.r(), v.r()),
            r is Some <==> sip_dpdu_defined(self.r(), self.exps@, u.r(), v.r()),
    {
        du_terms(&self.c, &self.exps, u, v)
    }

    /// The partial derivative in `v` at `(u, v)`, exactly; `None` exactly
    /// when a machine bound is exceeded.
    pub fn dpdv(&self, u: &Frac, v: &Frac) -> (r: Option<Frac>)
        requires
            self.wf(),
            u.wf(),
            v.wf(),
        ensures
            r matches Some(w) ==> w.wf()
                && w.r() == spec_sip_dpdv(self.r(), self.exps@, u.r(), v.r()),
            r is Some <==> sip_dpdv_defined(self.r(), self.exps@, u.r(), v.r()),
    {
        dv_terms(&self.c, &self.exps, u, v)
    }
}

/// What the caller observed after one bivariate Newton step: whether the
/// squared residual is within tolerance, and whether the iterate lies in
/// the declared pixel rectangle.
#[derive(Clone, Copy, PartialEq, Eq, Structural, Debug)]
pub struct Newton2dObs {
    /// `F(u,v)^2 + G(u,v)^2 <= eps^2` at the current iterate.
    pub residual_small: bool,
    /// The iterate lies inside the declared pixel rectangle.
    pub in_rect: bool,
}

/// The state of the bivariate Newton inverter used by the SIP deprojection
/// when no explicit inverse polynomials are declared.
#[derive(Clone, Copy, PartialEq, Eq, Structural, Debug)]
pub enum Newton2dState {
    /// Iterating with the analytically inverted 2 x 2 Jacobian.
    Iterate { left: u8 },
    /// The inverter has finished; the iterate is accepted only inside the
    /// declared pixel rectangle — a divergent run reports failure, the
    /// documented behaviour with no reseeding fallback.
    Done { accepted: bool },
}

/// Upper bound on the number of steps left before the inverter finishes.
pub open spec fn newton2d_measure(s: Newton2dState) -> nat {
    match s {
        Newton2dState::Iterate { left } => (left + 1) as nat,
        Newton2dState::Done { .. } => 0,
    }
}

impl Newton2dState {
    /// The starting state: a Newton run with the full iteration budget,
    /// seeded at the target.
    pub fn start(n_iter: u8) -> (r: Newton2dState)
        ensures
            r == (Newton2dState::Iterate { left: n_iter }),
    {
        Newton2dState::Iterate { left: n_iter }
    }

    /// Whether the inverter has finished.
    pub fn is_done(&self) -> (r: bool)
        ensures
            r <==> self is Done,
    {
        match self {
            Newton2dState::Done { .. } => true,
            _ => false,
        }
    }

    /// One decision of the bivariate inverter: keep iterating while the
    /// residual is large and budget remains; at the end, accept exactly
    /// when the iterate sits inside the declared rectangle.  The measure
    /// strictly decreases, so the inverter finishes within `n_iter + 1`
    /// decisions whatever is observed.
    pub fn step(&self, obs: &Newton2dObs) -> (r: Newton2dState)
        requires
            !(self is Done),
        ensures
            self is Iterate && !obs.residual_small && self->Iterate_left > 0
                ==> r == (Newton2dState::Iterate { left: (self->Iterate_left - 1) as u8 }),
            self is Iterate && (obs.residual_small || self->Iterate_left == 0)
                ==> r == (Newton2dState::Done { accepted: obs.in_rect }),
            newton2d_measure(r) < newton2d_measure(*self),
    {
        match *self {
            Newton2dState::Iterate { left } => {
                if obs.residual_small || left == 0 {
                    Newton2dState::Done { accepted: obs.in_rect }
                } else {
                    Newton2dState::Iterate { left: left - 1 }
                }
            },
            Newton2dState::Done { accepted } => Newton2dState::Done { accepted },
        }
    }
}

} // verus!
