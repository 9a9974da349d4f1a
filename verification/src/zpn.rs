//! The defining function of a radial polynomial projection, exactly.
//!
//! A zenithal polynomial projection maps the angular distance `a` from the
//! projection center to the Euclidean distance `F(a) = p0 + p1*a + p2*a^2 +
//! ...` in the plane.  Its inverse is well posed only where `F` is
//! non-negative and strictly increasing; the inverter and the discovery of
//! that interval drive `F` and its derivative `F'` numerically, but the two
//! evaluations themselves are plain polynomial arithmetic, carried out here
//! on exact rationals with exact contracts: every `Some` result is the
//! mathematical value of the Horner scheme, with no rounding.

use vstd::prelude::*;
use crate::frac::{
    Frac, Rat, rat_add, rat_int, rat_mul, add_defined, mul_defined,
};

verus! {

/// The Horner evaluation of the coefficients `p` at `x`, taken from the
/// low-order end: `H(p, x) = p[0] + x * H(p[1..], x)`, written in the shape
/// the executable loop computes, `H(p[1..], x) * x + p[0]`.
pub open spec fn spec_horner(p: Seq<Rat>, x: Rat) -> Rat
    decreases p.len(),
{
    if p.len() == 0 {
        rat_int(0)
    } else {
        rat_add(rat_mul(spec_horner(p.drop_first(), x), x), p.first())
    }
}

/// Whether the exact Horner evaluation stays within the machine range.
pub open spec fn horner_defined(p: Seq<Rat>, x: Rat) -> bool
    decreases p.len(),
{
    if p.len() == 0 {
        true
    } else {
        &&& horner_defined(p.drop_first(), x)
        &&& mul_defined(spec_horner(p.drop_first(), x), x)
        &&& add_defined(rat_mul(spec_horner(p.drop_first(), x), x), p.first())
    }
}

/// Whether every scaled derivative coefficient `(i+1) * p[i+1]` stays
/// within the machine range.
pub open spec fn deriv_defined(p: Seq<Rat>) -> bool {
    forall|i: int| 1 <= i < p.len() ==> mul_defined(rat_int(i), #[trigger] p[i])
}

/// The coefficient sequence of the derivative: `p'[i] = (i+1) * p[i+1]`;
/// empty for a constant (or empty) coefficient list.
pub open spec fn spec_deriv(p: Seq<Rat>) -> Seq<Rat> {
    if p.len() == 0 {
        Seq::empty()
    } else {
        Seq::new((p.len() - 1) as nat, |i: int| (Rat { n: (i + 1) * p[i + 1].n, d: p[i + 1].d }))
    }
}

/// A radial polynomial, the defining function of a zenithal polynomial
/// projection: coefficients of `1, a, a^2, ...` in order.
#[derive(Clone, Debug)]
pub struct RadialPoly {
    pub coeffs: Vec<Frac>,
}

impl RadialPoly {
    /// All coefficients are well formed.
    pub open spec fn wf(self) -> bool {
        forall|i: int| 0 <= i < self.coeffs@.len() ==> (#[trigger] self.coeffs@[i]).wf()
    }

    /// The ghost coefficient sequence.
    pub open spec fn r(self) -> Seq<Rat> {
        self.coeffs@.map_values(|c: Frac| c.r())
    }

    /// Builds the polynomial `coeffs[0] + coeffs[1]*a + ...`.
    pub fn from_coeffs(coeffs: Vec<Frac>) -> (r: RadialPoly)
        requires
            forall|i: int| 0 <= i < coeffs@.len() ==> (#[trigger] coeffs@[i]).wf(),
        ensures
            r.wf(),
            r.r() == coeffs@.map_values(|c: Frac| c.r()),
    {
        RadialPoly { coeffs }
    }

    /// The number of coefficients.
    pub fn len(&self) -> (r: usize)
        ensures
            r == self.r().len(),
    {
        self.coeffs.len()
    }

    /// Evaluates the polynomial at `x`, exactly, by the Horner scheme
    /// `p0 + x(p1 + x(p2 + ...))`; `None` exactly when a machine bound is
    /// exceeded.
    pub fn polynomial(&self, x: &Frac) -> (r: Option<Frac>)
        requires
            self.wf(),
            x.wf(),
        ensures
            r matches Some(v) ==> v.wf() && v.r() == spec_horner(self.r(), x.r()),
            r is Some <==> horner_defined(self.r(), x.r()),
    {
        horner(&self.coeffs, x)
    }

    /// Evaluates the derivative `p1 + 2*p2*x + 3*p3*x^2 + ...` at `x`,
    /// exactly; `None` exactly when a machine bound is exceeded.
    pub fn dpolynomial(&self, x: &Frac) -> (r: Option<Frac>)
        requires
            self.wf(),
            x.wf(),
        ensures
            r matches Some(v) ==> v.wf() && v.r() == spec_horner(spec_deriv(self.r()), x.r()),
            r is Some <==> deriv_defined(self.r())
                && horner_defined(spec_deriv(self.r()), x.r()),
    {
        let n = self.coeffs.len();
        let mut d: Vec<Frac> = Vec::new();
        let mut i: usize = 1;
        while i < n
            invariant
                1 <= i,
                i <= n || i == 1,
                n == self.coeffs@.len(),
                self.wf(),
                d@.len() == i - 1,
                forall|j: int| 0 <= j < d@.len() ==> (#[trigger] d@[j]).wf(),
                forall|j: int| 0 <= j < d@.len()
                    ==> (#[trigger] d@[j]).r() == spec_deriv(self.r())[j],
                forall|j: int| 1 <= j < i ==> mul_defined(rat_int(j), #[trigger] self.r()[j]),
            decreases n - i,
        {
            let c = self.coeffs[i];
            proof {
                crate::frac::lemma_frac_bounds(c);
            }
            let k = Frac::of_int(i as i128);
            let t = k.mul(&c);
            match t {
                Some(t) => {
                    d.push(t);
                    proof {
                        assert(t.r() == spec_deriv(self.r())[i - 1]);
                    }
                    i = i + 1;
                },
                None => {
                    proof {
                        assert(!mul_defined(rat_int(i as int), self.r()[i as int]));
                    }
                    return None;
                },
            }
        }
        proof {
            assert(d@.map_values(|c: Frac| c.r()) =~= spec_deriv(self.r()));
        }
        horner(&d, x)
    }
}

/// The Horner loop, from the highest-order coefficient down.
fn horner(p: &Vec<Frac>, x: &Frac) -> (r: Option<Frac>)
    requires
        forall|i: int| 0 <= i < p@.len() ==> (#[trigger] p@[i]).wf(),
        x.wf(),
    ensures
        r matches Some(v) ==> v.wf()
            && v.r() == spec_horner(p@.map_values(|c: Frac| c.r()), x.r()),
        r is Some <==> horner_defined(p@.map_values(|c: Frac| c.r()), x.r()),
{
    let ghost s = p@.map_values(|c: Frac| c.r());
    let n = p.len();
    let mut acc = Frac::of_int(0);
    let mut i: usize = n;
    proof {
        assert(s.subrange(n as int, n as int) =~= Seq::<Rat>::empty());
    }
    while i > 0
        invariant
            i <= n,
            n == p@.len(),
            s == p@.map_values(|c: Frac| c.r()),
            x.wf(),
            forall|k: int| 0 <= k < p@.len() ==> (#[trigger] p@[k]).wf(),
            acc.wf(),
            acc.r() == spec_horner(s.subrange(i as int, n as int), x.r()),
            horner_defined(s.subrange(i as int, n as int), x.r()),
        decreases i,
    {
        let m = acc.mul(x);
        let ghost tail = s.subrange(i as int, n as int);
        let ghost whole = s.subrange(i - 1, n as int);
        proof {
            assert(whole.drop_first() =~= tail);
            assert(whole.first() == s[i - 1]);
        }
        match m {
            Some(m) => {
                let a = m.add(&p[i - 1]);
                match a {
                    Some(a) => {
                        acc = a;
                        i = i - 1;
                    },
                    None => {
                        proof {
                            lemma_horner_prefix_undef(s, x.r(), i - 1);
                        }
                        return None;
                    },
                }
            },
            None => {
                proof {
                    lemma_horner_prefix_undef(s, x.r(), i - 1);
                }
                return None;
            },
        }
    }
    proof {
        assert(s.subrange(0, n as int) =~= s);
    }
    Some(acc)
}

/// If the Horner evaluation of the suffix starting at `j` leaves the
/// machine range, so does the whole evaluation.
proof fn lemma_horner_prefix_undef(s: Seq<Rat>, x: Rat, j: int)
    requires
        0 <= j <= s.len(),
        !horner_defined(s.subrange(j, s.len() as int), x),
    ensures
        !horner_defined(s, x),
    decreases j,
{
    if j > 0 {
        let outer = s.subrange(j - 1, s.len() as int);
        assert(outer.drop_first() =~= s.subrange(j, s.len() as int));
        lemma_horner_prefix_undef(s, x, j - 1);
    } else {
        assert(s.subrange(0, s.len() as int) =~= s);
    }
}


/// Budgets of the domain-of-validity discovery: the scan bound (the number
/// of `step`-wide advances needed to cross `[0, pi]`) and the dichotomy
/// bound (the halvings needed to fall below `eps`).
#[derive(Clone, Copy, PartialEq, Eq, Structural, Debug)]
pub struct DomainBudget {
    pub n_scan: u16,
    pub n_bisect: u16,
}

/// What the caller observed after carrying out the prescribed numerical
/// action of the discovery.
#[derive(Clone, Copy, PartialEq, Eq, Structural, Debug)]
pub struct DomainObs {
    /// `F(probe) >= 0` at the current probe.
    pub value_nonneg: bool,
    /// `F'(probe) > 0` at the current probe.
    pub deriv_positive: bool,
    /// The scanning probe has reached `pi`.
    pub reached_pi: bool,
    /// The bracket width has fallen below `eps`.
    pub width_small: bool,
}

/// What the caller must do next with its bracket `[lo, hi]`.
#[derive(Clone, Copy, PartialEq, Eq, Structural, Debug)]
pub enum DomainAction {
    /// Advance the probe by one `step`.
    Advance,
    /// Keep the upper half: set `lo` to the midpoint.
    MoveLo,
    /// Keep the lower half: set `hi` to the midpoint.
    MoveHi,
    /// No bracket work: the phase changed or the discovery ended.
    Hold,
}

/// Why a discovery failed: the construction-time errors of a radial
/// polynomial projection.
#[derive(Clone, Copy, PartialEq, Eq, Structural, Debug)]
pub enum DomainFailure {
    /// The polynomial is negative over all of `[0, pi]`.
    NeverNonNegative,
    /// The derivative is not positive at the start of the candidate
    /// interval: no usable monotone region at all.
    NotIncreasingAtStart,
}

/// The state of the domain-of-validity discovery: find the smallest angle
/// where the defining function turns non-negative, check that it is
/// increasing there, then find where its derivative stops being positive.
#[derive(Clone, Copy, PartialEq, Eq, Structural, Debug)]
pub enum DomainState {
    /// Scanning upward for the first non-negative value of `F`.
    ScanValue { left: u16 },
    /// Narrowing down the smallest non-negative angle by dichotomy.
    BisectValue { left: u16 },
    /// Checking the sign of `F'` at the discovered lower end.
    DerivCheck,
    /// Scanning upward for the first non-positive value of `F'`.
    ScanDeriv { left: u16 },
    /// Narrowing down the end of the monotone region by dichotomy.
    BisectDeriv { left: u16 },
    /// The interval is found; `to_pi` tells whether the derivative stayed
    /// positive all the way, so the interval ends at `pi` itself.
    Done { to_pi: bool },
    /// Construction must fail.
    Failed { reason: DomainFailure },
}

/// Upper bound on the number of discovery steps left.
pub open spec fn domain_measure(s: DomainState, b: DomainBudget) -> nat {
    match s {
        DomainState::ScanValue { left } =>
            (left + 1 + b.n_bisect + 2 + b.n_scan + 1 + b.n_bisect + 1) as nat,
        DomainState::BisectValue { left } =>
            (left + 2 + b.n_scan + 1 + b.n_bisect + 1) as nat,
        DomainState::DerivCheck => (1 + b.n_scan + 1 + b.n_bisect + 1) as nat,
        DomainState::ScanDeriv { left } => (left + 1 + b.n_bisect + 1) as nat,
        DomainState::BisectDeriv { left } => (left + 1) as nat,
        DomainState::Done { .. } => 0,
        DomainState::Failed { .. } => 0,
    }
}

impl DomainState {
    /// The starting state: when the value at angle zero is already
    /// non-negative the lower end is zero and only the derivative phases
    /// run, exactly as the discovery behaves.
    pub fn start(f0_nonneg: bool, b: &DomainBudget) -> (r: DomainState)
        ensures
            f0_nonneg ==> r == (DomainState::DerivCheck {}),
            !f0_nonneg ==> r == (DomainState::ScanValue { left: b.n_scan }),
    {
        if f0_nonneg {
            DomainState::DerivCheck
        } else {
            DomainState::ScanValue { left: b.n_scan }
        }
    }

    /// Whether the discovery has ended, in success or failure.
    pub fn is_over(&self) -> (r: bool)
        ensures
            r <==> (self is Done || self is Failed),
    {
        match self {
            DomainState::Done { .. } => true,
            DomainState::Failed { .. } => true,
            _ => false,
        }
    }

    /// One decision of the discovery, from the caller's observation; the
    /// returned action tells the caller what to do with its probe or
    /// bracket.  The measure strictly decreases, so the discovery ends
    /// within `n_scan + n_bisect + 2` steps per phase pair, whatever is
    /// observed.
    pub fn step(&self, obs: &DomainObs, b: &DomainBudget) -> (r: (DomainState, DomainAction))
        requires
            !(self is Done),
            !(self is Failed),
        ensures
            // Value scan: stop at the first non-negative value; fail at pi.
            self is ScanValue && obs.value_nonneg
                ==> r == (DomainState::BisectValue { left: b.n_bisect }, DomainAction::Hold),
            self is ScanValue && !obs.value_nonneg && (obs.reached_pi || self->ScanValue_left == 0)
                ==> r == (DomainState::Failed { reason: DomainFailure::NeverNonNegative },
                    DomainAction::Hold),
            self is ScanValue && !obs.value_nonneg && !obs.reached_pi && self->ScanValue_left > 0
                ==> r == (DomainState::ScanValue { left: (self->ScanValue_left - 1) as u16 },
                    DomainAction::Advance),
            // Value dichotomy: a negative midpoint keeps the upper half.
            self is BisectValue && (obs.width_small || self->BisectValue_left == 0)
                ==> r == (DomainState::DerivCheck {}, DomainAction::Hold),
            self is BisectValue && !obs.width_small && self->BisectValue_left > 0
                ==> r == (DomainState::BisectValue {
                        left: (self->BisectValue_left - 1) as u16,
                    }, if obs.value_nonneg { DomainAction::MoveHi } else { DomainAction::MoveLo }),
            // The derivative must be positive where the interval starts.
            self is DerivCheck && !obs.deriv_positive
                ==> r == (DomainState::Failed { reason: DomainFailure::NotIncreasingAtStart },
                    DomainAction::Hold),
            self is DerivCheck && obs.deriv_positive
                ==> r == (DomainState::ScanDeriv { left: b.n_scan }, DomainAction::Hold),
            // Derivative scan: a derivative positive all the way to pi
            // means the whole of `[lower end, pi]` is monotone.
            self is ScanDeriv && obs.deriv_positive
                && (obs.reached_pi || self->ScanDeriv_left == 0)
                ==> r == (DomainState::Done { to_pi: true }, DomainAction::Hold),
            self is ScanDeriv && obs.deriv_positive && !obs.reached_pi
                && self->ScanDeriv_left > 0
                ==> r == (DomainState::ScanDeriv { left: (self->ScanDeriv_left - 1) as u16 },
                    DomainAction::Advance),
            self is ScanDeriv && !obs.deriv_positive
                ==> r == (DomainState::BisectDeriv { left: b.n_bisect }, DomainAction::Hold),
            // Derivative dichotomy: a non-positive midpoint keeps the lower
            // half.
            self is BisectDeriv && (obs.width_small || self->BisectDeriv_left == 0)
                ==> r == (DomainState::Done { to_pi: false }, DomainAction::Hold),
            self is BisectDeriv && !obs.width_small && self->BisectDeriv_left > 0
                ==> r == (DomainState::BisectDeriv {
                        left: (self->BisectDeriv_left - 1) as u16,
                    }, if obs.deriv_positive { DomainAction::MoveLo } else { DomainAction::MoveHi }),
            // Termination: the measure strictly decreases on every step.
            domain_measure(r.0, *b) < domain_measure(*self, *b),
    {
        match *self {
            DomainState::ScanValue { left } => {
                if obs.value_nonneg {
                    (DomainState::BisectValue { left: b.n_bisect }, DomainAction::Hold)
                } else if obs.reached_pi || left == 0 {
                    (
                        DomainState::Failed { reason: DomainFailure::NeverNonNegative },
                        DomainAction::Hold,
                    )
                } else {
                    (DomainState::ScanValue { left: left - 1 }, DomainAction::Advance)
                }
            },
            DomainState::BisectValue { left } => {
                if obs.width_small || left == 0 {
                    (DomainState::DerivCheck, DomainAction::Hold)
                } else {
                    let act = if obs.value_nonneg {
                        DomainAction::MoveHi
                    } else {
                        DomainAction::MoveLo
                    };
                    (DomainState::BisectValue { left: left - 1 }, act)
                }
            },
            DomainState::DerivCheck => {
                if obs.deriv_positive {
                    (DomainState::ScanDeriv { left: b.n_scan }, DomainAction::Hold)
                } else {
                    (
                        DomainState::Failed { reason: DomainFailure::NotIncreasingAtStart },
                        DomainAction::Hold,
                    )
                }
            },
            DomainState::ScanDeriv { left } => {
                if !obs.deriv_positive {
                    (DomainState::BisectDeriv { left: b.n_bisect }, DomainAction::Hold)
                } else if obs.reached_pi || left == 0 {
                    (DomainState::Done { to_pi: true }, DomainAction::Hold)
                } else {
                    (DomainState::ScanDeriv { left: left - 1 }, DomainAction::Advance)
                }
            },
            DomainState::BisectDeriv { left } => {
                if obs.width_small || left == 0 {
                    (DomainState::Done { to_pi: false }, DomainAction::Hold)
                } else {
                    let act = if obs.deriv_positive {
                        DomainAction::MoveLo
                    } else {
                        DomainAction::MoveHi
                    };
                    (DomainState::BisectDeriv { left: left - 1 }, act)
                }
            },
            DomainState::Done { to_pi } => (DomainState::Done { to_pi }, DomainAction::Hold),
            DomainState::Failed { reason } => {
                (DomainState::Failed { reason }, DomainAction::Hold)
            },
        }
    }
}

} // verus!
