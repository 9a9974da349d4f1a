//! Control logic of the robust one-dimensional inverter.
//!
//! Several projections invert `distance = F(angle)` for a function `F` that
//! is monotone on a validated interval but has no closed-form inverse.  The
//! numerical strategy is Newton-Raphson with a two-tier dichotomy fallback:
//! Newton up to an iteration budget; if it fails or lands outside the
//! validated domain, a dichotomy narrows the bracket down to a step
//! threshold and Newton restarts from the midpoint; if that fails too, a
//! final dichotomy runs down to the residual tolerance.
//!
//! The floating-point work (evaluating `F` and `F'`, comparing against the
//! tolerances) is the caller's; it cannot be carried out here.  What is
//! verified is every decision: which action follows from each observation
//! ([`SolverState::step`]), how a finished Newton run is classified
//! ([`newton_verdict`]), and that the whole strategy terminates within the
//! declared budgets, whatever the observations are ([`SolverState::step`]'s
//! decreasing measure and [`lemma_solver_starts_bounded`]).

use vstd::prelude::*;

verus! {

/// Iteration budgets of the inverter: the Newton budget (`n_iter` of the
/// projection), and the bounds on the two dichotomy tiers.
#[derive(Clone, Copy, PartialEq, Eq, Structural, Debug)]
pub struct SolverBudget {
    /// Largest number of Newton iterations per Newton run.
    pub n_newton: u8,
    /// Largest number of bracket halvings before Newton restarts.
    pub n_bracket: u8,
    /// Largest number of halvings of the final dichotomy.
    pub n_bisect: u8,
}

/// How a finished Newton run is classified.
#[derive(Clone, Copy, PartialEq, Eq, Structural, Debug)]
pub enum NewtonVerdict {
    /// The iterate is taken as the answer.
    Accept,
    /// The iterate is clamped to the lower end of the validated domain.
    ClampLo,
    /// The iterate is clamped to the upper end of the validated domain.
    ClampHi,
    /// The run failed; the fallback tier runs next.
    Reject,
}

/// What the caller observed after carrying out the prescribed numerical
/// action.  Every field reports one floating-point comparison.
#[derive(Clone, Copy, PartialEq, Eq, Structural, Debug)]
pub struct SolverObs {
    /// `|F(t) - target| <= eps` at the current iterate.
    pub residual_small: bool,
    /// The current iterate lies inside the validated domain.
    pub in_domain: bool,
    /// The iterate lies within `eps` below the domain's lower end.
    pub near_lo: bool,
    /// The iterate lies within `eps` above the domain's upper end.
    pub near_hi: bool,
    /// The bracket width has fallen below the step threshold.
    pub bracket_narrow: bool,
    /// The residual span of the final dichotomy is within `eps`.
    pub span_small: bool,
}

/// The state of the inverter between two numerical actions.
#[derive(Clone, Copy, PartialEq, Eq, Structural, Debug)]
pub enum SolverState {
    /// A Newton run; `retried` tells whether it was reseeded by the
    /// dichotomy fallback already.
    Newton { retried: bool, left: u8 },
    /// The bracket-narrowing dichotomy before Newton restarts.
    Bracket { left: u8 },
    /// The final dichotomy down to the residual tolerance.
    Bisect { left: u8 },
    /// The inverter has finished.
    Done { accepted: bool },
}

/// Classification of a finished Newton run, as the inverter applies it:
/// a converged iterate inside the domain (or an unconverged one that still
/// sits inside the domain) is accepted; a converged iterate within `eps`
/// outside the domain is clamped to the nearer end; everything else is
/// rejected and falls back to the dichotomy.
pub fn newton_verdict(converged: bool, in_domain: bool, near_lo: bool, near_hi: bool)
    -> (v: NewtonVerdict)
    ensures
        v == spec_verdict(converged, in_domain, near_lo, near_hi),
        converged && in_domain ==> v == NewtonVerdict::Accept,
        converged && !in_domain && near_lo ==> v == NewtonVerdict::ClampLo,
        converged && !in_domain && !near_lo && near_hi ==> v == NewtonVerdict::ClampHi,
        converged && !in_domain && !near_lo && !near_hi ==> v == NewtonVerdict::Reject,
        !converged && in_domain ==> v == NewtonVerdict::Accept,
        !converged && !in_domain ==> v == NewtonVerdict::Reject,
{
    if converged {
        if in_domain {
            NewtonVerdict::Accept
        } else if near_lo {
            NewtonVerdict::ClampLo
        } else if near_hi {
            NewtonVerdict::ClampHi
        } else {
            NewtonVerdict::Reject
        }
    } else {
        if in_domain {
            NewtonVerdict::Accept
        } else {
            NewtonVerdict::Reject
        }
    }
}

/// Upper bound on the number of steps left before the inverter finishes.
pub open spec fn solver_measure(s: SolverState, b: SolverBudget) -> nat {
    match s {
        SolverState::Newton { retried, left } => if retried {
            (left + 1 + b.n_bisect + 1) as nat
        } else {
            (left + 1 + b.n_bracket + 1 + b.n_newton + 1 + b.n_bisect + 1) as nat
        },
        SolverState::Bracket { left } => (left + 1 + b.n_newton + 1 + b.n_bisect + 1) as nat,
        SolverState::Bisect { left } => (left + 1) as nat,
        SolverState::Done { .. } => 0,
    }
}

impl SolverState {
    /// The starting state: a fresh Newton run with the full budget.
    pub fn start(b: &SolverBudget) -> (r: SolverState)
        ensures
            r == (SolverState::Newton { retried: false, left: b.n_newton }),
    {
        SolverState::Newton { retried: false, left: b.n_newton }
    }

    /// Whether the inverter has finished.
    pub fn is_done(&self) -> (r: bool)
        ensures
            r <==> self is Done,
    {
        match self {
            SolverState::Done { .. } => true,
            _ => false,
        }
    }

    /// One decision of the inverter, from the caller's observation.
    ///
    /// The contract pins each decision down, and the measure strictly
    /// decreases on every step, so the inverter terminates within
    /// `2*n_newton + n_bracket + n_bisect + 4` steps whatever the
    /// observations are: that is the solver-termination guarantee.
    pub fn step(&self, obs: &SolverObs, b: &SolverBudget) -> (r: SolverState)
        requires
            !(self is Done),
        ensures
            // Newton keeps iterating while the residual is large and budget remains.
            self is Newton && !obs.residual_small && self->Newton_left > 0
                ==> r == (SolverState::Newton {
                    retried: self->Newton_retried,
                    left: (self->Newton_left - 1) as u8,
                }),
            // A finished Newton run is classified by `newton_verdict`.
            self is Newton && (obs.residual_small || self->Newton_left == 0)
                ==> r == (match spec_verdict(obs.residual_small, obs.in_domain,
                        obs.near_lo, obs.near_hi) {
                    NewtonVerdict::Reject => if self->Newton_retried {
                        SolverState::Bisect { left: b.n_bisect }
                    } else {
                        SolverState::Bracket { left: b.n_bracket }
                    },
                    _ => SolverState::Done { accepted: true },
                }),
            // The bracket dichotomy halves until narrow, then reseeds Newton.
            self is Bracket && !obs.bracket_narrow && self->Bracket_left > 0
                ==> r == (SolverState::Bracket { left: (self->Bracket_left - 1) as u8 }),
            self is Bracket && (obs.bracket_narrow || self->Bracket_left == 0)
                ==> r == (SolverState::Newton { retried: true, left: b.n_newton }),
            // The final dichotomy halves until its residual span is small,
            // then always returns the midpoint.
            self is Bisect && !obs.span_small && self->Bisect_left > 0
                ==> r == (SolverState::Bisect { left: (self->Bisect_left - 1) as u8 }),
            self is Bisect && (obs.span_small || self->Bisect_left == 0)
                ==> r == (SolverState::Done { accepted: true }),
            // Termination: the measure strictly decreases on every step.
            solver_measure(r, *b) < solver_measure(*self, *b),
    {
        match *self {
            SolverState::Newton { retried, left } => {
                if obs.residual_small || left == 0 {
                    let v = newton_verdict(obs.residual_small, obs.in_domain, obs.near_lo,
                        obs.near_hi);
                    match v {
                        NewtonVerdict::Reject => {
                            if retried {
                                SolverState::Bisect { left: b.n_bisect }
                            } else {
                                SolverState::Bracket { left: b.n_bracket }
                            }
                        },
                        _ => SolverState::Done { accepted: true },
                    }
                } else {
                    SolverState::Newton { retried, left: left - 1 }
                }
            },
            SolverState::Bracket { left } => {
                if obs.bracket_narrow || left == 0 {
                    SolverState::Newton { retried: true, left: b.n_newton }
                } else {
                    SolverState::Bracket { left: left - 1 }
                }
            },
            SolverState::Bisect { left } => {
                if obs.span_small || left == 0 {
                    SolverState::Done { accepted: true }
                } else {
                    SolverState::Bisect { left: left - 1 }
                }
            },
            SolverState::Done { accepted } => SolverState::Done { accepted },
        }
    }
}

/// The ghost mirror of [`newton_verdict`].
pub open spec fn spec_verdict(converged: bool, in_domain: bool, near_lo: bool, near_hi: bool)
    -> NewtonVerdict {
    if converged {
        if in_domain {
            NewtonVerdict::Accept
        } else if near_lo {
            NewtonVerdict::ClampLo
        } else if near_hi {
            NewtonVerdict::ClampHi
        } else {
            NewtonVerdict::Reject
        }
    } else {
        if in_domain {
            NewtonVerdict::Accept
        } else {
            NewtonVerdict::Reject
        }
    }
}

/// Solver termination: the starting measure is the declared step bound, so
/// with [`SolverState::step`]'s strictly decreasing measure the inverter
/// finishes within `2*n_newton + n_bracket + n_bisect + 4` decisions, for
/// every sequence of observations.
pub proof fn lemma_solver_starts_bounded(b: SolverBudget)
    ensures
        solver_measure(SolverState::Newton { retried: false, left: b.n_newton }, b)
            == 2 * b.n_newton + b.n_bracket + b.n_bisect + 4,
{
}

} // verus!
