//! The decision logic of the robust one-dimensional inverter.

use mapproj::solver::{
    newton_verdict, NewtonVerdict, SolverBudget, SolverObs, SolverState,
};
use mapproj::zpn::{DomainAction, DomainBudget, DomainFailure, DomainObs, DomainState};

fn obs(residual_small: bool, in_domain: bool) -> SolverObs {
    SolverObs {
        residual_small,
        in_domain,
        near_lo: false,
        near_hi: false,
        bracket_narrow: false,
        span_small: false,
    }
}

#[test]
fn verdict_classification() {
    assert_eq!(newton_verdict(true, true, false, false), NewtonVerdict::Accept);
    assert_eq!(newton_verdict(true, false, true, false), NewtonVerdict::ClampLo);
    assert_eq!(newton_verdict(true, false, false, true), NewtonVerdict::ClampHi);
    assert_eq!(newton_verdict(true, false, false, false), NewtonVerdict::Reject);
    assert_eq!(newton_verdict(false, true, false, false), NewtonVerdict::Accept);
    assert_eq!(newton_verdict(false, false, true, true), NewtonVerdict::Reject);
}

#[test]
fn newton_converges_immediately() {
    let b = SolverBudget { n_newton: 20, n_bracket: 30, n_bisect: 40 };
    let s = SolverState::start(&b);
    assert!(!s.is_done());
    let s = s.step(&obs(true, true), &b);
    assert_eq!(s, SolverState::Done { accepted: true });
}

#[test]
fn newton_budget_counts_down_then_falls_back() {
    let b = SolverBudget { n_newton: 2, n_bracket: 3, n_bisect: 2 };
    let mut s = SolverState::start(&b);
    assert_eq!(s, SolverState::Newton { retried: false, left: 2 });
    // Two failed Newton iterations exhaust the budget.
    s = s.step(&obs(false, false), &b);
    assert_eq!(s, SolverState::Newton { retried: false, left: 1 });
    s = s.step(&obs(false, false), &b);
    assert_eq!(s, SolverState::Newton { retried: false, left: 0 });
    // Budget over, out of domain: reject, fall back to the bracket tier.
    s = s.step(&obs(false, false), &b);
    assert_eq!(s, SolverState::Bracket { left: 3 });
    // The bracket narrows: Newton restarts from the midpoint.
    s = s.step(
        &SolverObs { bracket_narrow: true, ..obs(false, false) },
        &b,
    );
    assert_eq!(s, SolverState::Newton { retried: true, left: 2 });
    // A converged-but-out-of-domain retry goes to the final dichotomy.
    s = s.step(&obs(true, false), &b);
    assert_eq!(s, SolverState::Bisect { left: 2 });
    // The final dichotomy always finishes.
    s = s.step(&obs(false, false), &b);
    assert_eq!(s, SolverState::Bisect { left: 1 });
    s = s.step(&obs(false, false), &b);
    assert_eq!(s, SolverState::Bisect { left: 0 });
    s = s.step(&obs(false, false), &b);
    assert_eq!(s, SolverState::Done { accepted: true });
}

#[test]
fn solver_always_terminates_within_the_bound() {
    // Whatever the observations, the inverter finishes within
    // 2*n_newton + n_bracket + n_bisect + 4 decisions.
    let b = SolverBudget { n_newton: 5, n_bracket: 7, n_bisect: 9 };
    let bound: u32 = 2 * 5 + 7 + 9 + 4;
    // Adversarial observations: never converge, never narrow.
    let mut s = SolverState::start(&b);
    let mut steps: u32 = 0;
    while !s.is_done() {
        s = s.step(&obs(false, false), &b);
        steps += 1;
        assert!(steps <= bound);
    }
    // A run that accepts at the clamped upper edge.
    let mut s = SolverState::start(&b);
    let o = SolverObs { residual_small: true, near_hi: true, ..obs(true, false) };
    s = s.step(&o, &b);
    assert_eq!(s, SolverState::Done { accepted: true });
}

#[test]
fn domain_discovery_runs_both_phases() {
    let b = DomainBudget { n_scan: 4, n_bisect: 2 };
    // F(0) >= 0: straight to the derivative check, as for a polynomial
    // with a non-negative constant term.
    let mut s = DomainState::start(true, &b);
    assert_eq!(s, DomainState::DerivCheck);
    let pos = DomainObs {
        value_nonneg: true,
        deriv_positive: true,
        reached_pi: false,
        width_small: false,
    };
    let (next, act) = s.step(&pos, &b);
    assert_eq!(next, DomainState::ScanDeriv { left: 4 });
    assert_eq!(act, DomainAction::Hold);
    s = next;
    // The derivative turns non-positive at the second probe: dichotomy.
    let (next, act) = s.step(&pos, &b);
    assert_eq!(next, DomainState::ScanDeriv { left: 3 });
    assert_eq!(act, DomainAction::Advance);
    s = next;
    let neg = DomainObs { deriv_positive: false, ..pos };
    let (next, _) = s.step(&neg, &b);
    assert_eq!(next, DomainState::BisectDeriv { left: 2 });
    s = next;
    // A positive midpoint keeps the upper half, then the bracket narrows.
    let (next, act) = s.step(&pos, &b);
    assert_eq!(next, DomainState::BisectDeriv { left: 1 });
    assert_eq!(act, DomainAction::MoveLo);
    s = next;
    let (next, _) = s.step(&DomainObs { width_small: true, ..pos }, &b);
    assert_eq!(next, DomainState::Done { to_pi: false });
    // A derivative negative at the very start refuses construction.
    let s = DomainState::start(true, &b);
    let (next, _) = s.step(&neg, &b);
    assert_eq!(
        next,
        DomainState::Failed { reason: DomainFailure::NotIncreasingAtStart }
    );
    // A polynomial negative over all of [0, pi] refuses construction.
    let mut s = DomainState::start(false, &b);
    let off = DomainObs { value_nonneg: false, ..pos };
    loop {
        let (next, _) = s.step(&DomainObs { reached_pi: true, ..off }, &b);
        s = next;
        if s.is_over() {
            break;
        }
    }
    assert_eq!(s, DomainState::Failed { reason: DomainFailure::NeverNonNegative });
}
