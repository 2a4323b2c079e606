//! The strong-Wolfe line search: bracketing, zoom and cubic interpolation.
//!
//! `find_alpha` caches the value and directional derivative at step zero,
//! brackets a step length that satisfies the sufficient-decrease and
//! curvature conditions by doubling, and narrows the bracket by cubic
//! interpolation in the zoom phase.  The ghost `outcome` field classifies
//! every exit: an accepted step carries the evaluation that passed both
//! Wolfe tests, an exhausted zoom returns step zero, a trial within one
//! percent of `alpha_max` aborts with that trial, and an exhausted
//! bracketing budget returns the last tried step with nothing promised of
//! it.  The evaluation counters only grow, and the tuning parameters and
//! the cached values are never changed behind the caller's back.

use vstd::prelude::*;
use crate::fp::Fp;
use crate::fp::add_bits;
use crate::fp::sub_bits;
use crate::fp::mul_bits;
use crate::fp::div_bits;
use crate::fp::powi_bits;
use crate::fp::sqrt_bits;
use crate::fp::lt_bits;
use crate::fp::le_bits;
use crate::fp::abs_bits;
use crate::fp::neg_bits;
use crate::fp::is_zero_bits;
use crate::fp::TWO_BITS;
use crate::linalg;
use crate::linalg::dot_bits;
use crate::number_system::dual::Dual;
use crate::number_system::dual_scalar::DualScalar;
use crate::problem::Objective;
use crate::problem::Gradient;
use crate::solution::inc;
use crate::solution::inc_spec;

verus! {

/// Bit pattern of `3.0`.
pub const THREE_BITS: u64 = 0x4008_0000_0000_0000;
/// Bit pattern of the default sufficient-decrease constant `1e-4`.
pub const C1_DEFAULT_BITS: u64 = 0x3F1A_36E2_EB1C_432D;
/// Bit pattern of the default curvature constant `0.9`.
pub const C2_DEFAULT_BITS: u64 = 0x3FEC_CCCC_CCCC_CCCD;
/// Bit pattern of the default largest step `1e3`.
pub const ALPHA_MAX_DEFAULT_BITS: u64 = 0x408F_4000_0000_0000;
/// Bit pattern of `1e-2`, the relative closeness to `alpha_max` at which
/// bracketing aborts.
pub const ONE_PERCENT_BITS: u64 = 0x3F84_7AE1_47AE_147B;

/// The values a solver hands the line search for one iteration: the
/// current point, its evaluation, the search direction and the initial
/// step guess.
#[derive(Clone, Debug)]
pub struct StepValues {
    pub x_k: Vec<Fp>,
    pub f_k: Dual,
    pub p_k: Vec<Fp>,
    pub alpha_1: Fp,
}

impl StepValues {
    /// The point, evaluation and direction all share one dimension.
    pub open spec fn wf(self) -> bool {
        self.x_k@.len() == self.p_k@.len() && self.f_k.dim() == self.p_k@.len()
    }
}

/// How a search ended: with a step whose evaluation passed both Wolfe
/// tests, with step zero from an exhausted zoom, with the trial that came
/// within one percent of `alpha_max`, or with the last trial of an
/// exhausted bracketing budget.
pub enum SearchOutcome {
    Accepted(DualScalar),
    ZoomExhausted,
    NearAlphaMax,
    TrialsExhausted,
}

/// Whether the sufficient-decrease condition fails for a step `alpha`
/// whose evaluation has value `phi_re`: `φ(alpha) > φ(0) + c1·alpha·φ'(0)`.
pub open spec fn sufficient_decrease_fails(phi_0: DualScalar, c1: u64, alpha: u64, phi_re: u64) -> bool {
    lt_bits(add_bits(phi_0.re.bits, mul_bits(mul_bits(c1, alpha), phi_0.du.bits)), phi_re)
}

/// Whether the strong curvature condition holds for an evaluation with
/// derivative `phi_du`: `|φ'(alpha)| <= -c2·φ'(0)`.
pub open spec fn curvature_ok(phi_0: DualScalar, c2: u64, phi_du: u64) -> bool {
    le_bits(abs_bits(phi_du), mul_bits(neg_bits(c2), phi_0.du.bits))
}

/// Whether the evaluation `phi` certifies the step `alpha` under the
/// search's cached `φ(0)` pair and constants: sufficient decrease holds
/// and so does the strong curvature condition.
pub open spec fn wolfe_accepted(ls: LineSearch, phi: DualScalar, alpha: Fp) -> bool {
    !sufficient_decrease_fails(ls.phi_0, ls.c1.bits, alpha.bits, phi.re.bits) && curvature_ok(
        ls.phi_0,
        ls.c2.bits,
        phi.du.bits,
    )
}

/// What the search's outcome says of its result `r`: an accepted step
/// passed both Wolfe tests under the cached pair, an exhausted zoom
/// returned step zero, the `alpha_max` abort returned a step within one
/// percent of `alpha_max`, and an exhausted bracketing budget promises
/// nothing of the last trial.
pub open spec fn search_outcome_ok(ls: LineSearch, r: Fp) -> bool {
    match ls.outcome@ {
        SearchOutcome::Accepted(phi) => wolfe_accepted(ls, phi, r),
        SearchOutcome::ZoomExhausted => r.bits == 0,
        SearchOutcome::NearAlphaMax => lt_bits(
            abs_bits(div_bits(sub_bits(r.bits, ls.alpha_max.bits), ls.alpha_max.bits)),
            ONE_PERCENT_BITS,
        ),
        SearchOutcome::TrialsExhausted => true,
    }
}

/// The minimizer of the cubic through two `(step, value, slope)` pairs,
/// clamped from above to `alpha_max`; the closed form of Nocedal & Wright.
pub open spec fn cubic_bits(
    a_im1: u64,
    re_im1: u64,
    du_im1: u64,
    a_i: u64,
    re_i: u64,
    du_i: u64,
    alpha_max: u64,
) -> u64 {
    let d1 = sub_bits(
        add_bits(du_im1, du_i),
        div_bits(mul_bits(THREE_BITS, sub_bits(re_im1, re_i)), sub_bits(a_im1, a_i)),
    );
    let d2 = sqrt_bits(sub_bits(powi_bits(d1, 2), mul_bits(du_im1, du_i)));
    let na = sub_bits(
        a_i,
        div_bits(
            mul_bits(sub_bits(a_i, a_im1), sub_bits(add_bits(du_i, d2), d1)),
            add_bits(sub_bits(du_i, du_im1), mul_bits(TWO_BITS, d2)),
        ),
    );
    if lt_bits(alpha_max, na) {
        alpha_max
    } else {
        na
    }
}

/// The strong-Wolfe line search state: tuning parameters, saturating
/// evaluation counters, the cached evaluation at step zero, and the ghost
/// classification of the last search's exit.
pub struct LineSearch {
    /// Sufficient-decrease constant.
    pub c1: Fp,
    /// Curvature constant.
    pub c2: Fp,
    /// Cap on bracketing trials and on zoom iterations.
    pub i_max: u32,
    /// Largest step length considered.
    pub alpha_max: Fp,
    /// Objective evaluations made.
    pub f_calls: u32,
    /// Derivative evaluations made.
    pub f_grad_calls: u32,
    /// The value and directional derivative at step zero.
    pub phi_0: DualScalar,
    /// How the last search ended.
    pub outcome: Ghost<SearchOutcome>,
}

impl LineSearch {
    /// The tuning parameters `self` keeps fixed across a search.
    pub open spec fn same_config(self, other: LineSearch) -> bool {
        self.c1 == other.c1 && self.c2 == other.c2 && self.i_max == other.i_max
            && self.alpha_max == other.alpha_max
    }

    /// A line search with the default parameters: `c1 = 1e-4`, `c2 = 0.9`,
    /// at most 100 iterations per phase, `alpha_max = 1e3`, counters at
    /// zero.
    pub fn new() -> (r: LineSearch)
        ensures
            r.c1.bits == C1_DEFAULT_BITS,
            r.c2.bits == C2_DEFAULT_BITS,
            r.i_max == 100,
            r.alpha_max.bits == ALPHA_MAX_DEFAULT_BITS,
            r.f_calls == 0,
            r.f_grad_calls == 0,
            r.phi_0.re.bits == 0,
            r.phi_0.du.bits == 0,
    {
        LineSearch {
            c1: Fp::from_bits(C1_DEFAULT_BITS),
            c2: Fp::from_bits(C2_DEFAULT_BITS),
            i_max: 100,
            alpha_max: Fp::from_bits(ALPHA_MAX_DEFAULT_BITS),
            f_calls: 0,
            f_grad_calls: 0,
            phi_0: DualScalar::new(),
            outcome: Ghost(SearchOutcome::TrialsExhausted),
        }
    }

    /// Caches the evaluation at step zero: the current value, and the dot
    /// of the gradient with the search direction.
    pub fn set_phi_0(&mut self, step: &StepValues)
        requires
            step.wf(),
        ensures
            final(self).same_config(*old(self)),
            final(self).outcome == old(self).outcome,
            final(self).f_calls == old(self).f_calls,
            final(self).f_grad_calls == old(self).f_grad_calls,
            final(self).phi_0.re == step.f_k.re,
            final(self).phi_0.du.bits == dot_bits(step.f_k.du@, step.p_k@),
    {
        let du = linalg::dot(&step.f_k.du, &step.p_k);
        self.phi_0 = DualScalar { re: step.f_k.re, du };
    }

    /// Evaluates `φ(alpha) = f(x + alpha·p)` and its derivative.  At step
    /// zero the cached `phi_0` is returned and nothing is evaluated;
    /// otherwise both counters are bumped once and the result is whatever
    /// the problem's evaluation produced.
    pub fn eval_phi<P: Objective + Gradient>(
        &mut self,
        step: &StepValues,
        alpha: Fp,
        problem: &mut P,
    ) -> (r: DualScalar)
        requires
            step.wf(),
        ensures
            final(self).same_config(*old(self)),
            final(self).phi_0 == old(self).phi_0,
            final(self).outcome == old(self).outcome,
            is_zero_bits(alpha.bits) ==> r == old(self).phi_0 && final(self).f_calls == old(
                self,
            ).f_calls && final(self).f_grad_calls == old(self).f_grad_calls,
            !is_zero_bits(alpha.bits) ==> final(self).f_calls == inc_spec(old(self).f_calls)
                && final(self).f_grad_calls == inc_spec(old(self).f_grad_calls),
    {
        if alpha.is_zero() {
            self.phi_0
        } else {
            self.f_calls = inc(self.f_calls);
            self.f_grad_calls = inc(self.f_grad_calls);
            problem.move_step(&step.x_k, &step.p_k, alpha);
            let re = problem.eval_real();
            let du = problem.diff();
            DualScalar { re, du }
        }
    }

    /// The cubic-interpolation trial step between two bracket endpoints,
    /// clamped to `alpha_max`.
    pub fn cubic_interpolation(
        &self,
        alpha_im1: Fp,
        phi_im1: &DualScalar,
        alpha_i: Fp,
        phi_i: &DualScalar,
    ) -> (r: Fp)
        ensures
            r.bits == cubic_bits(
                alpha_im1.bits,
                phi_im1.re.bits,
                phi_im1.du.bits,
                alpha_i.bits,
                phi_i.re.bits,
                phi_i.du.bits,
                self.alpha_max.bits,
            ),
    {
        let three = Fp::from_bits(THREE_BITS);
        let two = Fp::from_bits(TWO_BITS);
        let d1 = phi_im1.du.add(phi_i.du).sub(
            three.mul(phi_im1.re.sub(phi_i.re)).div(alpha_im1.sub(alpha_i)),
        );
        let d2 = d1.powi(2).sub(phi_im1.du.mul(phi_i.du)).sqrt();
        let new_alpha = alpha_i.sub(
            alpha_i.sub(alpha_im1).mul(phi_i.du.add(d2).sub(d1)).div(
                phi_i.du.sub(phi_im1.du).add(two.mul(d2)),
            ),
        );
        if new_alpha.gt(self.alpha_max) {
            self.alpha_max
        } else {
            new_alpha
        }
    }

    /// Whether the sufficient-decrease condition fails at `alpha`.
    fn insufficient_decrease(&self, phi: &DualScalar, alpha: Fp) -> (r: bool)
        ensures
            r == sufficient_decrease_fails(self.phi_0, self.c1.bits, alpha.bits, phi.re.bits),
    {
        phi.re.gt(self.phi_0.re.add(self.c1.mul(alpha).mul(self.phi_0.du)))
    }

    /// Whether the strong curvature condition holds at the evaluation.
    fn curvature_holds(&self, phi: &DualScalar) -> (r: bool)
        ensures
            r == curvature_ok(self.phi_0, self.c2.bits, phi.du.bits),
    {
        phi.du.abs().le(self.c2.neg().mul(self.phi_0.du))
    }

    /// The bracketing phase: doubles the trial step until the Wolfe
    /// conditions hold or a bracket is found and handed to `zoom`.  When a
    /// trial comes within one percent of `alpha_max`, or the trial budget
    /// runs out, the phase aborts and returns the last tried step, with
    /// the outcome saying so.
    fn line_search<P: Objective + Gradient>(&mut self, step: &StepValues, problem: &mut P) -> (r:
        Fp)
        requires
            step.wf(),
        ensures
            final(self).same_config(*old(self)),
            final(self).phi_0 == old(self).phi_0,
            final(self).f_calls >= old(self).f_calls,
            final(self).f_grad_calls >= old(self).f_grad_calls,
            search_outcome_ok(*final(self), r),
    {
        let ghost pre = *old(self);
        let two = Fp::from_bits(TWO_BITS);
        let close = Fp::from_bits(ONE_PERCENT_BITS);
        let mut alpha_im1 = Fp::zero();
        let mut phi_im1 = self.phi_0;
        let mut alpha_i = step.alpha_1;
        let mut phi_i = self.eval_phi(step, alpha_i, problem);
        let mut alpha_star = alpha_i;
        self.outcome = Ghost(SearchOutcome::TrialsExhausted);
        let mut i: u32 = 1;
        while i < self.i_max
            invariant_except_break
                self.outcome@ == SearchOutcome::TrialsExhausted,
            invariant
                step.wf(),
                close.bits == ONE_PERCENT_BITS,
                self.same_config(pre),
                self.phi_0 == pre.phi_0,
                self.f_calls >= pre.f_calls,
                self.f_grad_calls >= pre.f_grad_calls,
                search_outcome_ok(*self, alpha_star),
            decreases self.i_max - i,
        {
            if self.insufficient_decrease(&phi_i, alpha_i) || (phi_i.re.ge(phi_im1.re) && i
                > 1) {
                alpha_star = self.zoom(step, alpha_im1, phi_im1, alpha_i, phi_i, problem);
                break ;
            }
            if self.curvature_holds(&phi_i) {
                alpha_star = alpha_i;
                self.outcome = Ghost(SearchOutcome::Accepted(phi_i));
                break ;
            }
            if phi_i.du.ge(Fp::zero()) {
                alpha_star = self.zoom(step, alpha_im1, phi_im1, alpha_i, phi_i, problem);
                break ;
            }
            alpha_im1 = alpha_i;
            alpha_i = two.mul(alpha_i);
            phi_im1 = phi_i;
            phi_i = self.eval_phi(step, alpha_i, problem);
            alpha_star = alpha_i;
            i = i + 1;
            if alpha_i.sub(self.alpha_max).div(self.alpha_max).abs().lt(close) {
                self.outcome = Ghost(SearchOutcome::NearAlphaMax);
                break ;
            }
        }
        alpha_star
    }

    /// The zoom phase: narrows `[alpha_lo, alpha_hi]` by cubic trials,
    /// reordering an inverted bracket, until the Wolfe conditions hold or
    /// the iteration cap is spent; an exhausted cap returns step zero,
    /// which the caller must treat as a failed search, and the outcome
    /// says which happened.
    fn zoom<P: Objective + Gradient>(
        &mut self,
        step: &StepValues,
        alpha_lo_in: Fp,
        phi_lo_in: DualScalar,
        alpha_hi_in: Fp,
        phi_hi_in: DualScalar,
        problem: &mut P,
    ) -> (r: Fp)
        requires
            step.wf(),
        ensures
            final(self).same_config(*old(self)),
            final(self).phi_0 == old(self).phi_0,
            final(self).f_calls >= old(self).f_calls,
            final(self).f_grad_calls >= old(self).f_grad_calls,
            final(self).outcome@ is Accepted || final(self).outcome@ is ZoomExhausted,
            search_outcome_ok(*final(self), r),
    {
        let ghost pre = *old(self);
        let mut alpha_lo = alpha_lo_in;
        let mut phi_lo = phi_lo_in;
        let mut alpha_hi = alpha_hi_in;
        let mut phi_hi = phi_hi_in;
        let mut alpha_j = self.cubic_interpolation(alpha_lo, &phi_lo, alpha_hi, &phi_hi);
        let mut phi_j = self.eval_phi(step, alpha_j, problem);
        let mut alpha_star = Fp::zero();
        self.outcome = Ghost(SearchOutcome::ZoomExhausted);
        let mut j: u32 = 1;
        while j < self.i_max
            invariant
                self.outcome@ is Accepted || self.outcome@ is ZoomExhausted,
                step.wf(),
                self.same_config(pre),
                self.phi_0 == pre.phi_0,
                self.f_calls >= pre.f_calls,
                self.f_grad_calls >= pre.f_grad_calls,
                search_outcome_ok(*self, alpha_star),
            decreases self.i_max - j,
        {
            if self.insufficient_decrease(&phi_j, alpha_j) || phi_j.re.ge(phi_lo.re) {
                alpha_hi = alpha_j;
                phi_hi = phi_j;
            } else {
                if self.curvature_holds(&phi_j) {
                    alpha_star = alpha_j;
                    self.outcome = Ghost(SearchOutcome::Accepted(phi_j));
                    break ;
                }
                if phi_j.du.mul(alpha_hi.sub(alpha_lo)).ge(Fp::zero()) {
                    alpha_hi = alpha_lo;
                    phi_hi = phi_lo;
                }
                alpha_lo = alpha_j;
                phi_lo = phi_j;
            }
            if alpha_lo.gt(alpha_hi) {
                let tmp = alpha_lo;
                alpha_lo = alpha_hi;
                alpha_hi = tmp;
                let tmp_phi = phi_lo;
                phi_lo = phi_hi;
                phi_hi = tmp_phi;
            }
            alpha_j = self.cubic_interpolation(alpha_lo, &phi_lo, alpha_hi, &phi_hi);
            phi_j = self.eval_phi(step, alpha_j, problem);
            j = j + 1;
        }
        alpha_star
    }

    /// Runs the whole search: caches `φ(0)` and `φ'(0)` from the step's
    /// evaluation, then brackets and zooms.  Afterwards the cached pair is
    /// exactly the handed-in value and gradient·direction, the counters
    /// have only grown, the tuning parameters are unchanged, and the ghost
    /// outcome classifies the result: an accepted step passed both strong
    /// Wolfe tests under the cached pair, an exhausted zoom returned step
    /// zero, and an aborted bracketing returned its last trial.
    pub fn find_alpha<P: Objective + Gradient>(&mut self, step: &StepValues, problem: &mut P) -> (r:
        Fp)
        requires
            step.wf(),
        ensures
            final(self).same_config(*old(self)),
            final(self).phi_0.re == step.f_k.re,
            final(self).phi_0.du.bits == dot_bits(step.f_k.du@, step.p_k@),
            final(self).f_calls >= old(self).f_calls,
            final(self).f_grad_calls >= old(self).f_grad_calls,
            search_outcome_ok(*final(self), r),
    {
        self.set_phi_0(step);
        self.line_search(step, problem)
    }
}

} // verus!
