//! Steepest descent: the direction is always the negated gradient, and a
//! strong-Wolfe line search (tightened to `c2 = 0.1`) picks the step.

use vstd::prelude::*;
use crate::fp::Fp;
use crate::fp::sub_bits;
use crate::fp::mul_bits;
use crate::fp::div_bits;
use crate::fp::lt_bits;
use crate::fp::neg_bits;
use crate::fp::TWO_BITS;
use crate::linalg;
use crate::linalg::dot_bits;
use crate::linalg::norm_bits;
use crate::line_search::LineSearch;
use crate::line_search::StepValues;
use crate::number_system::dual::Dual;
use crate::problem::Objective;
use crate::problem::Gradient;
use crate::solution::Solution;
use crate::solution::inc;
use crate::solution::inc_spec;
use crate::solution::cadd;

verus! {

/// Bit pattern of the curvature constant `0.1` first-order solvers hand
/// the line search.
pub const C2_FIRST_ORDER_BITS: u64 = 0x3FB9_9999_9999_999A;
/// Bit pattern of the default gradient tolerance `1e-6`.
pub const GTOL_DEFAULT_BITS: u64 = 0x3EB0_C6F7_A0B5_ED8D;

/// The steepest-descent minimizer: iteration cap, gradient tolerance, and
/// the current iterate, direction and evaluation.
pub struct SteepestDescent {
    /// Iteration cap.
    pub i_max: u32,
    /// Gradient-norm tolerance for success.
    pub gtol: Fp,
    /// Current search direction.
    pub p_k: Vec<Fp>,
    /// Current iterate.
    pub x_k: Vec<Fp>,
    /// Evaluation at the current iterate.
    pub f_k: Dual,
    /// Value at the previous iterate.
    pub f_k_old_re: Fp,
    /// Objective evaluations made outside the line search.
    pub f_calls: u32,
    /// Gradient evaluations made outside the line search.
    pub f_grad_calls: u32,
}

impl SteepestDescent {
    /// The gradient at the last evaluated iterate.
    pub open spec fn last_gradient(self) -> Seq<Fp> {
        self.f_k.du@
    }

    /// A solver with the default tuning: at most 1000 iterations and a
    /// gradient tolerance of `1e-6`.
    pub fn new() -> (r: SteepestDescent)
        ensures
            r.i_max == 1000,
            r.gtol.bits == GTOL_DEFAULT_BITS,
            r.f_calls == 0,
            r.f_grad_calls == 0,
    {
        SteepestDescent {
            i_max: 1000,
            gtol: Fp::from_bits(GTOL_DEFAULT_BITS),
            p_k: linalg::zeros(1),
            x_k: linalg::zeros(1),
            f_k: Dual::new(1),
            f_k_old_re: Fp::zero(),
            f_calls: 0,
            f_grad_calls: 0,
        }
    }

    /// Minimizes the objective from `x0`.
    ///
    /// The returned iterate has `x0`'s dimension, and `success` is set
    /// only when the gradient norm of the final evaluation lies below
    /// `gtol`; hitting the iteration cap leaves it unset, as does an
    /// objective whose `grad` hands back a vector of the wrong length
    /// (the iteration then stops where it is).  A NaN gradient norm never
    /// compares below the tolerance, so degenerate arithmetic ends in
    /// non-convergence rather than a false success.  The direction handed
    /// to every search is the negated gradient of the evaluation at the
    /// current iterate, an invariant the contract states of the final
    /// state on success.
    pub fn minimize<P: Objective + Gradient>(&mut self, x0: &Vec<Fp>, problem: &mut P) -> (r:
        Solution)
        ensures
            final(self).i_max == old(self).i_max,
            final(self).gtol == old(self).gtol,
            r.x@.len() == x0@.len(),
            r.x@ == final(self).x_k@,
            1 <= r.iter_num,
            r.iter_num <= old(self).i_max || r.iter_num == 1,
            r.success ==> lt_bits(norm_bits(final(self).last_gradient()), old(self).gtol.bits),
            !r.success ==> r.iter_num >= old(self).i_max || final(self).f_k.du@.len()
                != x0@.len(),
            r.success ==> final(self).p_k@.len() == x0@.len() && (forall|i: int|
                0 <= i < x0@.len() ==> #[trigger] final(self).p_k@[i].bits == neg_bits(
                    final(self).f_k.du@[i].bits,
                )),
            r.f_hess_evals == 0,
    {
        let ghost n = x0@.len();
        self.set_up_parameters(x0, problem);
        let mut line_search = LineSearch::new();
        line_search.c2 = Fp::from_bits(C2_FIRST_ORDER_BITS);

        if self.f_k.du.len() != self.x_k.len() {
            return Solution {
                x: linalg::copy(&self.x_k),
                success: false,
                iter_num: 1,
                f_evals: cadd(self.f_calls, line_search.f_calls),
                f_grad_evals: cadd(self.f_grad_calls, line_search.f_grad_calls),
                f_hess_evals: 0,
            };
        }
        let mut success = false;
        let mut k: u32 = 1;
        let ghost pre = *self;
        while k < self.i_max
            invariant_except_break
                self.f_k.dim() == n,
                self.p_k@.len() == n,
                forall|i: int|
                    0 <= i < n ==> #[trigger] self.p_k@[i].bits == neg_bits(
                        self.f_k.du@[i].bits,
                    ),
            invariant
                1 <= k,
                k <= self.i_max || k == 1,
                self.x_k@.len() == n,
                self.i_max == pre.i_max,
                self.gtol == pre.gtol,
                success ==> lt_bits(norm_bits(self.f_k.du@), self.gtol.bits),
                success ==> self.p_k@.len() == n && (forall|i: int|
                    0 <= i < n ==> #[trigger] self.p_k@[i].bits == neg_bits(
                        self.f_k.du@[i].bits,
                    )),
            ensures
                success || k >= self.i_max || self.f_k.du@.len() != n,
            decreases self.i_max - k,
        {
            if linalg::norm(&self.f_k.du).lt(self.gtol) {
                success = true;
                break ;
            }
            let alpha_1 = self.guess_alpha();
            let step = StepValues {
                x_k: linalg::copy(&self.x_k),
                f_k: self.f_k.duplicate(),
                p_k: linalg::copy(&self.p_k),
                alpha_1,
            };
            let alpha_k = line_search.find_alpha(&step, problem);
            self.p_k = linalg::scale(alpha_k, &self.p_k);
            self.x_k = linalg::add(&self.x_k, &self.p_k);
            self.f_k_old_re = self.f_k.re;
            self.eval_func(problem);
            if self.f_k.du.len() != self.x_k.len() {
                break ;
            }
            self.p_k = linalg::neg(&self.f_k.du);
            k = k + 1;
        }

        Solution {
            x: linalg::copy(&self.x_k),
            success,
            iter_num: k,
            f_evals: cadd(self.f_calls, line_search.f_calls),
            f_grad_evals: cadd(self.f_grad_calls, line_search.f_grad_calls),
            f_hess_evals: 0,
        }
    }

    /// The initial step guess `2·(f_k - f_k_old)/⟨g, p⟩`; a stationary
    /// denominator yields an infinity or NaN, which the line search then
    /// fails to accept.
    fn guess_alpha(&self) -> (r: Fp)
        requires
            self.f_k.dim() == self.p_k@.len(),
        ensures
            r.bits == div_bits(
                mul_bits(TWO_BITS, sub_bits(self.f_k.re.bits, self.f_k_old_re.bits)),
                dot_bits(self.f_k.du@, self.p_k@),
            ),
    {
        let phi_0_grad = linalg::dot(&self.f_k.du, &self.p_k);
        Fp::from_bits(TWO_BITS).mul(self.f_k.re.sub(self.f_k_old_re)).div(phi_0_grad)
    }

    /// Loads `x0`, evaluates once, and points the first direction down
    /// the gradient; the direction keeps `x0`'s dimension only when the
    /// objective's `grad` does.
    fn set_up_parameters<P: Objective + Gradient>(&mut self, x0: &Vec<Fp>, problem: &mut P)
        ensures
            final(self).i_max == old(self).i_max,
            final(self).gtol == old(self).gtol,
            final(self).x_k@.len() == x0@.len(),
            final(self).f_k.dim() == final(self).p_k@.len(),
            forall|i: int|
                0 <= i < final(self).f_k.du@.len() ==> #[trigger] final(self).p_k@[i].bits
                    == neg_bits(final(self).f_k.du@[i].bits),
    {
        self.x_k = linalg::copy(x0);
        self.f_k = Dual::new(x0.len());
        self.p_k = linalg::zeros(x0.len());
        self.eval_func(problem);
        self.f_k_old_re = Fp::one();
        self.p_k = linalg::neg(&self.f_k.du);
    }

    /// One full evaluation at the current iterate: loads it, reads the
    /// value and asks for the gradient, bumping both counters.
    fn eval_func<P: Objective + Gradient>(&mut self, problem: &mut P)
        ensures
            final(self).i_max == old(self).i_max,
            final(self).gtol == old(self).gtol,
            final(self).x_k == old(self).x_k,
            final(self).p_k == old(self).p_k,
            final(self).f_k_old_re == old(self).f_k_old_re,
            final(self).f_calls == inc_spec(old(self).f_calls),
            final(self).f_grad_calls == inc_spec(old(self).f_grad_calls),
    {
        self.f_calls = inc(self.f_calls);
        self.f_grad_calls = inc(self.f_grad_calls);
        problem.update_x(&self.x_k);
        self.f_k.re = problem.eval_real();
        problem.grad(&mut self.f_k.du);
    }
}

} // verus!
