//! The BFGS quasi-Newton minimizer: a dense approximation of the inverse
//! Hessian, rebuilt each iteration by the two-sided rank-two recurrence
//! `H' = (I - ρ·s·yᵀ)·H·(I - ρ·y·sᵀ) + ρ·s·sᵀ`.

use vstd::prelude::*;
use crate::fp::Fp;
use crate::fp::lt_bits;
use crate::linalg;
use crate::linalg::norm_bits;
use crate::line_search::LineSearch;
use crate::line_search::StepValues;
use crate::number_system::dual::Dual;
use crate::problem::Objective;
use crate::problem::Gradient;
use crate::solution::Solution;
use crate::solution::inc;
use crate::solution::inc_spec;
use crate::solution::cadd;
use crate::steepest_descent::GTOL_DEFAULT_BITS;

verus! {

/// The BFGS minimizer.
pub struct BFGS {
    /// Iteration cap.
    pub i_max: u32,
    /// Gradient-norm tolerance for success.
    pub gtol: Fp,
    /// Current search direction.
    pub p_k: Vec<Fp>,
    /// Current iterate.
    pub x_k: Vec<Fp>,
    /// Evaluation at the current iterate.
    pub f_k: Dual,
    /// Evaluation at the previous iterate.
    pub f_k_old: Dual,
    /// Objective evaluations made outside the line search.
    pub f_calls: u32,
    /// Gradient evaluations made outside the line search.
    pub f_grad_calls: u32,
}

impl BFGS {
    /// The gradient at the last evaluated iterate.
    pub open spec fn last_gradient(self) -> Seq<Fp> {
        self.f_k.du@
    }

    /// A solver with the default tuning: at most 1000 iterations and a
    /// gradient tolerance of `1e-6`.
    pub fn new() -> (r: BFGS)
        ensures
            r.i_max == 1000,
            r.gtol.bits == GTOL_DEFAULT_BITS,
            r.f_calls == 0,
            r.f_grad_calls == 0,
    {
        BFGS {
            i_max: 1000,
            gtol: Fp::from_bits(GTOL_DEFAULT_BITS),
            p_k: linalg::zeros(1),
            x_k: linalg::zeros(1),
            f_k: Dual::new(1),
            f_k_old: Dual::new(1),
            f_calls: 0,
            f_grad_calls: 0,
        }
    }

    /// Minimizes the objective from `x0`.
    ///
    /// The inverse-Hessian approximation starts at the identity; each
    /// iteration takes the line-search step (initial guess fixed at one),
    /// forms the secant pair, applies the rank-two update and turns the
    /// new gradient into the next direction.  A vanishing curvature
    /// product makes `ρ` infinite or NaN and the iteration stalls without
    /// failing, as IEEE arithmetic propagates it.  `success` is set only
    /// when the gradient norm of the final evaluation lies below `gtol`;
    /// a gradient of the wrong length stops the iteration where it is,
    /// and a NaN norm never compares below the tolerance.
    pub fn minimize<P: Objective + Gradient>(&mut self, x0: &Vec<Fp>, problem: &mut P) -> (r:
        Solution)
        ensures
            final(self).i_max == old(self).i_max,
            final(self).gtol == old(self).gtol,
            r.x@.len() == x0@.len(),
            r.x@ == final(self).x_k@,
            1 <= r.iter_num,
            r.iter_num <= old(self).i_max || r.iter_num == 1,
            r.success ==> lt_bits(norm_bits(final(self).last_gradient()), old(self).gtol.bits),
            !r.success ==> r.iter_num >= old(self).i_max || final(self).f_k.du@.len()
                != x0@.len(),
            r.f_hess_evals == 0,
    {
        let ghost n = x0@.len();
        let nn = x0.len();
        self.set_up_parameters(x0, problem);
        let mut line_search = LineSearch::new();

        if self.f_k.du.len() != self.x_k.len() {
            return Solution {
                x: linalg::copy(&self.x_k),
                success: false,
                iter_num: 1,
                f_evals: cadd(self.f_calls, line_search.f_calls),
                f_grad_evals: cadd(self.f_grad_calls, line_search.f_grad_calls),
                f_hess_evals: 0,
            };
        }
        let mut h_k = linalg::mat_identity(nn);
        let mut success = false;
        let mut k: u32 = 1;
        let ghost pre = *self;
        while k < self.i_max
            invariant_except_break
                self.f_k.dim() == n,
                self.f_k_old.dim() == n,
                self.p_k@.len() == n,
            invariant
                nn == n,
                linalg::is_matrix(h_k@, n as int, n as int),
                1 <= k,
                k <= self.i_max || k == 1,
                self.x_k@.len() == n,
                self.i_max == pre.i_max,
                self.gtol == pre.gtol,
                success ==> lt_bits(norm_bits(self.f_k.du@), self.gtol.bits),
            ensures
                success || k >= self.i_max || self.f_k.du@.len() != n,
            decreases self.i_max - k,
        {
            if linalg::norm(&self.f_k.du).lt(self.gtol) {
                success = true;
                break ;
            }
            let alpha_1 = Fp::one();
            let step = StepValues {
                x_k: linalg::copy(&self.x_k),
                f_k: self.f_k.duplicate(),
                p_k: linalg::copy(&self.p_k),
                alpha_1,
            };
            let alpha_k = line_search.find_alpha(&step, problem);
            self.x_k = linalg::axpy(&self.x_k, alpha_k, &self.p_k);
            self.f_k_old = self.f_k.duplicate();
            self.eval_func(problem);
            if self.f_k.du.len() != self.x_k.len() {
                break ;
            }
            let s_k = linalg::scale(alpha_k, &self.p_k);
            let y_k = linalg::sub(&self.f_k.du, &self.f_k_old.du);
            let rho = Fp::one().div(linalg::dot(&y_k, &s_k));
            let left = linalg::mat_identity_minus_scaled_outer(rho, &s_k, &y_k, nn);
            let right = linalg::mat_identity_minus_scaled_outer(rho, &y_k, &s_k, nn);
            h_k = linalg::mat_add_scaled_outer(
                &linalg::mat_mul(&linalg::mat_mul(&left, &h_k, nn), &right, nn),
                rho,
                &s_k,
                &s_k,
                nn,
            );
            self.p_k = linalg::neg(&linalg::mat_vec_mul(&h_k, &self.f_k.du, nn));
            k = k + 1;
        }

        Solution {
            x: linalg::copy(&self.x_k),
            success,
            iter_num: k,
            f_evals: cadd(self.f_calls, line_search.f_calls),
            f_grad_evals: cadd(self.f_grad_calls, line_search.f_grad_calls),
            f_hess_evals: 0,
        }
    }

    /// Loads `x0`, evaluates once, and points the first direction down
    /// the gradient.
    fn set_up_parameters<P: Objective + Gradient>(&mut self, x0: &Vec<Fp>, problem: &mut P)
        ensures
            final(self).i_max == old(self).i_max,
            final(self).gtol == old(self).gtol,
            final(self).x_k@.len() == x0@.len(),
            final(self).f_k.dim() == final(self).p_k@.len(),
            final(self).f_k_old.dim() == x0@.len(),
    {
        self.x_k = linalg::copy(x0);
        self.f_k = Dual::new(x0.len());
        self.eval_func(problem);
        let mut old_eval = Dual::new(x0.len());
        old_eval.re = Fp::one();
        self.f_k_old = old_eval;
        self.p_k = linalg::neg(&self.f_k.du);
    }

    /// One full evaluation at the current iterate, bumping both counters.
    fn eval_func<P: Objective + Gradient>(&mut self, problem: &mut P)
        ensures
            final(self).i_max == old(self).i_max,
            final(self).gtol == old(self).gtol,
            final(self).x_k == old(self).x_k,
            final(self).p_k == old(self).p_k,
            final(self).f_k_old == old(self).f_k_old,
            final(self).f_calls == inc_spec(old(self).f_calls),
            final(self).f_grad_calls == inc_spec(old(self).f_grad_calls),
    {
        self.f_calls = inc(self.f_calls);
        self.f_grad_calls = inc(self.f_grad_calls);
        problem.update_x(&self.x_k);
        self.f_k.re = problem.eval_real();
        problem.grad(&mut self.f_k.du);
    }
}

} // verus!
