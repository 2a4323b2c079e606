//! The trust-region Newton-CG minimizer and its Steihaug-CG subproblem
//! solver.
//!
//! The outer loop keeps a trust radius, asks Steihaug-CG for a step that
//! approximately minimizes the local quadratic model within the radius,
//! and accepts or rolls back the step by the predicted-versus-actual
//! reduction ratio.  Steihaug-CG runs plain conjugate-gradient recurrences
//! and exits early at negative curvature or at the trust-region boundary.

use vstd::prelude::*;
use crate::fp::Fp;
use crate::fp::add_bits;
use crate::fp::sub_bits;
use crate::fp::mul_bits;
use crate::fp::div_bits;
use crate::fp::lt_bits;
use crate::fp::min_bits;
use crate::fp::le_bits;
use crate::fp::neg_bits;
use crate::fp::powi_bits;
use crate::fp::sqrt_bits;
use crate::fp::HALF_BITS;
use crate::fp::TWO_BITS;
use crate::linalg;
use crate::linalg::dot_bits;
use crate::linalg::norm_bits;
use crate::linalg::is_matrix;
use crate::linalg::ent;
use crate::linalg::neg_spec;
use crate::linalg::scale_spec;
use crate::linalg::add_spec;
use crate::linalg::axpy_spec;
use crate::linalg::mat_vec_spec;
use crate::number_system::hyperdual::HyperDual;
use crate::problem::Objective;
use crate::problem::Gradient;
use crate::problem::Hessian;
use crate::solution::Solution;
use crate::solution::inc;
use crate::solution::inc_spec;
use crate::steepest_descent::GTOL_DEFAULT_BITS;

verus! {

/// Bit pattern of `0.25`, the shrink factor and low ratio threshold.
pub const QUARTER_BITS: u64 = 0x3FD0_0000_0000_0000;
/// Bit pattern of `0.75`, the high ratio threshold.
pub const THREE_QUARTERS_BITS: u64 = 0x3FE8_0000_0000_0000;
/// Bit pattern of `4.0`.
pub const FOUR_BITS: u64 = 0x4010_0000_0000_0000;
/// Bit pattern of the step-acceptance threshold `0.15`.
pub const ETA_BITS: u64 = 0x3FC3_3333_3333_3333;
/// Bit pattern of the default largest trust radius `100.0`.
pub const DELTA_MAX_DEFAULT_BITS: u64 = 0x4059_0000_0000_0000;
/// Bit pattern of the Steihaug-CG residual tolerance seed `1e-7`.
pub const EPS_CG_BITS: u64 = 0x3E7A_D7F2_9ABC_AF48;

/// The trust-region Newton-CG minimizer.
pub struct TrustNCG {
    /// Iteration cap.
    pub i_max: u32,
    /// Largest trust radius allowed.
    pub delta_max: Fp,
    /// Gradient-norm tolerance for success.
    pub gtol: Fp,
    /// Current step.
    pub p_k: Vec<Fp>,
    /// Current iterate.
    pub x_k: Vec<Fp>,
    /// The iterate the search started from.
    pub x_k_old: Vec<Fp>,
    /// Second-order evaluation at the current iterate.
    pub f_k: HyperDual,
    /// Second-order evaluation at the previous iterate.
    pub f_k_old: HyperDual,
    /// The quadratic model value at the last step.
    pub m_k: Fp,
    /// Objective evaluations made.
    pub f_calls: u32,
    /// Gradient evaluations made.
    pub f_grad_calls: u32,
    /// Hessian evaluations made.
    pub f_hess_calls: u32,
}

impl TrustNCG {
    /// The gradient at the last evaluated iterate.
    pub open spec fn last_gradient(self) -> Seq<Fp> {
        self.f_k.grad@
    }

    /// A solver with the default tuning: at most 1000 iterations, radius
    /// cap 100, gradient tolerance `1e-6`.
    pub fn new() -> (r: TrustNCG)
        ensures
            r.i_max == 1000,
            r.delta_max.bits == DELTA_MAX_DEFAULT_BITS,
            r.gtol.bits == GTOL_DEFAULT_BITS,
            r.f_calls == 0,
            r.f_grad_calls == 0,
            r.f_hess_calls == 0,
    {
        TrustNCG {
            i_max: 1000,
            delta_max: Fp::from_bits(DELTA_MAX_DEFAULT_BITS),
            gtol: Fp::from_bits(GTOL_DEFAULT_BITS),
            p_k: linalg::zeros(1),
            x_k: linalg::zeros(1),
            x_k_old: linalg::zeros(1),
            f_k: HyperDual::new(1),
            f_k_old: HyperDual::new(1),
            m_k: Fp::zero(),
            f_calls: 0,
            f_grad_calls: 0,
            f_hess_calls: 0,
        }
    }

    /// Minimizes the objective from `x0`.
    ///
    /// Each iteration solves the trust-region subproblem at the current
    /// evaluation, tentatively applies the step, and accepts it only when
    /// the actual reduction is at least the fraction `0.15` of the model's
    /// prediction, shrinking or growing the radius by the same ratio.
    /// `success` is set only when the gradient norm of the final
    /// evaluation lies below `gtol`; an objective whose `grad` or `hess`
    /// hands back wrong shapes stops the iteration where it is, and a NaN
    /// norm never compares below the tolerance.
    pub fn minimize<P: Objective + Gradient + Hessian>(
        &mut self,
        x0: &Vec<Fp>,
        problem: &mut P,
    ) -> (r: Solution)
        ensures
            final(self).i_max == old(self).i_max,
            final(self).gtol == old(self).gtol,
            final(self).delta_max == old(self).delta_max,
            r.x@.len() == x0@.len(),
            r.x@ == final(self).x_k@,
            1 <= r.iter_num,
            r.iter_num <= old(self).i_max || r.iter_num == 1,
            r.success ==> lt_bits(norm_bits(final(self).last_gradient()), old(self).gtol.bits),
            !r.success ==> r.iter_num >= old(self).i_max || !(final(self).f_k.grad@.len()
                == x0@.len() && is_matrix(
                final(self).f_k.hess@,
                x0@.len() as int,
                x0@.len() as int,
            )),
            r.f_evals == final(self).f_calls,
            r.f_grad_evals == final(self).f_grad_calls,
            r.f_hess_evals == final(self).f_hess_calls,
            old(self).f_calls == old(self).f_grad_calls && old(self).f_grad_calls == old(
                self,
            ).f_hess_calls ==> r.f_evals == r.f_grad_evals && r.f_grad_evals == r.f_hess_evals,
    {
        let ghost n = x0@.len();
        let ghost ceq = old(self).f_calls == old(self).f_grad_calls && old(self).f_grad_calls
            == old(self).f_hess_calls;
        let nn = x0.len();
        self.set_up_parameters(x0, problem);

        if !(self.f_k.grad.len() == nn && linalg::check_square(&self.f_k.hess, nn)) {
            return Solution {
                x: linalg::copy(&self.x_k),
                success: false,
                iter_num: 1,
                f_evals: self.f_calls,
                f_grad_evals: self.f_grad_calls,
                f_hess_evals: self.f_hess_calls,
            };
        }
        let mut cg_steihaug = CGSteihaug::new(x0);
        let mut delta = Fp::one();
        let eta = Fp::from_bits(ETA_BITS);
        let quarter = Fp::from_bits(QUARTER_BITS);
        let three_quarters = Fp::from_bits(THREE_QUARTERS_BITS);
        let two = Fp::from_bits(TWO_BITS);
        let mut old_fk = HyperDual::new(nn);

        let mut success = false;
        let mut k: u32 = 1;
        let ghost pre = *self;
        while k < self.i_max
            invariant_except_break
                self.f_k.dim() == n,
                self.f_k.wf(),
                self.f_k_old.dim() == n,
                self.f_k_old.wf(),
                old_fk.dim() == n,
                old_fk.wf(),
                self.p_k@.len() == n,
            invariant
                nn == n,
                1 <= k,
                k <= self.i_max || k == 1,
                self.x_k@.len() == n,
                self.i_max == pre.i_max,
                self.gtol == pre.gtol,
                self.delta_max == pre.delta_max,
                success ==> lt_bits(norm_bits(self.f_k.grad@), self.gtol.bits),
                ceq ==> self.f_calls == self.f_grad_calls && self.f_grad_calls
                    == self.f_hess_calls,
            ensures
                success || k >= self.i_max || !(self.f_k.grad@.len() == n && is_matrix(
                    self.f_k.hess@,
                    n as int,
                    n as int,
                )),
            decreases self.i_max - k,
        {
            if linalg::norm(&self.f_k.grad).lt(self.gtol) {
                success = true;
                break ;
            }
            cg_steihaug.solve_step(&self.f_k.grad, &self.f_k.hess, delta, &mut self.p_k);
            old_fk = self.f_k_old.duplicate();
            self.f_k_old = self.f_k.duplicate();
            self.x_k = linalg::add(&self.x_k, &self.p_k);
            self.eval_func(problem);
            if !(self.f_k.grad.len() == nn && linalg::check_square(&self.f_k.hess, nn)) {
                break ;
            }
            let rho = self.calculate_rho();
            if rho.lt(quarter) {
                delta = quarter.mul(linalg::norm(&self.p_k));
            } else {
                if rho.gt(three_quarters) && linalg::norm(&self.p_k).eq_ieee(delta) {
                    delta = two.mul(delta).min(self.delta_max);
                }
            }
            self.roll_back_if_rejected(rho, eta, &old_fk);
            k = k + 1;
        }

        Solution {
            x: linalg::copy(&self.x_k),
            success,
            iter_num: k,
            f_evals: self.f_calls,
            f_grad_evals: self.f_grad_calls,
            f_hess_evals: self.f_hess_calls,
        }
    }

    /// The step-acceptance rule: a reduction ratio below the threshold
    /// rolls the tentative step back — the iterate retreats by the step,
    /// the current evaluation is restored from the previous one and the
    /// previous one from the evaluation before it — while a ratio at or
    /// above the threshold (or a NaN ratio) keeps the state exactly as it
    /// is.
    fn roll_back_if_rejected(&mut self, rho: Fp, eta: Fp, old_fk: &HyperDual)
        requires
            old(self).x_k@.len() == old(self).p_k@.len(),
            old(self).f_k_old.wf(),
            old_fk.wf(),
        ensures
            !lt_bits(rho.bits, eta.bits) ==> *final(self) == *old(self),
            lt_bits(rho.bits, eta.bits) ==> ({
                &&& *final(self) == (TrustNCG {
                    x_k: final(self).x_k,
                    f_k: final(self).f_k,
                    f_k_old: final(self).f_k_old,
                    ..*old(self)
                })
                &&& final(self).x_k@.len() == old(self).x_k@.len()
                &&& (forall|i: int|
                    0 <= i < old(self).x_k@.len() ==> #[trigger] final(self).x_k@[i].bits
                        == sub_bits(old(self).x_k@[i].bits, old(self).p_k@[i].bits))
                &&& final(self).f_k.real == old(self).f_k_old.real
                &&& final(self).f_k.grad@ == old(self).f_k_old.grad@
                &&& final(self).f_k.dim() == old(self).f_k_old.dim()
                &&& final(self).f_k.wf()
                &&& (forall|i: int, j: int|
                    0 <= i < old(self).f_k_old.dim() && 0 <= j < old(self).f_k_old.dim()
                        ==> ent(final(self).f_k.hess@, i, j) == ent(
                        old(self).f_k_old.hess@,
                        i,
                        j,
                    ))
                &&& final(self).f_k_old.real == old_fk.real
                &&& final(self).f_k_old.grad@ == old_fk.grad@
                &&& final(self).f_k_old.dim() == old_fk.dim()
                &&& final(self).f_k_old.wf()
                &&& (forall|i: int, j: int|
                    0 <= i < old_fk.dim() && 0 <= j < old_fk.dim() ==> ent(
                        final(self).f_k_old.hess@,
                        i,
                        j,
                    ) == ent(old_fk.hess@, i, j))
            }),
    {
        if rho.lt(eta) {
            self.x_k = linalg::sub(&self.x_k, &self.p_k);
            self.f_k = self.f_k_old.duplicate();
            self.f_k_old = old_fk.duplicate();
        }
    }

    /// The predicted-versus-actual reduction ratio: evaluates the
    /// quadratic model at the last step, stores it, and compares the
    /// model's reduction with the objective's.
    fn calculate_rho(&mut self) -> (r: Fp)
        requires
            old(self).f_k_old.wf(),
            old(self).f_k_old.dim() == old(self).p_k@.len(),
        ensures
            *final(self) == (TrustNCG { m_k: final(self).m_k, ..*old(self) }),
            final(self).m_k.bits == add_bits(
                add_bits(
                    old(self).f_k_old.real.bits,
                    dot_bits(old(self).f_k_old.grad@, old(self).p_k@),
                ),
                mul_bits(
                    HALF_BITS,
                    dot_bits(
                        old(self).p_k@,
                        Seq::new(
                            old(self).p_k@.len(),
                            |i: int| Fp {
                                bits: dot_bits(old(self).f_k_old.hess@[i]@, old(self).p_k@),
                            },
                        ),
                    ),
                ),
            ),
            r.bits == div_bits(
                sub_bits(old(self).f_k_old.real.bits, old(self).f_k.real.bits),
                sub_bits(old(self).f_k_old.real.bits, final(self).m_k.bits),
            ),
    {
        let n = self.p_k.len();
        let half = Fp::from_bits(HALF_BITS);
        let bp = linalg::mat_vec_mul(&self.f_k_old.hess, &self.p_k, n);
        proof {
            assert(bp@ =~= Seq::new(
                self.p_k@.len(),
                |i: int| Fp { bits: dot_bits(self.f_k_old.hess@[i]@, self.p_k@) },
            ));
        }
        self.m_k = self.f_k_old.real.add(linalg::dot(&self.f_k_old.grad, &self.p_k)).add(
            half.mul(linalg::dot(&self.p_k, &bp)),
        );
        self.f_k_old.real.sub(self.f_k.real).div(self.f_k_old.real.sub(self.m_k))
    }

    /// Loads `x0`, evaluates once (value, gradient and Hessian), and
    /// points the first step down the gradient.
    fn set_up_parameters<P: Objective + Gradient + Hessian>(
        &mut self,
        x0: &Vec<Fp>,
        problem: &mut P,
    )
        ensures
            final(self).i_max == old(self).i_max,
            final(self).gtol == old(self).gtol,
            final(self).delta_max == old(self).delta_max,
            final(self).x_k@.len() == x0@.len(),
            final(self).f_k_old.dim() == x0@.len(),
            final(self).f_k_old.wf(),
            final(self).p_k@.len() == final(self).f_k.grad@.len(),
            final(self).f_calls == inc_spec(old(self).f_calls),
            final(self).f_grad_calls == inc_spec(old(self).f_grad_calls),
            final(self).f_hess_calls == inc_spec(old(self).f_hess_calls),
    {
        self.x_k = linalg::copy(x0);
        self.x_k_old = linalg::copy(x0);
        self.f_k = HyperDual::new(x0.len());
        self.eval_func(problem);
        self.p_k = linalg::neg(&self.f_k.grad);
        let mut old_eval = HyperDual::new(x0.len());
        old_eval.real = Fp::one();
        self.f_k_old = old_eval;
    }

    /// One full second-order evaluation at the current iterate, bumping
    /// all three counters.
    fn eval_func<P: Objective + Gradient + Hessian>(&mut self, problem: &mut P)
        ensures
            final(self).i_max == old(self).i_max,
            final(self).gtol == old(self).gtol,
            final(self).delta_max == old(self).delta_max,
            final(self).x_k == old(self).x_k,
            final(self).x_k_old == old(self).x_k_old,
            final(self).p_k == old(self).p_k,
            final(self).f_k_old == old(self).f_k_old,
            final(self).f_calls == inc_spec(old(self).f_calls),
            final(self).f_grad_calls == inc_spec(old(self).f_grad_calls),
            final(self).f_hess_calls == inc_spec(old(self).f_hess_calls),
    {
        self.f_calls = inc(self.f_calls);
        self.f_grad_calls = inc(self.f_grad_calls);
        self.f_hess_calls = inc(self.f_hess_calls);
        problem.update_x(&self.x_k);
        self.f_k.real = problem.eval_real();
        problem.grad(&mut self.f_k.grad);
        problem.hess(&mut self.f_k.hess);
    }
}

/// One run of the truncated conjugate-gradient recurrence, at the
/// specification level: the step chosen from the current state.  Negative
/// curvature and a boundary crossing both solve the closed-form quadratic
/// `‖p + τ·d‖ = δ` for the boundary point; a residual below the tolerance
/// returns the interior iterate; an exhausted step budget returns the
/// last interior point.
pub closed spec fn cg_loop_bits(
    b: Seq<Vec<Fp>>,
    r0: Seq<Fp>,
    delta: u64,
    eps: u64,
    p: Seq<Fp>,
    rr: Seq<Fp>,
    d: Seq<Fp>,
    rjrj_new: u64,
    fuel: nat,
) -> Seq<Fp>
    decreases fuel,
{
    if fuel == 0 {
        p
    } else {
        let bd = mat_vec_spec(b, d);
        let dbd = dot_bits(d, bd);
        if le_bits(dbd, 0) {
            let qa = dot_bits(d, d);
            let qb = mul_bits(TWO_BITS, dot_bits(p, d));
            let qc = sub_bits(dot_bits(p, p), powi_bits(delta, 2));
            let f = sqrt_bits(
                sub_bits(powi_bits(qb, 2), mul_bits(mul_bits(FOUR_BITS, qa), qc)),
            );
            let tau = div_bits(add_bits(neg_bits(qb), f), mul_bits(TWO_BITS, qa));
            axpy_spec(p, tau, d)
        } else {
            let alpha = div_bits(rjrj_new, dbd);
            let p2 = axpy_spec(p, alpha, d);
            if le_bits(delta, norm_bits(p2)) {
                let qa = dot_bits(d, d);
                let qb = mul_bits(TWO_BITS, dot_bits(p, d));
                let qc = sub_bits(dot_bits(p, p), powi_bits(delta, 2));
                let f = sqrt_bits(
                    sub_bits(powi_bits(qb, 2), mul_bits(mul_bits(FOUR_BITS, qa), qc)),
                );
                let tau = div_bits(add_bits(neg_bits(qb), f), mul_bits(TWO_BITS, qa));
                if lt_bits(0, tau) {
                    axpy_spec(p, tau, d)
                } else {
                    axpy_spec(p, neg_bits(tau), d)
                }
            } else {
                let r2 = axpy_spec(rr, alpha, bd);
                if lt_bits(norm_bits(r2), eps) {
                    p2
                } else {
                    let rjrj2 = dot_bits(r2, r2);
                    let beta = div_bits(rjrj2, rjrj_new);
                    let d2 = add_spec(neg_spec(r2), scale_spec(beta, d));
                    cg_loop_bits(b, r0, delta, eps, p2, r2, d2, rjrj2, (fuel - 1) as nat)
                }
            }
        }
    }
}

/// The step `solve_step` writes, at the specification level: the zero
/// start when the gradient is already below the tolerance, otherwise the
/// outcome of the conjugate-gradient recurrence started from zero.
pub closed spec fn steihaug_bits(b: Seq<Vec<Fp>>, r0: Seq<Fp>, delta: u64, fuel: nat) -> Seq<
    Fp,
> {
    let p0 = Seq::new(r0.len(), |i: int| Fp { bits: 0u64 });
    let eps = mul_bits(min_bits(HALF_BITS, sqrt_bits(norm_bits(r0))), norm_bits(r0));
    if lt_bits(norm_bits(r0), eps) {
        p0
    } else {
        cg_loop_bits(b, r0, delta, eps, p0, r0, neg_spec(r0), dot_bits(r0, r0), fuel)
    }
}

/// The truncated conjugate-gradient solver for the trust-region
/// subproblem `min g·p + p·B·p/2` within `‖p‖ <= delta`.
pub struct CGSteihaug {
    /// Residual tolerance, recomputed from the gradient each call.
    pub eps: Fp,
    /// Current interior point.
    pub p: Vec<Fp>,
    /// The interior point of the previous step.
    pub p_old: Vec<Fp>,
    /// Current residual.
    pub r: Vec<Fp>,
    /// Current conjugate direction.
    pub d: Vec<Fp>,
    /// Cap on conjugate-gradient steps.
    pub j_max: u32,
}

impl CGSteihaug {
    /// A solver sized to the dimension of `x`, capped at 50 steps.
    pub fn new(x: &Vec<Fp>) -> (r: CGSteihaug)
        ensures
            r.eps.bits == EPS_CG_BITS,
            r.p@.len() == x@.len(),
            r.p_old@.len() == x@.len(),
            r.r@.len() == x@.len(),
            r.d@.len() == x@.len(),
            r.j_max == 50,
    {
        CGSteihaug {
            eps: Fp::from_bits(EPS_CG_BITS),
            p: linalg::zeros(x.len()),
            p_old: linalg::zeros(x.len()),
            r: linalg::zeros(x.len()),
            d: linalg::zeros(x.len()),
            j_max: 50,
        }
    }

    /// Runs the truncated conjugate gradient on the model `g + B·p` and
    /// writes the chosen step into `output`: exactly the step
    /// `steihaug_bits` describes, a function of the gradient, the
    /// Hessian, the radius and the step budget alone.
    ///
    /// The tolerance becomes `min(0.5, ‖g‖^0.5)·‖g‖`.  The step is the
    /// closed-form boundary point along the current direction at negative
    /// curvature, the boundary crossing when an iterate leaves the
    /// region, the interior iterate when the residual falls below the
    /// tolerance, and the last interior point when the step budget is
    /// spent.
    pub fn solve_step(
        &mut self,
        r_0: &Vec<Fp>,
        b: &Vec<Vec<Fp>>,
        delta: Fp,
        output: &mut Vec<Fp>,
    )
        requires
            is_matrix(b@, r_0@.len() as int, r_0@.len() as int),
        ensures
            final(self).p@.len() == r_0@.len(),
            final(self).p_old@.len() == r_0@.len(),
            final(self).r@.len() == r_0@.len(),
            final(self).d@.len() == r_0@.len(),
            final(self).j_max == old(self).j_max,
            final(self).eps.bits == mul_bits(
                min_bits(HALF_BITS, sqrt_bits(norm_bits(r_0@))),
                norm_bits(r_0@),
            ),
            final(output)@.len() == r_0@.len(),
            final(output)@ == steihaug_bits(b@, r_0@, delta.bits, old(self).j_max as nat),
    {
        let ghost n = r_0@.len();
        let ghost p_start: Seq<Fp> = Seq::new(n, |i: int| Fp { bits: 0u64 });
        let ghost target = steihaug_bits(b@, r_0@, delta.bits, old(self).j_max as nat);
        let nn = r_0.len();
        let half = Fp::from_bits(HALF_BITS);
        let two = Fp::from_bits(TWO_BITS);
        let four = Fp::from_bits(FOUR_BITS);
        let r0_magnitude = linalg::norm(r_0);
        self.eps = half.min(r0_magnitude.sqrt()).mul(r0_magnitude);
        self.r = linalg::copy(r_0);
        self.d = linalg::neg(r_0);
        self.p = linalg::zeros(nn);
        self.p_old = linalg::zeros(nn);
        proof {
            assert(self.p@ =~= p_start);
            assert(self.d@ =~= neg_spec(r_0@));
        }
        let mut rjrj_new = linalg::dot(&self.r, &self.r);

        if linalg::norm(r_0).lt(self.eps) {
            *output = linalg::copy(&self.p);
            return ;
        }
        let mut j: u32 = 0;
        while j < self.j_max
            invariant
                nn == n,
                is_matrix(b@, n as int, n as int),
                r_0@.len() == n,
                self.p@.len() == n,
                self.p_old@.len() == n,
                self.r@.len() == n,
                self.d@.len() == n,
                j <= self.j_max,
                two.bits == TWO_BITS,
                four.bits == FOUR_BITS,
                self.j_max == old(self).j_max,
                target == steihaug_bits(b@, r_0@, delta.bits, old(self).j_max as nat),
                self.eps.bits == mul_bits(
                    min_bits(HALF_BITS, sqrt_bits(norm_bits(r_0@))),
                    norm_bits(r_0@),
                ),
                target == cg_loop_bits(
                    b@,
                    r_0@,
                    delta.bits,
                    self.eps.bits,
                    self.p@,
                    self.r@,
                    self.d@,
                    rjrj_new.bits,
                    (self.j_max - j) as nat,
                ),
            decreases self.j_max - j,
        {
            let ghost p_head = self.p@;
            let ghost r_head = self.r@;
            let ghost d_head = self.d@;
            let bd = linalg::mat_vec_mul(b, &self.d, nn);
            proof {
                assert(bd@ =~= mat_vec_spec(b@, d_head));
            }
            let d_b_d = linalg::dot(&self.d, &bd);

            if d_b_d.le(Fp::zero()) {
                let qa = linalg::dot(&self.d, &self.d);
                let qb = two.mul(linalg::dot(&self.p, &self.d));
                let qc = linalg::dot(&self.p, &self.p).sub(delta.powi(2));
                let f = qb.powi(2).sub(four.mul(qa).mul(qc)).sqrt();
                let tau = qb.neg().add(f).div(two.mul(qa));
                *output = linalg::axpy(&self.p, tau, &self.d);
                proof {
                    assert(output@ =~= axpy_spec(p_head, tau.bits, d_head));
                }
                return ;
            }
            let rjrj = rjrj_new;
            let alpha = rjrj.div(d_b_d);
            self.p_old = linalg::copy(&self.p);
            self.p = linalg::axpy(&self.p_old, alpha, &self.d);
            proof {
                assert(self.p@ =~= axpy_spec(p_head, alpha.bits, d_head));
            }

            if linalg::norm(&self.p).ge(delta) {
                let qa = linalg::dot(&self.d, &self.d);
                let qb = two.mul(linalg::dot(&self.p_old, &self.d));
                let qc = linalg::dot(&self.p_old, &self.p_old).sub(delta.powi(2));
                let f = qb.powi(2).sub(four.mul(qa).mul(qc)).sqrt();
                let tau = qb.neg().add(f).div(two.mul(qa));
                if tau.gt(Fp::zero()) {
                    *output = linalg::axpy(&self.p_old, tau, &self.d);
                    proof {
                        assert(output@ =~= axpy_spec(p_head, tau.bits, d_head));
                    }
                } else {
                    *output = linalg::axpy(&self.p_old, tau.neg(), &self.d);
                    proof {
                        assert(output@ =~= axpy_spec(p_head, neg_bits(tau.bits), d_head));
                    }
                }
                return ;
            }
            self.r = linalg::axpy(&self.r, alpha, &bd);
            proof {
                assert(self.r@ =~= axpy_spec(r_head, alpha.bits, mat_vec_spec(b@, d_head)));
            }

            if linalg::norm(&self.r).lt(self.eps) {
                *output = linalg::copy(&self.p);
                return ;
            }
            rjrj_new = linalg::dot(&self.r, &self.r);
            let beta = rjrj_new.div(rjrj);
            let nr = linalg::neg(&self.r);
            let sd = linalg::scale(beta, &self.d);
            self.d = linalg::add(&nr, &sd);
            proof {
                assert(nr@ =~= neg_spec(self.r@));
                assert(sd@ =~= scale_spec(beta.bits, d_head));
                assert(self.d@ =~= add_spec(neg_spec(self.r@), scale_spec(beta.bits, d_head)));
            }
            j = j + 1;
        }
        *output = linalg::copy(&self.p);
    }
}

} // verus!
