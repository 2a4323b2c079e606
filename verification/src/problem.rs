//! The capability contracts an objective function implements, and the
//! canonical block of dual variables such an implementation can embed.
//!
//! The minimization algorithms see a caller's objective only through these
//! traits.  An implementation owns its variable state (typically a vector
//! of dual numbers), refreshes it in `update_x` or `move_step`, and
//! harvests one derivative at a time in `grad`, `diff` and `hess`; the
//! solvers promise nothing about the values an implementation returns.

use vstd::prelude::*;
use crate::fp::Fp;
use crate::fp::add_bits;
use crate::fp::mul_bits;
use crate::fp::ONE_BITS;
use crate::number_system::dual_scalar::DualScalar;

verus! {

/// Objective function evaluation and update of variable values.
pub trait Objective {
    /// Evaluates the objective at the stored variable state and keeps the
    /// result (value and tagged derivatives) for the harvest methods.
    fn eval(&mut self);

    /// Evaluates and returns only the real part.
    fn eval_real(&mut self) -> Fp;

    /// Overwrites the stored variables' real parts from `x` and clears
    /// every derivative seed.
    fn update_x(&mut self, x: &Vec<Fp>);

    /// Sets the stored state to `x + alpha·p`, tagging `alpha` itself with
    /// a unit derivative, so that a following evaluation differentiates
    /// with respect to the step length.
    fn move_step(&mut self, x: &Vec<Fp>, p: &Vec<Fp>, alpha: Fp);
}

/// Gradient of the objective function.
pub trait Gradient {
    /// Writes the gradient at the stored state into `output`, one
    /// component per seeded evaluation.
    fn grad(&mut self, output: &mut Vec<Fp>);

    /// Evaluates and returns the single tagged derivative (used after
    /// `move_step`).
    fn diff(&mut self) -> Fp;
}

/// Hessian of the objective function.
pub trait Hessian {
    /// Writes the Hessian at the stored state into `output`, one mixed
    /// entry per doubly seeded evaluation, symmetrically.
    fn hess(&mut self, output: &mut Vec<Vec<Fp>>);
}

/// Whether every stored variable holds the real part from `x` and a
/// cleared derivative seed.
pub open spec fn loaded(vars: Seq<DualScalar>, x: Seq<Fp>) -> bool {
    vars.len() == x.len() && forall|i: int|
        0 <= i < x.len() ==> (#[trigger] vars[i]).re == x[i] && vars[i].du.bits == 0
}

/// The canonical variable block of an objective: one dual scalar per
/// optimization variable.  An implementation of the traits can hold one of
/// these and delegate `update_x` and `move_step` to it.
#[derive(Clone, Debug)]
pub struct DualVars {
    pub x: Vec<DualScalar>,
}

impl DualVars {
    /// A block of `n` variables, all zero with cleared seeds.
    pub fn new(n: usize) -> (r: DualVars)
        ensures
            r.x@.len() == n,
            forall|i: int| 0 <= i < n ==> r.x@[i] == (DualScalar { re: Fp { bits: 0 }, du: Fp { bits: 0 } }),
    {
        let mut x: Vec<DualScalar> = Vec::new();
        let mut i: usize = 0;
        while i < n
            invariant
                i == x@.len(),
                i <= n,
                forall|j: int| 0 <= j < i ==> x@[j] == (DualScalar { re: Fp { bits: 0 }, du: Fp { bits: 0 } }),
            decreases n - i,
        {
            x.push(DualScalar::new());
            i = i + 1;
        }
        DualVars { x }
    }

    /// Overwrites every real part from `x` and clears every seed: after
    /// the call the state is a function of `x` alone.
    pub fn update_x(&mut self, x: &Vec<Fp>)
        requires
            old(self).x@.len() == x@.len(),
        ensures
            loaded(final(self).x@, x@),
    {
        let mut i: usize = 0;
        while i < x.len()
            invariant
                self.x@.len() == x@.len(),
                i <= x@.len(),
                forall|j: int|
                    0 <= j < i ==> (#[trigger] self.x@[j]).re == x@[j] && self.x@[j].du.bits == 0,
            decreases x@.len() - i,
        {
            self.x.set(i, DualScalar { re: x[i], du: Fp::zero() });
            i = i + 1;
        }
    }

    /// Sets the state to `x + alpha·p` with `alpha` carrying a unit
    /// derivative: each variable holds `x[i] + alpha·p[i]` and the seed
    /// `1·p[i]`, so a following evaluation differentiates along `p`.
    pub fn move_step(&mut self, x: &Vec<Fp>, p: &Vec<Fp>, alpha: Fp)
        requires
            old(self).x@.len() == x@.len(),
            x@.len() == p@.len(),
        ensures
            final(self).x@.len() == x@.len(),
            forall|i: int|
                0 <= i < x@.len() ==> (#[trigger] final(self).x@[i]).re.bits == add_bits(
                    x@[i].bits,
                    mul_bits(alpha.bits, p@[i].bits),
                ) && final(self).x@[i].du.bits == mul_bits(ONE_BITS, p@[i].bits),
    {
        let mut i: usize = 0;
        while i < x.len()
            invariant
                self.x@.len() == x@.len(),
                x@.len() == p@.len(),
                i <= x@.len(),
                forall|j: int|
                    0 <= j < i ==> (#[trigger] self.x@[j]).re.bits == add_bits(
                        x@[j].bits,
                        mul_bits(alpha.bits, p@[j].bits),
                    ) && self.x@[j].du.bits == mul_bits(ONE_BITS, p@[j].bits),
            decreases x@.len() - i,
        {
            self.x.set(
                i,
                DualScalar { re: x[i].add(alpha.mul(p[i])), du: Fp::one().mul(p[i]) },
            );
            i = i + 1;
        }
    }
}

/// Loading a point is idempotent: the state `update_x` leaves is a
/// function of the loaded vector alone, so loading the same vector twice
/// leaves exactly the state one load leaves — real parts and seeds alike.
pub proof fn lemma_update_x_idempotent(once: Seq<DualScalar>, twice: Seq<DualScalar>, x: Seq<Fp>)
    requires
        loaded(once, x),
        loaded(twice, x),
    ensures
        once =~= twice,
{
    assert forall|i: int| 0 <= i < once.len() implies once[i] == twice[i] by {
        assert(once[i].re == x[i] && once[i].du.bits == 0);
        assert(twice[i].re == x[i] && twice[i].du.bits == 0);
    }
}

} // verus!
