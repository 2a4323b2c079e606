//! A multivariate second-order dual number: a value, a full gradient and a
//! full Hessian.
//!
//! The Hessian of every product, quotient or transcendental result is
//! assembled from its upper triangle and mirrored, so it is symmetric by
//! construction, entry for entry.

use vstd::prelude::*;
use crate::fp::Fp;
use crate::fp::add_bits;
use crate::fp::sub_bits;
use crate::fp::mul_bits;
use crate::fp::div_bits;
use crate::fp::neg_bits;
use crate::fp::powi_bits;
use crate::fp::TWO_BITS;
use crate::linalg;
use crate::linalg::is_matrix;
use crate::linalg::ent;

verus! {

/// A real value with its gradient and symmetric Hessian over
/// `grad.len()` independent variables.
#[derive(Clone, Debug)]
pub struct HyperDual {
    pub real: Fp,
    pub grad: Vec<Fp>,
    pub hess: Vec<Vec<Fp>>,
}

/// The Hessian entry of a product, by the second-order product rule.
pub open spec fn hd_mul_hess_ent(a: HyperDual, b: HyperDual, i: int, j: int) -> u64 {
    add_bits(
        add_bits(
            add_bits(
                mul_bits(a.real.bits, ent(b.hess@, i, j)),
                mul_bits(a.grad@[i].bits, b.grad@[j].bits),
            ),
            mul_bits(a.grad@[j].bits, b.grad@[i].bits),
        ),
        mul_bits(b.real.bits, ent(a.hess@, i, j)),
    )
}

/// The curvature correction shared by the quotient rules: the divisor's
/// own second-order contribution.
pub open spec fn hd_div_w_ent(b: HyperDual, i: int, j: int) -> u64 {
    add_bits(
        mul_bits(b.real.bits, ent(b.hess@, i, j)),
        mul_bits(mul_bits(neg_bits(TWO_BITS), b.grad@[i].bits), b.grad@[j].bits),
    )
}

/// The Hessian entry of a quotient, by the second-order quotient rule.
pub open spec fn hd_div_hess_ent(a: HyperDual, b: HyperDual, i: int, j: int) -> u64 {
    let or2 = powi_bits(b.real.bits, 2);
    let or3 = powi_bits(b.real.bits, 3);
    sub_bits(
        sub_bits(
            sub_bits(
                div_bits(ent(a.hess@, i, j), b.real.bits),
                mul_bits(div_bits(a.grad@[i].bits, or2), b.grad@[j].bits),
            ),
            mul_bits(div_bits(a.grad@[j].bits, or2), b.grad@[i].bits),
        ),
        mul_bits(div_bits(a.real.bits, or3), hd_div_w_ent(b, i, j)),
    )
}

impl HyperDual {
    /// The number of independent variables.
    pub open spec fn dim(self) -> int {
        self.grad@.len() as int
    }

    /// Well-formed: the Hessian is square with the gradient's dimension.
    pub open spec fn wf(self) -> bool {
        is_matrix(self.hess@, self.dim(), self.dim())
    }

    /// Whether the Hessian is symmetric, entry for entry.
    pub open spec fn hess_symmetric(self) -> bool {
        forall|i: int, j: int|
            0 <= i < self.dim() && 0 <= j < self.dim() ==> ent(self.hess@, i, j) == ent(
                self.hess@,
                j,
                i,
            )
    }

    /// The zero hyperdual over `n` variables.
    pub fn new(n: usize) -> (r: HyperDual)
        ensures
            r.dim() == n,
            r.wf(),
            r.real.bits == 0,
            forall|i: int| 0 <= i < n ==> r.grad@[i].bits == 0,
            forall|i: int, j: int| 0 <= i < n && 0 <= j < n ==> ent(r.hess@, i, j) == 0,
            r.hess_symmetric(),
    {
        HyperDual { real: Fp::zero(), grad: linalg::zeros(n), hess: linalg::mat_zeros(n) }
    }

    /// An entrywise copy.
    pub fn duplicate(&self) -> (r: HyperDual)
        requires
            self.wf(),
        ensures
            r.dim() == self.dim(),
            r.wf(),
            r.real == self.real,
            r.grad@ == self.grad@,
            forall|i: int, j: int|
                0 <= i < self.dim() && 0 <= j < self.dim() ==> ent(r.hess@, i, j) == ent(
                    self.hess@,
                    i,
                    j,
                ),
    {
        let n = self.grad.len();
        HyperDual {
            real: self.real,
            grad: linalg::copy(&self.grad),
            hess: linalg::mat_copy(&self.hess, n),
        }
    }

    /// Sum: value, gradient and Hessian add; symmetry is preserved.
    pub fn add(&self, other: &HyperDual) -> (r: HyperDual)
        requires
            self.wf(),
            other.wf(),
            self.dim() == other.dim(),
        ensures
            r.dim() == self.dim(),
            r.wf(),
            r.real.bits == add_bits(self.real.bits, other.real.bits),
            forall|i: int|
                0 <= i < self.dim() ==> r.grad@[i].bits == add_bits(
                    self.grad@[i].bits,
                    other.grad@[i].bits,
                ),
            forall|i: int, j: int|
                0 <= i < self.dim() && 0 <= j < self.dim() ==> ent(r.hess@, i, j) == add_bits(
                    ent(self.hess@, i, j),
                    ent(other.hess@, i, j),
                ),
            self.hess_symmetric() && other.hess_symmetric() ==> r.hess_symmetric(),
    {
        let n = self.grad.len();
        HyperDual {
            real: self.real.add(other.real),
            grad: linalg::add(&self.grad, &other.grad),
            hess: linalg::mat_add(&self.hess, &other.hess, n),
        }
    }

    /// Sum with a plain real: gradient and Hessian are copied unchanged.
    pub fn add_real(&self, c: Fp) -> (r: HyperDual)
        requires
            self.wf(),
        ensures
            r.dim() == self.dim(),
            r.wf(),
            r.real.bits == add_bits(self.real.bits, c.bits),
            r.grad@ == self.grad@,
            forall|i: int, j: int|
                0 <= i < self.dim() && 0 <= j < self.dim() ==> ent(r.hess@, i, j) == ent(
                    self.hess@,
                    i,
                    j,
                ),
    {
        let n = self.grad.len();
        HyperDual {
            real: self.real.add(c),
            grad: linalg::copy(&self.grad),
            hess: linalg::mat_copy(&self.hess, n),
        }
    }

    /// Difference: value, gradient and Hessian subtract.
    pub fn sub(&self, other: &HyperDual) -> (r: HyperDual)
        requires
            self.wf(),
            other.wf(),
            self.dim() == other.dim(),
        ensures
            r.dim() == self.dim(),
            r.wf(),
            r.real.bits == sub_bits(self.real.bits, other.real.bits),
            forall|i: int|
                0 <= i < self.dim() ==> r.grad@[i].bits == sub_bits(
                    self.grad@[i].bits,
                    other.grad@[i].bits,
                ),
            forall|i: int, j: int|
                0 <= i < self.dim() && 0 <= j < self.dim() ==> ent(r.hess@, i, j) == sub_bits(
                    ent(self.hess@, i, j),
                    ent(other.hess@, i, j),
                ),
            self.hess_symmetric() && other.hess_symmetric() ==> r.hess_symmetric(),
    {
        let n = self.grad.len();
        HyperDual {
            real: self.real.sub(other.real),
            grad: linalg::sub(&self.grad, &other.grad),
            hess: linalg::mat_sub(&self.hess, &other.hess, n),
        }
    }

    /// Difference with a plain real: gradient and Hessian are copied.
    pub fn sub_real(&self, c: Fp) -> (r: HyperDual)
        requires
            self.wf(),
        ensures
            r.dim() == self.dim(),
            r.wf(),
            r.real.bits == sub_bits(self.real.bits, c.bits),
            r.grad@ == self.grad@,
            forall|i: int, j: int|
                0 <= i < self.dim() && 0 <= j < self.dim() ==> ent(r.hess@, i, j) == ent(
                    self.hess@,
                    i,
                    j,
                ),
    {
        let n = self.grad.len();
        HyperDual {
            real: self.real.sub(c),
            grad: linalg::copy(&self.grad),
            hess: linalg::mat_copy(&self.hess, n),
        }
    }

    /// A plain real minus this hyperdual: gradient and Hessian flip sign.
    pub fn real_sub(c: Fp, a: &HyperDual) -> (r: HyperDual)
        requires
            a.wf(),
        ensures
            r.dim() == a.dim(),
            r.wf(),
            r.real.bits == sub_bits(c.bits, a.real.bits),
            forall|i: int| 0 <= i < a.dim() ==> r.grad@[i].bits == neg_bits(a.grad@[i].bits),
            forall|i: int, j: int|
                0 <= i < a.dim() && 0 <= j < a.dim() ==> ent(r.hess@, i, j) == neg_bits(
                    ent(a.hess@, i, j),
                ),
            a.hess_symmetric() ==> r.hess_symmetric(),
    {
        let n = a.grad.len();
        HyperDual {
            real: c.sub(a.real),
            grad: linalg::neg(&a.grad),
            hess: linalg::mat_neg(&a.hess, n),
        }
    }

    /// Negation of all three parts.
    pub fn neg(&self) -> (r: HyperDual)
        requires
            self.wf(),
        ensures
            r.dim() == self.dim(),
            r.wf(),
            r.real.bits == neg_bits(self.real.bits),
            forall|i: int| 0 <= i < self.dim() ==> r.grad@[i].bits == neg_bits(self.grad@[i].bits),
            forall|i: int, j: int|
                0 <= i < self.dim() && 0 <= j < self.dim() ==> ent(r.hess@, i, j) == neg_bits(
                    ent(self.hess@, i, j),
                ),
            self.hess_symmetric() ==> r.hess_symmetric(),
    {
        let n = self.grad.len();
        HyperDual {
            real: self.real.neg(),
            grad: linalg::neg(&self.grad),
            hess: linalg::mat_neg(&self.hess, n),
        }
    }

    /// Product, by the second-order product rule; the result's Hessian is
    /// symmetric by construction.
    pub fn mul(&self, other: &HyperDual) -> (r: HyperDual)
        requires
            self.wf(),
            other.wf(),
            self.dim() == other.dim(),
        ensures
            r.dim() == self.dim(),
            r.wf(),
            r.real.bits == mul_bits(self.real.bits, other.real.bits),
            forall|i: int|
                0 <= i < self.dim() ==> r.grad@[i].bits == add_bits(
                    mul_bits(self.real.bits, other.grad@[i].bits),
                    mul_bits(other.real.bits, self.grad@[i].bits),
                ),
            forall|i: int, j: int|
                0 <= i <= j < self.dim() ==> ent(r.hess@, i, j) == hd_mul_hess_ent(
                    *self,
                    *other,
                    i,
                    j,
                ),
            r.hess_symmetric(),
    {
        let n = self.grad.len();
        let m = linalg::outer(&self.grad, &other.grad, n);
        let u = linalg::mat_add(
            &linalg::mat_add(
                &linalg::mat_add(&linalg::mat_scale(self.real, &other.hess, n), &m, n),
                &linalg::transpose(&m, n),
                n,
            ),
            &linalg::mat_scale(other.real, &self.hess, n),
            n,
        );
        HyperDual {
            real: self.real.mul(other.real),
            grad: linalg::add(
                &linalg::scale(self.real, &other.grad),
                &linalg::scale(other.real, &self.grad),
            ),
            hess: linalg::mirror_upper(&u, n),
        }
    }

    /// Product with a plain real: all three parts scale.
    pub fn mul_real(&self, c: Fp) -> (r: HyperDual)
        requires
            self.wf(),
        ensures
            r.dim() == self.dim(),
            r.wf(),
            r.real.bits == mul_bits(self.real.bits, c.bits),
            forall|i: int|
                0 <= i < self.dim() ==> r.grad@[i].bits == mul_bits(c.bits, self.grad@[i].bits),
            forall|i: int, j: int|
                0 <= i < self.dim() && 0 <= j < self.dim() ==> ent(r.hess@, i, j) == mul_bits(
                    c.bits,
                    ent(self.hess@, i, j),
                ),
            self.hess_symmetric() ==> r.hess_symmetric(),
    {
        let n = self.grad.len();
        HyperDual {
            real: self.real.mul(c),
            grad: linalg::scale(c, &self.grad),
            hess: linalg::mat_scale(c, &self.hess, n),
        }
    }

    /// Quotient, by the second-order quotient rule; the result's Hessian is
    /// symmetric by construction.
    pub fn div(&self, other: &HyperDual) -> (r: HyperDual)
        requires
            self.wf(),
            other.wf(),
            self.dim() == other.dim(),
        ensures
            r.dim() == self.dim(),
            r.wf(),
            r.real.bits == div_bits(self.real.bits, other.real.bits),
            forall|i: int|
                0 <= i < self.dim() ==> r.grad@[i].bits == sub_bits(
                    div_bits(self.grad@[i].bits, other.real.bits),
                    div_bits(
                        mul_bits(self.real.bits, other.grad@[i].bits),
                        powi_bits(other.real.bits, 2),
                    ),
                ),
            forall|i: int, j: int|
                0 <= i <= j < self.dim() ==> ent(r.hess@, i, j) == hd_div_hess_ent(
                    *self,
                    *other,
                    i,
                    j,
                ),
            r.hess_symmetric(),
    {
        let n = self.grad.len();
        let or2 = other.real.powi(2);
        let or3 = other.real.powi(3);
        let two = Fp::from_bits(TWO_BITS);
        let m = linalg::outer(&linalg::div_by(&self.grad, or2), &other.grad, n);
        let w = linalg::mat_add(
            &linalg::mat_scale(other.real, &other.hess, n),
            &linalg::outer(&linalg::scale(two.neg(), &other.grad), &other.grad, n),
            n,
        );
        let u = linalg::mat_sub(
            &linalg::mat_sub(
                &linalg::mat_sub(&linalg::mat_div_by(&self.hess, other.real, n), &m, n),
                &linalg::transpose(&m, n),
                n,
            ),
            &linalg::mat_scale(self.real.div(or3), &w, n),
            n,
        );
        HyperDual {
            real: self.real.div(other.real),
            grad: linalg::sub(
                &linalg::div_by(&self.grad, other.real),
                &linalg::div_by(&linalg::scale(self.real, &other.grad), or2),
            ),
            hess: linalg::mirror_upper(&u, n),
        }
    }

    /// Quotient by a plain real: all three parts divide.
    pub fn div_real(&self, c: Fp) -> (r: HyperDual)
        requires
            self.wf(),
        ensures
            r.dim() == self.dim(),
            r.wf(),
            r.real.bits == div_bits(self.real.bits, c.bits),
            forall|i: int|
                0 <= i < self.dim() ==> r.grad@[i].bits == div_bits(self.grad@[i].bits, c.bits),
            forall|i: int, j: int|
                0 <= i < self.dim() && 0 <= j < self.dim() ==> ent(r.hess@, i, j) == div_bits(
                    ent(self.hess@, i, j),
                    c.bits,
                ),
            self.hess_symmetric() ==> r.hess_symmetric(),
    {
        let n = self.grad.len();
        HyperDual {
            real: self.real.div(c),
            grad: linalg::div_by(&self.grad, c),
            hess: linalg::mat_div_by(&self.hess, c, n),
        }
    }

    /// A plain real divided by this hyperdual; the result's Hessian is
    /// symmetric by construction.
    pub fn real_div(c: Fp, a: &HyperDual) -> (r: HyperDual)
        requires
            a.wf(),
        ensures
            r.dim() == a.dim(),
            r.wf(),
            r.real.bits == div_bits(c.bits, a.real.bits),
            forall|i: int|
                0 <= i < a.dim() ==> r.grad@[i].bits == div_bits(
                    mul_bits(neg_bits(c.bits), a.grad@[i].bits),
                    powi_bits(a.real.bits, 2),
                ),
            forall|i: int, j: int|
                0 <= i <= j < a.dim() ==> ent(r.hess@, i, j) == mul_bits(
                    div_bits(neg_bits(c.bits), powi_bits(a.real.bits, 3)),
                    hd_div_w_ent(*a, i, j),
                ),
            r.hess_symmetric(),
    {
        let n = a.grad.len();
        let or2 = a.real.powi(2);
        let or3 = a.real.powi(3);
        let two = Fp::from_bits(TWO_BITS);
        let w = linalg::mat_add(
            &linalg::mat_scale(a.real, &a.hess, n),
            &linalg::outer(&linalg::scale(two.neg(), &a.grad), &a.grad, n),
            n,
        );
        let u = linalg::mat_scale(c.neg().div(or3), &w, n);
        HyperDual {
            real: c.div(a.real),
            grad: linalg::div_by(&linalg::scale(c.neg(), &a.grad), or2),
            hess: linalg::mirror_upper(&u, n),
        }
    }
}

} // verus!
