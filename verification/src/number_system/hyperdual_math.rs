//! Transcendental functions on `HyperDual`: the second-order chain rule,
//! with the Hessian mirrored from its upper triangle.

use vstd::prelude::*;
use crate::fp::Fp;
use crate::fp::add_bits;
use crate::fp::sub_bits;
use crate::fp::mul_bits;
use crate::fp::neg_bits;
use crate::fp::powi_bits;
use crate::fp::from_i32_bits;
use crate::fp::ONE_BITS;
use crate::fp::trig::sin_bits;
use crate::fp::trig::cos_bits;
use crate::linalg;
use crate::linalg::ent;
use crate::number_system::hyperdual::HyperDual;

verus! {

/// The Hessian entry of the sine: `cos(x)·H - sin(x)·g·g^T`.
pub open spec fn hd_sin_hess_ent(a: HyperDual, i: int, j: int) -> u64 {
    sub_bits(
        mul_bits(cos_bits(a.real.bits), ent(a.hess@, i, j)),
        mul_bits(sin_bits(a.real.bits), mul_bits(a.grad@[i].bits, a.grad@[j].bits)),
    )
}

/// The Hessian entry of the cosine: `-sin(x)·H - cos(x)·g·g^T`.
pub open spec fn hd_cos_hess_ent(a: HyperDual, i: int, j: int) -> u64 {
    sub_bits(
        mul_bits(neg_bits(sin_bits(a.real.bits)), ent(a.hess@, i, j)),
        mul_bits(cos_bits(a.real.bits), mul_bits(a.grad@[i].bits, a.grad@[j].bits)),
    )
}

/// The Hessian entry of the integer power:
/// `n·x^(n-2)·(x·H + (n-1)·g·g^T)`.
pub open spec fn hd_powi_hess_ent(a: HyperDual, n: int, i: int, j: int) -> u64 {
    mul_bits(
        mul_bits(from_i32_bits(n as i32), powi_bits(a.real.bits, n - 2)),
        add_bits(
            mul_bits(a.real.bits, ent(a.hess@, i, j)),
            mul_bits(
                sub_bits(from_i32_bits(n as i32), ONE_BITS),
                mul_bits(a.grad@[i].bits, a.grad@[j].bits),
            ),
        ),
    )
}

impl HyperDual {
    /// Sine: the gradient scales by the cosine, and the Hessian follows the
    /// second-order chain rule, symmetric by construction.
    pub fn sin(&self) -> (r: HyperDual)
        requires
            self.wf(),
        ensures
            r.dim() == self.dim(),
            r.wf(),
            r.real.bits == sin_bits(self.real.bits),
            forall|i: int|
                0 <= i < self.dim() ==> r.grad@[i].bits == mul_bits(
                    cos_bits(self.real.bits),
                    self.grad@[i].bits,
                ),
            forall|i: int, j: int|
                0 <= i <= j < self.dim() ==> ent(r.hess@, i, j) == hd_sin_hess_ent(*self, i, j),
            r.hess_symmetric(),
    {
        let n = self.grad.len();
        let s = self.real.sin();
        let c = self.real.cos();
        let l = linalg::outer(&self.grad, &self.grad, n);
        let u = linalg::mat_sub(
            &linalg::mat_scale(c, &self.hess, n),
            &linalg::mat_scale(s, &l, n),
            n,
        );
        HyperDual {
            real: s,
            grad: linalg::scale(c, &self.grad),
            hess: linalg::mirror_upper(&u, n),
        }
    }

    /// Cosine: the gradient scales by minus the sine, and the Hessian
    /// follows the second-order chain rule, symmetric by construction.
    pub fn cos(&self) -> (r: HyperDual)
        requires
            self.wf(),
        ensures
            r.dim() == self.dim(),
            r.wf(),
            r.real.bits == cos_bits(self.real.bits),
            forall|i: int|
                0 <= i < self.dim() ==> r.grad@[i].bits == mul_bits(
                    neg_bits(sin_bits(self.real.bits)),
                    self.grad@[i].bits,
                ),
            forall|i: int, j: int|
                0 <= i <= j < self.dim() ==> ent(r.hess@, i, j) == hd_cos_hess_ent(*self, i, j),
            r.hess_symmetric(),
    {
        let n = self.grad.len();
        let s = self.real.sin();
        let c = self.real.cos();
        let l = linalg::outer(&self.grad, &self.grad, n);
        let u = linalg::mat_sub(
            &linalg::mat_scale(s.neg(), &self.hess, n),
            &linalg::mat_scale(c, &l, n),
            n,
        );
        HyperDual {
            real: c,
            grad: linalg::scale(s.neg(), &self.grad),
            hess: linalg::mirror_upper(&u, n),
        }
    }

    /// Integer power: first- and second-order factors `n·x^(n-1)` and
    /// `n·(n-1)·x^(n-2)`, the Hessian symmetric by construction.
    pub fn powi(&self, n: i32) -> (r: HyperDual)
        requires
            self.wf(),
            n > i32::MIN + 2,
        ensures
            r.dim() == self.dim(),
            r.wf(),
            r.real.bits == powi_bits(self.real.bits, n as int),
            forall|i: int|
                0 <= i < self.dim() ==> r.grad@[i].bits == mul_bits(
                    mul_bits(from_i32_bits(n), powi_bits(self.real.bits, n - 1)),
                    self.grad@[i].bits,
                ),
            forall|i: int, j: int|
                0 <= i <= j < self.dim() ==> ent(r.hess@, i, j) == hd_powi_hess_ent(
                    *self,
                    n as int,
                    i,
                    j,
                ),
            r.hess_symmetric(),
    {
        let nn = self.grad.len();
        let m = Fp::from_i32(n);
        let p1 = self.re_powi(n - 1);
        let p2 = self.re_powi(n - 2);
        let l = linalg::outer(&self.grad, &self.grad, nn);
        let u = linalg::mat_scale(
            m.mul(p2),
            &linalg::mat_add(
                &linalg::mat_scale(self.real, &self.hess, nn),
                &linalg::mat_scale(m.sub(Fp::one()), &l, nn),
                nn,
            ),
            nn,
        );
        HyperDual {
            real: self.re_powi(n),
            grad: linalg::scale(m.mul(p1), &self.grad),
            hess: linalg::mirror_upper(&u, nn),
        }
    }

    /// The integer power of the real part alone.
    fn re_powi(&self, n: i32) -> (r: Fp)
        ensures
            r.bits == powi_bits(self.real.bits, n as int),
    {
        self.real.powi(n)
    }
}

} // verus!
