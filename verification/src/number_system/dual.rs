//! A multivariate first-order dual number: a value and a full gradient.

use vstd::prelude::*;
use crate::fp::Fp;
use crate::fp::add_bits;
use crate::fp::sub_bits;
use crate::fp::mul_bits;
use crate::fp::div_bits;
use crate::fp::neg_bits;
use crate::fp::powi_bits;
use crate::linalg;

verus! {

/// A real value `re` with its gradient `du` with respect to `du.len()`
/// independent variables.
#[derive(Clone, Debug)]
pub struct Dual {
    pub re: Fp,
    pub du: Vec<Fp>,
}

impl Dual {
    /// The number of independent variables.
    pub open spec fn dim(self) -> int {
        self.du@.len() as int
    }

    /// The zero dual number over `n` variables.
    pub fn new(n: usize) -> (r: Dual)
        ensures
            r.re.bits == 0,
            r.dim() == n,
            forall|i: int| 0 <= i < n ==> r.du@[i].bits == 0,
    {
        Dual { re: Fp::zero(), du: linalg::zeros(n) }
    }

    /// An entrywise copy.
    pub fn duplicate(&self) -> (r: Dual)
        ensures
            r.re == self.re,
            r.du@ == self.du@,
    {
        Dual { re: self.re, du: linalg::copy(&self.du) }
    }

    /// Sum: the value and every gradient entry add.
    pub fn add(&self, other: &Dual) -> (r: Dual)
        requires
            self.dim() == other.dim(),
        ensures
            r.dim() == self.dim(),
            r.re.bits == add_bits(self.re.bits, other.re.bits),
            forall|i: int|
                0 <= i < self.dim() ==> r.du@[i].bits == add_bits(
                    self.du@[i].bits,
                    other.du@[i].bits,
                ),
    {
        Dual { re: self.re.add(other.re), du: linalg::add(&self.du, &other.du) }
    }

    /// Sum with a plain real: the gradient is unchanged.
    pub fn add_real(&self, c: Fp) -> (r: Dual)
        ensures
            r.dim() == self.dim(),
            r.re.bits == add_bits(self.re.bits, c.bits),
            forall|i: int| 0 <= i < self.dim() ==> r.du@[i] == self.du@[i],
    {
        Dual { re: self.re.add(c), du: self.du.clone() }
    }

    /// Difference: the value and every gradient entry subtract.
    pub fn sub(&self, other: &Dual) -> (r: Dual)
        requires
            self.dim() == other.dim(),
        ensures
            r.dim() == self.dim(),
            r.re.bits == sub_bits(self.re.bits, other.re.bits),
            forall|i: int|
                0 <= i < self.dim() ==> r.du@[i].bits == sub_bits(
                    self.du@[i].bits,
                    other.du@[i].bits,
                ),
    {
        Dual { re: self.re.sub(other.re), du: linalg::sub(&self.du, &other.du) }
    }

    /// Difference with a plain real: the gradient is unchanged.
    pub fn sub_real(&self, c: Fp) -> (r: Dual)
        ensures
            r.dim() == self.dim(),
            r.re.bits == sub_bits(self.re.bits, c.bits),
            forall|i: int| 0 <= i < self.dim() ==> r.du@[i] == self.du@[i],
    {
        Dual { re: self.re.sub(c), du: self.du.clone() }
    }

    /// A plain real minus this dual number: the gradient flips sign.
    pub fn real_sub(c: Fp, a: &Dual) -> (r: Dual)
        ensures
            r.dim() == a.dim(),
            r.re.bits == sub_bits(c.bits, a.re.bits),
            forall|i: int| 0 <= i < a.dim() ==> r.du@[i].bits == neg_bits(a.du@[i].bits),
    {
        Dual { re: c.sub(a.re), du: linalg::neg(&a.du) }
    }

    /// Negation of the value and the gradient.
    pub fn neg(&self) -> (r: Dual)
        ensures
            r.dim() == self.dim(),
            r.re.bits == neg_bits(self.re.bits),
            forall|i: int| 0 <= i < self.dim() ==> r.du@[i].bits == neg_bits(self.du@[i].bits),
    {
        Dual { re: self.re.neg(), du: linalg::neg(&self.du) }
    }

    /// Product, by the product rule: `(a·b)' = a·b' + b·a'`.
    pub fn mul(&self, other: &Dual) -> (r: Dual)
        requires
            self.dim() == other.dim(),
        ensures
            r.dim() == self.dim(),
            r.re.bits == mul_bits(self.re.bits, other.re.bits),
            forall|i: int|
                0 <= i < self.dim() ==> r.du@[i].bits == add_bits(
                    mul_bits(self.re.bits, other.du@[i].bits),
                    mul_bits(other.re.bits, self.du@[i].bits),
                ),
    {
        Dual {
            re: self.re.mul(other.re),
            du: linalg::add(
                &linalg::scale(self.re, &other.du),
                &linalg::scale(other.re, &self.du),
            ),
        }
    }

    /// Product with a plain real: the value and the gradient scale.
    pub fn mul_real(&self, c: Fp) -> (r: Dual)
        ensures
            r.dim() == self.dim(),
            r.re.bits == mul_bits(c.bits, self.re.bits),
            forall|i: int| 0 <= i < self.dim() ==> r.du@[i].bits == mul_bits(c.bits, self.du@[i].bits),
    {
        Dual { re: c.mul(self.re), du: linalg::scale(c, &self.du) }
    }

    /// Quotient, by the quotient rule: `(a/b)' = a'/b - a·b'/b^2`.
    pub fn div(&self, other: &Dual) -> (r: Dual)
        requires
            self.dim() == other.dim(),
        ensures
            r.dim() == self.dim(),
            r.re.bits == div_bits(self.re.bits, other.re.bits),
            forall|i: int|
                0 <= i < self.dim() ==> r.du@[i].bits == sub_bits(
                    div_bits(self.du@[i].bits, other.re.bits),
                    div_bits(
                        mul_bits(self.re.bits, other.du@[i].bits),
                        powi_bits(other.re.bits, 2),
                    ),
                ),
    {
        let or2 = other.re.powi(2);
        let mut du: Vec<Fp> = Vec::new();
        let mut i: usize = 0;
        while i < self.du.len()
            invariant
                self.dim() == other.dim(),
                i == du@.len(),
                i <= self.dim(),
                or2.bits == powi_bits(other.re.bits, 2),
                forall|j: int|
                    0 <= j < i ==> du@[j].bits == sub_bits(
                        div_bits(self.du@[j].bits, other.re.bits),
                        div_bits(
                            mul_bits(self.re.bits, other.du@[j].bits),
                            powi_bits(other.re.bits, 2),
                        ),
                    ),
            decreases self.dim() - i,
        {
            du.push(self.du[i].div(other.re).sub(self.re.mul(other.du[i]).div(or2)));
            i = i + 1;
        }
        Dual { re: self.re.div(other.re), du }
    }

    /// Quotient by a plain real: the value and the gradient divide.
    pub fn div_real(&self, c: Fp) -> (r: Dual)
        ensures
            r.dim() == self.dim(),
            r.re.bits == div_bits(self.re.bits, c.bits),
            forall|i: int| 0 <= i < self.dim() ==> r.du@[i].bits == div_bits(self.du@[i].bits, c.bits),
    {
        let mut du: Vec<Fp> = Vec::new();
        let mut i: usize = 0;
        while i < self.du.len()
            invariant
                i == du@.len(),
                i <= self.dim(),
                forall|j: int| 0 <= j < i ==> du@[j].bits == div_bits(self.du@[j].bits, c.bits),
            decreases self.dim() - i,
        {
            du.push(self.du[i].div(c));
            i = i + 1;
        }
        Dual { re: self.re.div(c), du }
    }

    /// A plain real divided by this dual number.
    pub fn real_div(c: Fp, a: &Dual) -> (r: Dual)
        ensures
            r.dim() == a.dim(),
            r.re.bits == div_bits(c.bits, a.re.bits),
            forall|i: int|
                0 <= i < a.dim() ==> r.du@[i].bits == div_bits(
                    mul_bits(neg_bits(c.bits), a.du@[i].bits),
                    powi_bits(a.re.bits, 2),
                ),
    {
        let or2 = a.re.powi(2);
        let nc = c.neg();
        let mut du: Vec<Fp> = Vec::new();
        let mut i: usize = 0;
        while i < a.du.len()
            invariant
                i == du@.len(),
                i <= a.dim(),
                or2.bits == powi_bits(a.re.bits, 2),
                nc.bits == neg_bits(c.bits),
                forall|j: int|
                    0 <= j < i ==> du@[j].bits == div_bits(
                        mul_bits(neg_bits(c.bits), a.du@[j].bits),
                        powi_bits(a.re.bits, 2),
                    ),
            decreases a.dim() - i,
        {
            du.push(nc.mul(a.du[i]).div(or2));
            i = i + 1;
        }
        Dual { re: c.div(a.re), du }
    }
}

} // verus!
