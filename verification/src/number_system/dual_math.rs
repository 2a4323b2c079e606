//! Transcendental functions on `Dual`: the chain rule applied to every
//! gradient entry.

use vstd::prelude::*;
use crate::fp::Fp;
use crate::fp::mul_bits;
use crate::fp::neg_bits;
use crate::fp::powi_bits;
use crate::fp::from_i32_bits;
use crate::fp::trig::sin_bits;
use crate::fp::trig::cos_bits;
use crate::linalg;
use crate::number_system::dual::Dual;

verus! {

impl Dual {
    /// Sine: every gradient entry picks up a factor of the cosine.
    pub fn sin(&self) -> (r: Dual)
        ensures
            r.dim() == self.dim(),
            r.re.bits == sin_bits(self.re.bits),
            forall|i: int|
                0 <= i < self.dim() ==> r.du@[i].bits == mul_bits(
                    cos_bits(self.re.bits),
                    self.du@[i].bits,
                ),
    {
        Dual { re: self.re.sin(), du: linalg::scale(self.re.cos(), &self.du) }
    }

    /// Cosine: every gradient entry picks up a factor of minus the sine.
    pub fn cos(&self) -> (r: Dual)
        ensures
            r.dim() == self.dim(),
            r.re.bits == cos_bits(self.re.bits),
            forall|i: int|
                0 <= i < self.dim() ==> r.du@[i].bits == mul_bits(
                    neg_bits(sin_bits(self.re.bits)),
                    self.du@[i].bits,
                ),
    {
        Dual { re: self.re.cos(), du: linalg::scale(self.re.sin().neg(), &self.du) }
    }

    /// Integer power: every gradient entry picks up the factor `n·x^(n-1)`.
    pub fn powi(&self, n: i32) -> (r: Dual)
        requires
            n > i32::MIN,
        ensures
            r.dim() == self.dim(),
            r.re.bits == powi_bits(self.re.bits, n as int),
            forall|i: int|
                0 <= i < self.dim() ==> r.du@[i].bits == mul_bits(
                    mul_bits(from_i32_bits(n), powi_bits(self.re.bits, n - 1)),
                    self.du@[i].bits,
                ),
    {
        let m = Fp::from_i32(n);
        Dual {
            re: self.re.powi(n),
            du: linalg::scale(m.mul(self.re.powi(n - 1)), &self.du),
        }
    }
}

} // verus!
