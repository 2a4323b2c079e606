//! Transcendental functions on `DualScalar`: the chain rule through the
//! scalar sine, cosine and integer power.

use vstd::prelude::*;
use crate::fp::Fp;
use crate::fp::mul_bits;
use crate::fp::neg_bits;
use crate::fp::powi_bits;
use crate::fp::from_i32_bits;
use crate::fp::trig::sin_bits;
use crate::fp::trig::cos_bits;
use crate::number_system::dual_scalar::DualScalar;

verus! {

impl DualScalar {
    /// Sine: the derivative picks up a factor of the cosine.
    pub fn sin(&self) -> (r: DualScalar)
        ensures
            r.re.bits == sin_bits(self.re.bits),
            r.du.bits == mul_bits(self.du.bits, cos_bits(self.re.bits)),
    {
        DualScalar { re: self.re.sin(), du: self.du.mul(self.re.cos()) }
    }

    /// Cosine: the derivative picks up a factor of minus the sine.
    pub fn cos(&self) -> (r: DualScalar)
        ensures
            r.re.bits == cos_bits(self.re.bits),
            r.du.bits == mul_bits(self.du.bits, neg_bits(sin_bits(self.re.bits))),
    {
        DualScalar { re: self.re.cos(), du: self.du.mul(self.re.sin().neg()) }
    }

    /// Integer power: the derivative picks up the factor `n·x^(n-1)`.
    pub fn powi(&self, n: i32) -> (r: DualScalar)
        requires
            n > i32::MIN,
        ensures
            r.re.bits == powi_bits(self.re.bits, n as int),
            r.du.bits == mul_bits(
                mul_bits(self.du.bits, from_i32_bits(n)),
                powi_bits(self.re.bits, n - 1),
            ),
    {
        let m = Fp::from_i32(n);
        DualScalar {
            re: self.re.powi(n),
            du: self.du.mul(m).mul(self.re.powi(n - 1)),
        }
    }
}

} // verus!
