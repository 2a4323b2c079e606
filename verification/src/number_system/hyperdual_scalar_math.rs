//! Transcendental functions on the hyperdual scalar: the chain rule for
//! the value, the two first derivatives and the mixed second derivative.

use vstd::prelude::*;
use crate::fp::Fp;
use crate::fp::add_bits;
use crate::fp::sub_bits;
use crate::fp::mul_bits;
use crate::fp::neg_bits;
use crate::fp::powi_bits;
use crate::fp::from_i32_bits;
use crate::fp::ONE_BITS;
use crate::fp::trig::sin_bits;
use crate::fp::trig::cos_bits;
use crate::number_system::hyperdual_scalar::HyperDualScalar as HDual;

verus! {

/// The sine of a hyperdual scalar, by the second-order chain rule.
pub open spec fn hds_sin(a: HDual) -> HDual {
    HDual {
        re: Fp { bits: sin_bits(a.re.bits) },
        e1: Fp { bits: mul_bits(a.e1.bits, cos_bits(a.re.bits)) },
        e2: Fp { bits: mul_bits(a.e2.bits, cos_bits(a.re.bits)) },
        e1e2: Fp {
            bits: sub_bits(
                mul_bits(cos_bits(a.re.bits), a.e1e2.bits),
                mul_bits(mul_bits(sin_bits(a.re.bits), a.e1.bits), a.e2.bits),
            ),
        },
    }
}

/// The cosine of a hyperdual scalar, by the second-order chain rule.
pub open spec fn hds_cos(a: HDual) -> HDual {
    HDual {
        re: Fp { bits: cos_bits(a.re.bits) },
        e1: Fp { bits: mul_bits(neg_bits(a.e1.bits), sin_bits(a.re.bits)) },
        e2: Fp { bits: mul_bits(neg_bits(a.e2.bits), sin_bits(a.re.bits)) },
        e1e2: Fp {
            bits: sub_bits(
                mul_bits(neg_bits(sin_bits(a.re.bits)), a.e1e2.bits),
                mul_bits(mul_bits(cos_bits(a.re.bits), a.e1.bits), a.e2.bits),
            ),
        },
    }
}

impl HDual {
    /// Sine: first derivatives scale by the cosine, and the mixed term
    /// follows the second-order chain rule.
    pub fn sin(&self) -> (r: HDual)
        ensures
            r == hds_sin(*self),
    {
        let s = self.re.sin();
        let c = self.re.cos();
        HDual {
            re: s,
            e1: self.e1.mul(c),
            e2: self.e2.mul(c),
            e1e2: c.mul(self.e1e2).sub(s.mul(self.e1).mul(self.e2)),
        }
    }

    /// Cosine: first derivatives scale by minus the sine, and the mixed
    /// term follows the second-order chain rule.
    pub fn cos(&self) -> (r: HDual)
        ensures
            r == hds_cos(*self),
    {
        let s = self.re.sin();
        let c = self.re.cos();
        HDual {
            re: c,
            e1: self.e1.neg().mul(s),
            e2: self.e2.neg().mul(s),
            e1e2: s.neg().mul(self.e1e2).sub(c.mul(self.e1).mul(self.e2)),
        }
    }

    /// Integer power: `x^n` with the first- and second-order factors
    /// `n·x^(n-1)` and `n·(n-1)·x^(n-2)`.
    pub fn powi(&self, n: i32) -> (r: HDual)
        requires
            n > i32::MIN + 2,
        ensures
            r.re.bits == powi_bits(self.re.bits, n as int),
            r.e1.bits == mul_bits(
                mul_bits(from_i32_bits(n), powi_bits(self.re.bits, n - 1)),
                self.e1.bits,
            ),
            r.e2.bits == mul_bits(
                mul_bits(from_i32_bits(n), powi_bits(self.re.bits, n - 1)),
                self.e2.bits,
            ),
            r.e1e2.bits == add_bits(
                mul_bits(
                    mul_bits(
                        mul_bits(
                            mul_bits(from_i32_bits(n), sub_bits(from_i32_bits(n), ONE_BITS)),
                            powi_bits(self.re.bits, n - 2),
                        ),
                        self.e1.bits,
                    ),
                    self.e2.bits,
                ),
                mul_bits(
                    mul_bits(from_i32_bits(n), powi_bits(self.re.bits, n - 1)),
                    self.e1e2.bits,
                ),
            ),
    {
        let m = Fp::from_i32(n);
        let p1 = self.re.powi(n - 1);
        let p2 = self.re.powi(n - 2);
        HDual {
            re: self.re.powi(n),
            e1: m.mul(p1).mul(self.e1),
            e2: m.mul(p1).mul(self.e2),
            e1e2: m.mul(m.sub(Fp::one())).mul(p2).mul(self.e1).mul(self.e2).add(
                m.mul(p1).mul(self.e1e2),
            ),
        }
    }
}

} // verus!
