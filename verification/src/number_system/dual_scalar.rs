//! A univariate first-order dual number: a value and one derivative.

use vstd::prelude::*;
use crate::fp::Fp;
use crate::fp::add_bits;
use crate::fp::sub_bits;
use crate::fp::mul_bits;
use crate::fp::div_bits;
use crate::fp::neg_bits;
use crate::fp::powi_bits;

verus! {

/// A real value `re` tagged with its derivative `du` with respect to one
/// designated independent variable.
#[derive(Clone, Copy, Debug, PartialEq, Eq, Structural)]
pub struct DualScalar {
    pub re: Fp,
    pub du: Fp,
}

/// The sum: both components add.
pub open spec fn ds_add(a: DualScalar, b: DualScalar) -> DualScalar {
    DualScalar {
        re: Fp { bits: add_bits(a.re.bits, b.re.bits) },
        du: Fp { bits: add_bits(a.du.bits, b.du.bits) },
    }
}

/// The difference: both components subtract.
pub open spec fn ds_sub(a: DualScalar, b: DualScalar) -> DualScalar {
    DualScalar {
        re: Fp { bits: sub_bits(a.re.bits, b.re.bits) },
        du: Fp { bits: sub_bits(a.du.bits, b.du.bits) },
    }
}

/// The negation of both components.
pub open spec fn ds_neg(a: DualScalar) -> DualScalar {
    DualScalar { re: Fp { bits: neg_bits(a.re.bits) }, du: Fp { bits: neg_bits(a.du.bits) } }
}

/// The product rule: `(a·b)' = a·b' + b·a'`.
pub open spec fn ds_mul(a: DualScalar, b: DualScalar) -> DualScalar {
    DualScalar {
        re: Fp { bits: mul_bits(a.re.bits, b.re.bits) },
        du: Fp {
            bits: add_bits(
                mul_bits(a.re.bits, b.du.bits),
                mul_bits(b.re.bits, a.du.bits),
            ),
        },
    }
}

/// The quotient rule: `(a/b)' = a'/b - a·b'/b^2`.
pub open spec fn ds_div(a: DualScalar, b: DualScalar) -> DualScalar {
    DualScalar {
        re: Fp { bits: div_bits(a.re.bits, b.re.bits) },
        du: Fp {
            bits: sub_bits(
                div_bits(a.du.bits, b.re.bits),
                div_bits(mul_bits(a.re.bits, b.du.bits), powi_bits(b.re.bits, 2)),
            ),
        },
    }
}

impl DualScalar {
    /// The zero dual number.
    pub fn new() -> (r: DualScalar)
        ensures
            r.re.bits == 0,
            r.du.bits == 0,
    {
        DualScalar { re: Fp::zero(), du: Fp::zero() }
    }

    /// Sum of two dual numbers.
    pub fn add(self, other: DualScalar) -> (r: DualScalar)
        ensures
            r == ds_add(self, other),
    {
        DualScalar { re: self.re.add(other.re), du: self.du.add(other.du) }
    }

    /// Sum with a plain real: the derivative is unchanged.
    pub fn add_real(self, c: Fp) -> (r: DualScalar)
        ensures
            r.re.bits == add_bits(self.re.bits, c.bits),
            r.du == self.du,
    {
        DualScalar { re: self.re.add(c), du: self.du }
    }

    /// Difference of two dual numbers.
    pub fn sub(self, other: DualScalar) -> (r: DualScalar)
        ensures
            r == ds_sub(self, other),
    {
        DualScalar { re: self.re.sub(other.re), du: self.du.sub(other.du) }
    }

    /// Difference with a plain real: the derivative is unchanged.
    pub fn sub_real(self, c: Fp) -> (r: DualScalar)
        ensures
            r.re.bits == sub_bits(self.re.bits, c.bits),
            r.du == self.du,
    {
        DualScalar { re: self.re.sub(c), du: self.du }
    }

    /// A plain real minus this dual number: the derivative flips sign.
    pub fn real_sub(c: Fp, a: DualScalar) -> (r: DualScalar)
        ensures
            r.re.bits == sub_bits(c.bits, a.re.bits),
            r.du.bits == neg_bits(a.du.bits),
    {
        DualScalar { re: c.sub(a.re), du: a.du.neg() }
    }

    /// Negation.
    pub fn neg(self) -> (r: DualScalar)
        ensures
            r == ds_neg(self),
    {
        DualScalar { re: self.re.neg(), du: self.du.neg() }
    }

    /// Product, by the product rule.
    pub fn mul(self, other: DualScalar) -> (r: DualScalar)
        ensures
            r == ds_mul(self, other),
    {
        DualScalar {
            re: self.re.mul(other.re),
            du: self.re.mul(other.du).add(other.re.mul(self.du)),
        }
    }

    /// Product with a plain real: both components scale.
    pub fn mul_real(self, c: Fp) -> (r: DualScalar)
        ensures
            r.re.bits == mul_bits(self.re.bits, c.bits),
            r.du.bits == mul_bits(self.du.bits, c.bits),
    {
        DualScalar { re: self.re.mul(c), du: self.du.mul(c) }
    }

    /// Quotient, by the quotient rule.  A zero real part of the divisor
    /// propagates infinities or NaNs, as the underlying division does.
    pub fn div(self, other: DualScalar) -> (r: DualScalar)
        ensures
            r == ds_div(self, other),
    {
        DualScalar {
            re: self.re.div(other.re),
            du: self.du.div(other.re).sub(self.re.mul(other.du).div(other.re.powi(2))),
        }
    }

    /// Quotient by a plain real: both components divide.
    pub fn div_real(self, c: Fp) -> (r: DualScalar)
        ensures
            r.re.bits == div_bits(self.re.bits, c.bits),
            r.du.bits == div_bits(self.du.bits, c.bits),
    {
        DualScalar { re: self.re.div(c), du: self.du.div(c) }
    }

    /// A plain real divided by this dual number.
    pub fn real_div(c: Fp, a: DualScalar) -> (r: DualScalar)
        ensures
            r.re.bits == div_bits(c.bits, a.re.bits),
            r.du.bits == div_bits(mul_bits(c.bits, a.du.bits), powi_bits(a.re.bits, 2)),
    {
        DualScalar { re: c.div(a.re), du: c.mul(a.du).div(a.re.powi(2)) }
    }
}

} // verus!
