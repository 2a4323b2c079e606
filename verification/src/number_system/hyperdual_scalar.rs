//! A second-order dual number with two perturbation directions: a value,
//! two first derivatives and one mixed second derivative.

use vstd::prelude::*;
use crate::fp::Fp;
use crate::fp::add_bits;
use crate::fp::sub_bits;
use crate::fp::mul_bits;
use crate::fp::div_bits;
use crate::fp::neg_bits;
use crate::fp::powi_bits;
use crate::fp::TWO_BITS;

verus! {

/// A real value `re`, first derivatives `e1` and `e2` along two seed
/// directions, and the mixed second derivative `e1e2`.
#[derive(Clone, Copy, Debug, PartialEq, Eq, Structural)]
pub struct HyperDualScalar {
    pub re: Fp,
    pub e1: Fp,
    pub e2: Fp,
    pub e1e2: Fp,
}

/// The sum: all four components add.
pub open spec fn hds_add(a: HyperDualScalar, b: HyperDualScalar) -> HyperDualScalar {
    HyperDualScalar {
        re: Fp { bits: add_bits(a.re.bits, b.re.bits) },
        e1: Fp { bits: add_bits(a.e1.bits, b.e1.bits) },
        e2: Fp { bits: add_bits(a.e2.bits, b.e2.bits) },
        e1e2: Fp { bits: add_bits(a.e1e2.bits, b.e1e2.bits) },
    }
}

/// The difference: all four components subtract.
pub open spec fn hds_sub(a: HyperDualScalar, b: HyperDualScalar) -> HyperDualScalar {
    HyperDualScalar {
        re: Fp { bits: sub_bits(a.re.bits, b.re.bits) },
        e1: Fp { bits: sub_bits(a.e1.bits, b.e1.bits) },
        e2: Fp { bits: sub_bits(a.e2.bits, b.e2.bits) },
        e1e2: Fp { bits: sub_bits(a.e1e2.bits, b.e1e2.bits) },
    }
}

/// The negation of all four components.
pub open spec fn hds_neg(a: HyperDualScalar) -> HyperDualScalar {
    HyperDualScalar {
        re: Fp { bits: neg_bits(a.re.bits) },
        e1: Fp { bits: neg_bits(a.e1.bits) },
        e2: Fp { bits: neg_bits(a.e2.bits) },
        e1e2: Fp { bits: neg_bits(a.e1e2.bits) },
    }
}

/// The second-order product rule: first derivatives follow the product
/// rule, and the mixed term collects the four cross contributions.
pub open spec fn hds_mul(a: HyperDualScalar, b: HyperDualScalar) -> HyperDualScalar {
    HyperDualScalar {
        re: Fp { bits: mul_bits(a.re.bits, b.re.bits) },
        e1: Fp {
            bits: add_bits(mul_bits(a.re.bits, b.e1.bits), mul_bits(a.e1.bits, b.re.bits)),
        },
        e2: Fp {
            bits: add_bits(mul_bits(a.re.bits, b.e2.bits), mul_bits(a.e2.bits, b.re.bits)),
        },
        e1e2: Fp {
            bits: add_bits(
                add_bits(
                    add_bits(
                        mul_bits(a.re.bits, b.e1e2.bits),
                        mul_bits(a.e1.bits, b.e2.bits),
                    ),
                    mul_bits(a.e2.bits, b.e1.bits),
                ),
                mul_bits(b.re.bits, a.e1e2.bits),
            ),
        },
    }
}

/// The second-order quotient rule.
pub open spec fn hds_div(a: HyperDualScalar, b: HyperDualScalar) -> HyperDualScalar {
    let or2 = powi_bits(b.re.bits, 2);
    let or3 = powi_bits(b.re.bits, 3);
    HyperDualScalar {
        re: Fp { bits: div_bits(a.re.bits, b.re.bits) },
        e1: Fp {
            bits: sub_bits(
                div_bits(a.e1.bits, b.re.bits),
                div_bits(mul_bits(a.re.bits, b.e1.bits), or2),
            ),
        },
        e2: Fp {
            bits: sub_bits(
                div_bits(a.e2.bits, b.re.bits),
                div_bits(mul_bits(a.re.bits, b.e2.bits), or2),
            ),
        },
        e1e2: Fp {
            bits: sub_bits(
                add_bits(
                    sub_bits(
                        sub_bits(
                            div_bits(a.e1e2.bits, b.re.bits),
                            div_bits(mul_bits(a.e2.bits, b.e1.bits), or2),
                        ),
                        div_bits(mul_bits(a.e1.bits, b.e2.bits), or2),
                    ),
                    div_bits(
                        mul_bits(mul_bits(mul_bits(TWO_BITS, b.e1.bits), b.e2.bits), a.re.bits),
                        or3,
                    ),
                ),
                div_bits(mul_bits(a.re.bits, b.e1e2.bits), or2),
            ),
        },
    }
}

/// The zero hyperdual scalar.
pub open spec fn hds_zero() -> HyperDualScalar {
    HyperDualScalar {
        re: Fp { bits: 0 },
        e1: Fp { bits: 0 },
        e2: Fp { bits: 0 },
        e1e2: Fp { bits: 0 },
    }
}

/// A hyperdual scalar scaled by a plain real.
pub open spec fn hds_mul_real(a: HyperDualScalar, c: u64) -> HyperDualScalar {
    HyperDualScalar {
        re: Fp { bits: mul_bits(a.re.bits, c) },
        e1: Fp { bits: mul_bits(a.e1.bits, c) },
        e2: Fp { bits: mul_bits(a.e2.bits, c) },
        e1e2: Fp { bits: mul_bits(a.e1e2.bits, c) },
    }
}

/// A hyperdual scalar divided by a plain real.
pub open spec fn hds_div_real(a: HyperDualScalar, c: u64) -> HyperDualScalar {
    HyperDualScalar {
        re: Fp { bits: div_bits(a.re.bits, c) },
        e1: Fp { bits: div_bits(a.e1.bits, c) },
        e2: Fp { bits: div_bits(a.e2.bits, c) },
        e1e2: Fp { bits: div_bits(a.e1e2.bits, c) },
    }
}

/// A plain real divided by a hyperdual scalar.
pub open spec fn hds_real_div(c: u64, b: HyperDualScalar) -> HyperDualScalar {
    let or2 = powi_bits(b.re.bits, 2);
    let or3 = powi_bits(b.re.bits, 3);
    HyperDualScalar {
        re: Fp { bits: div_bits(c, b.re.bits) },
        e1: Fp { bits: div_bits(mul_bits(neg_bits(c), b.e1.bits), or2) },
        e2: Fp { bits: div_bits(mul_bits(neg_bits(c), b.e2.bits), or2) },
        e1e2: Fp {
            bits: sub_bits(
                div_bits(mul_bits(mul_bits(mul_bits(TWO_BITS, b.e1.bits), b.e2.bits), c), or3),
                div_bits(mul_bits(c, b.e1e2.bits), or2),
            ),
        },
    }
}

impl HyperDualScalar {
    /// The zero hyperdual scalar.
    pub fn new() -> (r: HyperDualScalar)
        ensures
            r.re.bits == 0,
            r.e1.bits == 0,
            r.e2.bits == 0,
            r.e1e2.bits == 0,
    {
        HyperDualScalar { re: Fp::zero(), e1: Fp::zero(), e2: Fp::zero(), e1e2: Fp::zero() }
    }

    /// Sum of two hyperdual scalars.
    pub fn add(self, other: HyperDualScalar) -> (r: HyperDualScalar)
        ensures
            r == hds_add(self, other),
    {
        HyperDualScalar {
            re: self.re.add(other.re),
            e1: self.e1.add(other.e1),
            e2: self.e2.add(other.e2),
            e1e2: self.e1e2.add(other.e1e2),
        }
    }

    /// Sum with a plain real: the derivatives are unchanged.
    pub fn add_real(self, c: Fp) -> (r: HyperDualScalar)
        ensures
            r.re.bits == add_bits(self.re.bits, c.bits),
            r.e1 == self.e1,
            r.e2 == self.e2,
            r.e1e2 == self.e1e2,
    {
        HyperDualScalar { re: self.re.add(c), e1: self.e1, e2: self.e2, e1e2: self.e1e2 }
    }

    /// Difference of two hyperdual scalars.
    pub fn sub(self, other: HyperDualScalar) -> (r: HyperDualScalar)
        ensures
            r == hds_sub(self, other),
    {
        HyperDualScalar {
            re: self.re.sub(other.re),
            e1: self.e1.sub(other.e1),
            e2: self.e2.sub(other.e2),
            e1e2: self.e1e2.sub(other.e1e2),
        }
    }

    /// Difference with a plain real: the derivatives are unchanged.
    pub fn sub_real(self, c: Fp) -> (r: HyperDualScalar)
        ensures
            r.re.bits == sub_bits(self.re.bits, c.bits),
            r.e1 == self.e1,
            r.e2 == self.e2,
            r.e1e2 == self.e1e2,
    {
        HyperDualScalar { re: self.re.sub(c), e1: self.e1, e2: self.e2, e1e2: self.e1e2 }
    }

    /// A plain real minus this hyperdual scalar: the derivatives flip sign.
    pub fn real_sub(c: Fp, a: HyperDualScalar) -> (r: HyperDualScalar)
        ensures
            r.re.bits == sub_bits(c.bits, a.re.bits),
            r.e1.bits == neg_bits(a.e1.bits),
            r.e2.bits == neg_bits(a.e2.bits),
            r.e1e2.bits == neg_bits(a.e1e2.bits),
    {
        HyperDualScalar { re: c.sub(a.re), e1: a.e1.neg(), e2: a.e2.neg(), e1e2: a.e1e2.neg() }
    }

    /// Negation.
    pub fn neg(self) -> (r: HyperDualScalar)
        ensures
            r == hds_neg(self),
    {
        HyperDualScalar {
            re: self.re.neg(),
            e1: self.e1.neg(),
            e2: self.e2.neg(),
            e1e2: self.e1e2.neg(),
        }
    }

    /// Product, by the second-order product rule.
    pub fn mul(self, other: HyperDualScalar) -> (r: HyperDualScalar)
        ensures
            r == hds_mul(self, other),
    {
        HyperDualScalar {
            re: self.re.mul(other.re),
            e1: self.re.mul(other.e1).add(self.e1.mul(other.re)),
            e2: self.re.mul(other.e2).add(self.e2.mul(other.re)),
            e1e2: self.re.mul(other.e1e2).add(self.e1.mul(other.e2)).add(
                self.e2.mul(other.e1),
            ).add(other.re.mul(self.e1e2)),
        }
    }

    /// Product with a plain real: all four components scale.
    pub fn mul_real(self, c: Fp) -> (r: HyperDualScalar)
        ensures
            r == hds_mul_real(self, c.bits),
    {
        HyperDualScalar {
            re: self.re.mul(c),
            e1: self.e1.mul(c),
            e2: self.e2.mul(c),
            e1e2: self.e1e2.mul(c),
        }
    }

    /// Quotient, by the second-order quotient rule.  A zero real part of
    /// the divisor propagates infinities or NaNs.
    pub fn div(self, other: HyperDualScalar) -> (r: HyperDualScalar)
        ensures
            r == hds_div(self, other),
    {
        let or2 = other.re.powi(2);
        let or3 = other.re.powi(3);
        let two = Fp::from_bits(TWO_BITS);
        HyperDualScalar {
            re: self.re.div(other.re),
            e1: self.e1.div(other.re).sub(self.re.mul(other.e1).div(or2)),
            e2: self.e2.div(other.re).sub(self.re.mul(other.e2).div(or2)),
            e1e2: self.e1e2.div(other.re).sub(self.e2.mul(other.e1).div(or2)).sub(
                self.e1.mul(other.e2).div(or2),
            ).add(two.mul(other.e1).mul(other.e2).mul(self.re).div(or3)).sub(
                self.re.mul(other.e1e2).div(or2),
            ),
        }
    }

    /// Quotient by a plain real: all four components divide.
    pub fn div_real(self, c: Fp) -> (r: HyperDualScalar)
        ensures
            r == hds_div_real(self, c.bits),
    {
        HyperDualScalar {
            re: self.re.div(c),
            e1: self.e1.div(c),
            e2: self.e2.div(c),
            e1e2: self.e1e2.div(c),
        }
    }

    /// A plain real divided by this hyperdual scalar.
    pub fn real_div(c: Fp, a: HyperDualScalar) -> (r: HyperDualScalar)
        ensures
            r == hds_real_div(c.bits, a),
    {
        let or2 = a.re.powi(2);
        let or3 = a.re.powi(3);
        let two = Fp::from_bits(TWO_BITS);
        HyperDualScalar {
            re: c.div(a.re),
            e1: c.neg().mul(a.e1).div(or2),
            e2: c.neg().mul(a.e2).div(or2),
            e1e2: two.mul(a.e1).mul(a.e2).mul(c).div(or3).sub(c.mul(a.e1e2).div(or2)),
        }
    }
}

} // verus!
