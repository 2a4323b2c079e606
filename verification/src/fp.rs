//! Double-precision scalars, held as raw IEEE-754 bit patterns.
//!
//! The verifier has no model of floating-point arithmetic, so a number is
//! carried as the `u64` holding its IEEE-754 binary64 encoding.  The four
//! rounding operations are delegated to the `rustc_apfloat` soft-float
//! library and named by uninterpreted spec functions; everything else —
//! sign manipulation, classification, ordering, integer conversion and the
//! square root — is integer logic, implemented and verified here.

pub mod trig;

use vstd::prelude::*;
use rustc_apfloat::Float as ApFloat;
use rustc_apfloat::Round;
use rustc_apfloat::ieee::Double;

verus! {

/// Bit pattern of `1.0`.
pub const ONE_BITS: u64 = 0x3FF0_0000_0000_0000;
/// Bit pattern of `2.0`.
pub const TWO_BITS: u64 = 0x4000_0000_0000_0000;
/// Bit pattern of `0.5`.
pub const HALF_BITS: u64 = 0x3FE0_0000_0000_0000;
/// Mask of the sign bit.
pub const SIGN_MASK: u64 = 0x8000_0000_0000_0000;
/// Mask of everything below the sign bit (exponent and fraction).
pub const MAG_MASK: u64 = 0x7FFF_FFFF_FFFF_FFFF;
/// Mask of the fraction field.
pub const FRAC_MASK: u64 = 0xF_FFFF_FFFF_FFFF;
/// The implicit leading mantissa bit of a normal number.
pub const IMPLICIT_BIT: u64 = 0x10_0000_0000_0000;
/// Magnitude of positive infinity; every larger magnitude is a NaN.
pub const INF_MAG: u64 = 0x7FF0_0000_0000_0000;
/// The canonical quiet NaN this library produces itself.
pub const QNAN_BITS: u64 = 0x7FF8_0000_0000_0000;

/// The rounded sum of the doubles encoded by `a` and `b` (IEEE-754 binary64
/// addition, round to nearest, ties to even).
pub uninterp spec fn add_bits(a: u64, b: u64) -> u64;

/// The rounded difference of the doubles encoded by `a` and `b`.
pub uninterp spec fn sub_bits(a: u64, b: u64) -> u64;

/// The rounded product of the doubles encoded by `a` and `b`.
pub uninterp spec fn mul_bits(a: u64, b: u64) -> u64;

/// The rounded quotient of the doubles encoded by `a` and `b`.
pub uninterp spec fn div_bits(a: u64, b: u64) -> u64;

/// The magnitude (absolute-value) bits of `a`.
pub open spec fn mag_bits(a: u64) -> u64 {
    a & MAG_MASK
}

/// Whether `a` encodes a NaN.
pub open spec fn is_nan_bits(a: u64) -> bool {
    mag_bits(a) > INF_MAG
}

/// Whether `a` encodes a zero (of either sign).
pub open spec fn is_zero_bits(a: u64) -> bool {
    mag_bits(a) == 0
}

/// Whether `a` carries a negative sign.
pub open spec fn sign_bits(a: u64) -> bool {
    (a >> 63) == 1
}

/// Negation: exactly a flip of the sign bit.
pub open spec fn neg_bits(a: u64) -> u64 {
    a ^ SIGN_MASK
}

/// Absolute value: exactly a clear of the sign bit.
pub open spec fn abs_bits(a: u64) -> u64 {
    a & MAG_MASK
}

/// IEEE-754 `<` on the encoded doubles: false whenever either side is a
/// NaN, and treating the two zeros as equal.
pub open spec fn lt_bits(a: u64, b: u64) -> bool {
    if is_nan_bits(a) || is_nan_bits(b) {
        false
    } else if sign_bits(a) != sign_bits(b) {
        sign_bits(a) && !(is_zero_bits(a) && is_zero_bits(b))
    } else if !sign_bits(a) {
        mag_bits(a) < mag_bits(b)
    } else {
        mag_bits(b) < mag_bits(a)
    }
}

/// IEEE-754 `<=` on the encoded doubles: false whenever either side is a NaN.
pub open spec fn le_bits(a: u64, b: u64) -> bool {
    !is_nan_bits(a) && !is_nan_bits(b) && !lt_bits(b, a)
}

/// IEEE-754 `==` on the encoded doubles: false whenever either side is a
/// NaN, true for `0.0 == -0.0`.
pub open spec fn eq_bits(a: u64, b: u64) -> bool {
    !is_nan_bits(a) && !is_nan_bits(b) && (a == b || (is_zero_bits(a) && is_zero_bits(b)))
}

/// The smaller operand; the other operand when one is a NaN, the first when
/// the operands compare equal.
pub open spec fn min_bits(a: u64, b: u64) -> u64 {
    if is_nan_bits(a) {
        b
    } else if is_nan_bits(b) {
        a
    } else if lt_bits(b, a) {
        b
    } else {
        a
    }
}

/// The larger operand; the other operand when one is a NaN, the first when
/// the operands compare equal.
pub open spec fn max_bits(a: u64, b: u64) -> u64 {
    if is_nan_bits(a) {
        b
    } else if is_nan_bits(b) {
        a
    } else if lt_bits(a, b) {
        b
    } else {
        a
    }
}

/// `a` multiplied onto `1.0` `n` times.
pub open spec fn pow_nonneg_bits(a: u64, n: nat) -> u64
    decreases n,
{
    if n == 0 {
        ONE_BITS
    } else {
        mul_bits(pow_nonneg_bits(a, (n - 1) as nat), a)
    }
}

/// Integer power: repeated multiplication, and for a negative exponent the
/// reciprocal of the positive power.
pub open spec fn powi_bits(a: u64, n: int) -> u64 {
    if n >= 0 {
        pow_nonneg_bits(a, n as nat)
    } else {
        div_bits(ONE_BITS, pow_nonneg_bits(a, (-n) as nat))
    }
}

/// The position of the highest set bit: floor of the base-two logarithm,
/// and zero for zero.
pub open spec fn log2(v: u64) -> nat
    decreases v,
{
    if v <= 1 {
        0
    } else {
        1 + log2(v / 2)
    }
}

/// The largest `s` with `s * s <= m`, found digit by digit: `b` runs down
/// through the powers of two and each accepted digit is kept in `s`.
pub closed spec fn isqrt_cont(m: u128, s: u64, b: u64) -> u64
    decreases b,
{
    if b == 0 {
        s
    } else {
        let t = (s + b) as u64;
        let s2 = if (t as u128) * (t as u128) <= m {
            t
        } else {
            s
        };
        isqrt_cont(m, s2, b / 2)
    }
}

/// The correctly rounded square root of the encoded double, computed on the
/// integer mantissa: a NaN propagates, a negative operand gives the
/// canonical NaN, and a positive operand is normalized to an even exponent
/// before the digit-by-digit root and the round to nearest.
pub closed spec fn sqrt_bits(a: u64) -> u64 {
    if is_nan_bits(a) {
        a
    } else if is_zero_bits(a) {
        a
    } else if sign_bits(a) {
        QNAN_BITS
    } else if a == INF_MAG {
        a
    } else {
        let e_raw = a >> 52;
        let frac = a & FRAC_MASK;
        let m0 = if e_raw == 0 {
            frac
        } else {
            frac | IMPLICIT_BIT
        };
        let ee0 = if e_raw == 0 {
            126u64
        } else {
            (e_raw + 125) as u64
        };
        let shift = (52 - log2(m0)) as u64;
        let m1 = m0 << shift;
        let ee1 = (ee0 - shift) as u64;
        let m2 = if ee1 % 2 != 0 {
            m1 << 1u64
        } else {
            m1
        };
        let ee2 = if ee1 % 2 != 0 {
            (ee1 - 1) as u64
        } else {
            ee1
        };
        let s = isqrt_cont((m2 as u128) << 54, 0, 0x20_0000_0000_0000);
        let q = ((s >> 1) + (s & 1)) as u64;
        let eb = ((ee2 / 2) + 449) as u64;
        (eb << 52) | (q & FRAC_MASK)
    }
}

/// The double of the 32-bit integer `n`; the conversion is always exact.
pub closed spec fn from_i32_bits(n: i32) -> u64 {
    if n == 0 {
        0
    } else {
        let sgn: u64 = if n < 0 {
            1
        } else {
            0
        };
        let v: u64 = if n < 0 {
            (-(n as int)) as u64
        } else {
            n as u64
        };
        let h = log2(v) as u64;
        let eb = (1023 + h) as u64;
        let frac = (v << ((52 - h) as u64)) & FRAC_MASK;
        (sgn << 63) | (eb << 52) | frac
    }
}

/// A double-precision IEEE-754 number, represented by its bit pattern.
///
/// Equality derived on this struct is bit equality; IEEE comparisons (which
/// differ on NaN and on signed zeros) are the `lt`, `le`, `eq_ieee`, and
/// `is_zero` methods.
#[derive(Clone, Copy, Debug, PartialEq, Eq, Structural)]
pub struct Fp {
    pub bits: u64,
}

/// Relies on rustc_apfloat's IeeeFloat::add_r for the Double semantics:
/// IEEE-754 binary64 addition with round-to-nearest-even, a pure function
/// of the operand bits.
#[verifier::external_body]
fn add_raw(a: u64, b: u64) -> (r: u64)
    ensures
        r == add_bits(a, b),
{
    let x = Double::from_bits(a as u128);
    let y = Double::from_bits(b as u128);
    x.add_r(y, Round::NearestTiesToEven).value.to_bits() as u64
}

/// Relies on rustc_apfloat's IeeeFloat::sub_r for the Double semantics:
/// IEEE-754 binary64 subtraction with round-to-nearest-even, a pure
/// function of the operand bits.
#[verifier::external_body]
fn sub_raw(a: u64, b: u64) -> (r: u64)
    ensures
        r == sub_bits(a, b),
{
    let x = Double::from_bits(a as u128);
    let y = Double::from_bits(b as u128);
    x.sub_r(y, Round::NearestTiesToEven).value.to_bits() as u64
}

/// Relies on rustc_apfloat's IeeeFloat::mul_r for the Double semantics:
/// IEEE-754 binary64 multiplication with round-to-nearest-even, a pure
/// function of the operand bits.
#[verifier::external_body]
fn mul_raw(a: u64, b: u64) -> (r: u64)
    ensures
        r == mul_bits(a, b),
{
    let x = Double::from_bits(a as u128);
    let y = Double::from_bits(b as u128);
    x.mul_r(y, Round::NearestTiesToEven).value.to_bits() as u64
}

/// Relies on rustc_apfloat's IeeeFloat::div_r for the Double semantics:
/// IEEE-754 binary64 division with round-to-nearest-even, a pure function
/// of the operand bits.  Division by zero returns an infinity or NaN; it
/// does not fail.
#[verifier::external_body]
fn div_raw(a: u64, b: u64) -> (r: u64)
    ensures
        r == div_bits(a, b),
{
    let x = Double::from_bits(a as u128);
    let y = Double::from_bits(b as u128);
    x.div_r(y, Round::NearestTiesToEven).value.to_bits() as u64
}

/// The base-two logarithm never exceeds the position of the word's top bit
/// and grows with its argument.
proof fn lemma_log2_bound(v: u64, cap: u64)
    requires
        v < (1u64 << cap),
        cap <= 63,
    ensures
        log2(v) < cap || v <= 1,
    decreases v,
{
    if v > 1 {
        assert(cap <= 63 && v < (1u64 << cap) && v > 1 ==> cap >= 2 && v / 2 < (1u64 << ((cap
            - 1) as u64))) by (bit_vector);
        lemma_log2_bound(v / 2, (cap - 1) as u64);
    }
}

/// The base-two logarithm of any word fits in six bits.
proof fn lemma_log2_le63(v: u64)
    ensures
        log2(v) <= 63,
{
    if v > 1 {
        assert(v / 2 < (1u64 << 63u64)) by (bit_vector);
        lemma_log2_bound(v / 2, 63);
    }
}

/// Computes the position of the highest set bit by halving.
fn log2_exec(v: u64) -> (r: u64)
    ensures
        r == log2(v),
{
    proof {
        lemma_log2_le63(v);
    }
    let mut t: u64 = v;
    let mut h: u64 = 0;
    while t > 1
        invariant
            h + log2(t) == log2(v),
            log2(v) <= 63,
        decreases t,
    {
        t = t / 2;
        h = h + 1;
    }
    h
}

impl Fp {
    /// The number whose IEEE-754 encoding is `b`.
    pub fn from_bits(b: u64) -> (r: Fp)
        ensures
            r.bits == b,
    {
        Fp { bits: b }
    }

    /// Positive zero.
    pub fn zero() -> (r: Fp)
        ensures
            r.bits == 0,
    {
        Fp { bits: 0 }
    }

    /// One.
    pub fn one() -> (r: Fp)
        ensures
            r.bits == ONE_BITS,
    {
        Fp { bits: ONE_BITS }
    }

    /// The double of the integer `n` (exact for every `i32`).
    pub fn from_i32(n: i32) -> (r: Fp)
        ensures
            r.bits == from_i32_bits(n),
    {
        if n == 0 {
            Fp { bits: 0 }
        } else {
            let sgn: u64 = if n < 0 {
                1
            } else {
                0
            };
            let v: u64 = if n < 0 {
                (-(n as i64)) as u64
            } else {
                n as u64
            };
            proof {
                assert(v < (1u64 << 32u64)) by (bit_vector)
                    requires
                        v <= 0x8000_0000u64,
                ;
                lemma_log2_bound(v, 32);
            }
            let h: u64 = log2_exec(v);
            let eb: u64 = 1023 + h;
            let frac: u64 = (v << (52 - h)) & FRAC_MASK;
            Fp { bits: (sgn << 63) | (eb << 52) | frac }
        }
    }

    /// Rounded sum.
    pub fn add(self, other: Fp) -> (r: Fp)
        ensures
            r.bits == add_bits(self.bits, other.bits),
    {
        Fp { bits: add_raw(self.bits, other.bits) }
    }

    /// Rounded difference.
    pub fn sub(self, other: Fp) -> (r: Fp)
        ensures
            r.bits == sub_bits(self.bits, other.bits),
    {
        Fp { bits: sub_raw(self.bits, other.bits) }
    }

    /// Rounded product.
    pub fn mul(self, other: Fp) -> (r: Fp)
        ensures
            r.bits == mul_bits(self.bits, other.bits),
    {
        Fp { bits: mul_raw(self.bits, other.bits) }
    }

    /// Rounded quotient.  Division by zero yields an infinity or NaN.
    pub fn div(self, other: Fp) -> (r: Fp)
        ensures
            r.bits == div_bits(self.bits, other.bits),
    {
        Fp { bits: div_raw(self.bits, other.bits) }
    }

    /// Correctly rounded square root, computed digit by digit on the
    /// integer mantissa.  A negative operand yields a NaN.
    pub fn sqrt(self) -> (r: Fp)
        ensures
            r.bits == sqrt_bits(self.bits),
    {
        let a = self.bits;
        if self.is_nan() {
            self
        } else if self.is_zero() {
            self
        } else if (a >> 63) == 1 {
            Fp { bits: QNAN_BITS }
        } else if a == INF_MAG {
            self
        } else {
            let e_raw: u64 = a >> 52;
            let frac: u64 = a & FRAC_MASK;
            proof {
                assert((a & 0xF_FFFF_FFFF_FFFF) < 0x10_0000_0000_0000
                    && ((a & 0xF_FFFF_FFFF_FFFF) | 0x10_0000_0000_0000) < 0x20_0000_0000_0000
                    && (a >> 52) <= 0xFFF) by (bit_vector);
            }
            let m0: u64 = if e_raw == 0 {
                frac
            } else {
                frac | IMPLICIT_BIT
            };
            let ee0: u64 = if e_raw == 0 {
                126
            } else {
                e_raw + 125
            };
            proof {
                assert(m0 < (1u64 << 53u64)) by (bit_vector)
                    requires
                        m0 < 0x20_0000_0000_0000u64,
                ;
                lemma_log2_bound(m0, 53);
            }
            let shift: u64 = 52 - log2_exec(m0);
            let m1: u64 = m0 << shift;
            let ee1: u64 = ee0 - shift;
            let m2: u64 = if ee1 % 2 != 0 {
                m1 << 1u64
            } else {
                m1
            };
            let ee2: u64 = if ee1 % 2 != 0 {
                ee1 - 1
            } else {
                ee1
            };
            let big: u128 = (m2 as u128) << 54;
            let mut s: u64 = 0;
            let mut b: u64 = 0x20_0000_0000_0000;
            while b > 0
                invariant
                    s + 2 * b <= 0x40_0000_0000_0000,
                    isqrt_cont(big, s, b) == isqrt_cont(big, 0, 0x20_0000_0000_0000),
                decreases b,
            {
                let t: u64 = s + b;
                proof {
                    assert((t as int) * (t as int) <= 0x40_0000_0000_0000 * 0x40_0000_0000_0000)
                        by (nonlinear_arith)
                        requires
                            0 <= t <= 0x40_0000_0000_0000,
                    ;
                }
                if (t as u128) * (t as u128) <= big {
                    s = t;
                }
                b = b / 2;
            }
            proof {
                assert(s >> 1 <= s && (s & 1) <= 1) by (bit_vector);
            }
            let q: u64 = (s >> 1) + (s & 1);
            let eb: u64 = (ee2 / 2) + 449;
            Fp { bits: (eb << 52) | (q & FRAC_MASK) }
        }
    }

    /// Negation: a flip of the sign bit, exact for every operand.
    pub fn neg(self) -> (r: Fp)
        ensures
            r.bits == neg_bits(self.bits),
    {
        Fp { bits: self.bits ^ SIGN_MASK }
    }

    /// Absolute value: a clear of the sign bit, exact for every operand.
    pub fn abs(self) -> (r: Fp)
        ensures
            r.bits == abs_bits(self.bits),
    {
        Fp { bits: self.bits & MAG_MASK }
    }

    /// Whether this value is a NaN.
    pub fn is_nan(self) -> (r: bool)
        ensures
            r == is_nan_bits(self.bits),
    {
        (self.bits & MAG_MASK) > INF_MAG
    }

    /// Whether this value is a zero of either sign.
    pub fn is_zero(self) -> (r: bool)
        ensures
            r == is_zero_bits(self.bits),
    {
        (self.bits & MAG_MASK) == 0
    }

    /// IEEE-754 `<`: false whenever either side is a NaN.
    pub fn lt(self, other: Fp) -> (r: bool)
        ensures
            r == lt_bits(self.bits, other.bits),
    {
        let a = self.bits;
        let b = other.bits;
        if self.is_nan() || other.is_nan() {
            false
        } else if ((a >> 63) == 1) != ((b >> 63) == 1) {
            ((a >> 63) == 1) && !((a & MAG_MASK) == 0 && (b & MAG_MASK) == 0)
        } else if !((a >> 63) == 1) {
            (a & MAG_MASK) < (b & MAG_MASK)
        } else {
            (b & MAG_MASK) < (a & MAG_MASK)
        }
    }

    /// IEEE-754 `<=`: false whenever either side is a NaN.
    pub fn le(self, other: Fp) -> (r: bool)
        ensures
            r == le_bits(self.bits, other.bits),
    {
        !self.is_nan() && !other.is_nan() && !other.lt(self)
    }

    /// IEEE-754 `>`: false whenever either side is a NaN.
    pub fn gt(self, other: Fp) -> (r: bool)
        ensures
            r == lt_bits(other.bits, self.bits),
    {
        other.lt(self)
    }

    /// IEEE-754 `>=`: false whenever either side is a NaN.
    pub fn ge(self, other: Fp) -> (r: bool)
        ensures
            r == le_bits(other.bits, self.bits),
    {
        other.le(self)
    }

    /// IEEE-754 `==`: false whenever either side is a NaN; the two zeros
    /// compare equal.
    pub fn eq_ieee(self, other: Fp) -> (r: bool)
        ensures
            r == eq_bits(self.bits, other.bits),
    {
        !self.is_nan() && !other.is_nan() && (self.bits == other.bits || (self.is_zero()
            && other.is_zero()))
    }

    /// The smaller operand, or the other operand when one is a NaN.
    pub fn min(self, other: Fp) -> (r: Fp)
        ensures
            r.bits == min_bits(self.bits, other.bits),
    {
        if self.is_nan() {
            other
        } else if other.is_nan() {
            self
        } else if other.lt(self) {
            other
        } else {
            self
        }
    }

    /// The larger operand, or the other operand when one is a NaN.
    pub fn max(self, other: Fp) -> (r: Fp)
        ensures
            r.bits == max_bits(self.bits, other.bits),
    {
        if self.is_nan() {
            other
        } else if other.is_nan() {
            self
        } else if self.lt(other) {
            other
        } else {
            self
        }
    }

    /// Integer power by repeated multiplication; a negative exponent takes
    /// the reciprocal of the positive power.
    pub fn powi(self, n: i32) -> (r: Fp)
        ensures
            r.bits == powi_bits(self.bits, n as int),
    {
        let nn: i64 = n as i64;
        let k: u64 = if nn < 0 {
            (-nn) as u64
        } else {
            nn as u64
        };
        let mut acc = Fp::one();
        let mut i: u64 = 0;
        while i < k
            invariant
                0 <= i <= k,
                acc.bits == pow_nonneg_bits(self.bits, i as nat),
            decreases k - i,
        {
            acc = acc.mul(self);
            i = i + 1;
        }
        if nn < 0 {
            Fp::one().div(acc)
        } else {
            acc
        }
    }
}

/// Whenever two non-NaN values are not equal, exactly one of them is the
/// smaller: the IEEE comparisons totally order the non-NaN doubles.
pub proof fn lemma_lt_trichotomy(a: u64, b: u64)
    requires
        !is_nan_bits(a),
        !is_nan_bits(b),
    ensures
        lt_bits(a, b) || lt_bits(b, a) || eq_bits(a, b),
        !(lt_bits(a, b) && lt_bits(b, a)),
{
    assert((a >> 63) <= 1 && (b >> 63) <= 1) by (bit_vector);
    assert(((a >> 63) == (b >> 63) && (a & 0x7FFF_FFFF_FFFF_FFFF) == (b
        & 0x7FFF_FFFF_FFFF_FFFF)) ==> a == b) by (bit_vector);
}

/// A NaN is never below a tolerance: every comparison with a NaN operand is
/// false, so a NaN gradient norm reads as "not converged".
pub proof fn lemma_nan_never_below(a: u64, b: u64)
    requires
        is_nan_bits(a) || is_nan_bits(b),
    ensures
        !lt_bits(a, b),
        !le_bits(a, b),
        !eq_bits(a, b),
{
}

} // verus!
