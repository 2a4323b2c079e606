//! Sine and cosine on `Fp`, computed from the rounding primitives.
//!
//! The algorithm is the classical fdlibm one: the argument is reduced
//! modulo pi/2 into a double-double remainder, then a polynomial kernel is
//! evaluated on the reduced argument and the quadrant picks the sign and
//! the kernel.  Every step is an IEEE-754 operation, so the whole function
//! is specified exactly as the composition of those operations.  For
//! magnitudes of 2^20·pi/2 and above the same reduction is used, where its
//! accuracy gradually degrades; the specification states exactly what is
//! computed there too.

use vstd::prelude::*;
use crate::fp::Fp;
use crate::fp::add_bits;
use crate::fp::sub_bits;
use crate::fp::mul_bits;
use crate::fp::from_i32_bits;
use crate::fp::sign_bits;
use crate::fp::HALF_BITS;
use crate::fp::ONE_BITS;

verus! {

/// Bit pattern of 1.5/DBL_EPSILON, the rounding bias of the reduction.
pub const TOINT_BITS: u64 = 0x4338_0000_0000_0000;
/// Bit pattern of 2/pi.
pub const INVPIO2_BITS: u64 = 0x3FE4_5F30_6DC9_C883;
/// First 33 bits of pi/2.
pub const PIO2_1_BITS: u64 = 0x3FF9_21FB_5440_0000;
/// pi/2 minus PIO2_1.
pub const PIO2_1T_BITS: u64 = 0x3DD0_B461_1A62_6331;
/// Second 33-bit slice of pi/2.
pub const PIO2_2_BITS: u64 = 0x3DD0_B461_1A60_0000;
/// pi/2 minus the first two slices.
pub const PIO2_2T_BITS: u64 = 0x3BA3_198A_2E03_7073;
/// Third 33-bit slice of pi/2.
pub const PIO2_3_BITS: u64 = 0x3BA3_198A_2E00_0000;
/// pi/2 minus the first three slices.
pub const PIO2_3T_BITS: u64 = 0x397B_839A_2520_49C1;

/// Sine polynomial coefficients.
pub const S1_BITS: u64 = 0xBFC5_5555_5555_5549;
pub const S2_BITS: u64 = 0x3F81_1111_1110_F8A6;
pub const S3_BITS: u64 = 0xBF2A_01A0_19C1_61D5;
pub const S4_BITS: u64 = 0x3EC7_1DE3_57B1_FE7D;
pub const S5_BITS: u64 = 0xBE5A_E5E6_8A2B_9CEB;
pub const S6_BITS: u64 = 0x3DE5_D93A_5ACF_D57C;

/// Cosine polynomial coefficients.
pub const C1_BITS: u64 = 0x3FA5_5555_5555_554C;
pub const C2_BITS: u64 = 0xBF56_C16C_16C1_5177;
pub const C3_BITS: u64 = 0x3EFA_01A0_19CB_1590;
pub const C4_BITS: u64 = 0xBE92_7E4F_809C_52AD;
pub const C5_BITS: u64 = 0x3E21_EE9E_BDB4_B1C4;
pub const C6_BITS: u64 = 0xBDA8_FAE9_BE88_38D4;

/// The sine kernel on a double-double argument `x + y` with `|x| <= pi/4`;
/// `exact_tail` says whether the `y` correction participates.
pub closed spec fn sin_kernel_bits(x: u64, y: u64, exact_tail: bool) -> u64 {
    let z = mul_bits(x, x);
    let w = mul_bits(z, z);
    let r = add_bits(
        add_bits(S2_BITS, mul_bits(z, add_bits(S3_BITS, mul_bits(z, S4_BITS)))),
        mul_bits(mul_bits(z, w), add_bits(S5_BITS, mul_bits(z, S6_BITS))),
    );
    let v = mul_bits(z, x);
    if !exact_tail {
        add_bits(x, mul_bits(v, add_bits(S1_BITS, mul_bits(z, r))))
    } else {
        sub_bits(
            x,
            sub_bits(
                sub_bits(mul_bits(z, sub_bits(mul_bits(HALF_BITS, y), mul_bits(v, r))), y),
                mul_bits(v, S1_BITS),
            ),
        )
    }
}

/// The cosine kernel on a double-double argument `x + y` with `|x| <= pi/4`.
pub closed spec fn cos_kernel_bits(x: u64, y: u64) -> u64 {
    let z = mul_bits(x, x);
    let w = mul_bits(z, z);
    let r = add_bits(
        mul_bits(z, add_bits(C1_BITS, mul_bits(z, add_bits(C2_BITS, mul_bits(z, C3_BITS))))),
        mul_bits(mul_bits(w, w), add_bits(C4_BITS, mul_bits(z, add_bits(C5_BITS, mul_bits(z, C6_BITS))))),
    );
    let hz = mul_bits(HALF_BITS, z);
    let w2 = sub_bits(ONE_BITS, hz);
    add_bits(
        w2,
        add_bits(sub_bits(sub_bits(ONE_BITS, w2), hz), sub_bits(mul_bits(z, r), mul_bits(x, y))),
    )
}

/// Truncation toward zero of the encoded double, as an integer; zero when
/// the magnitude is below one or at least 2^31.
pub open spec fn trunc_bits(a: u64) -> int {
    let e = (a >> 52) & 0x7FF;
    if e < 1023 || e >= 1054 {
        0
    } else {
        let m = (a & 0xF_FFFF_FFFF_FFFF) | 0x10_0000_0000_0000;
        let v = m >> ((52 + 1023 - e) as u64);
        if sign_bits(a) {
            -(v as int)
        } else {
            v as int
        }
    }
}

/// Reduction for an argument within a few multiples of pi/2: subtract
/// `c`·pi/2 in two pieces.  Returns the quadrant and the double-double
/// remainder.
pub closed spec fn rem_near_bits(xb: u64, c: i32) -> (int, u64, u64) {
    let cp = mul_bits(from_i32_bits(c), PIO2_1_BITS);
    let cpt = mul_bits(from_i32_bits(c), PIO2_1T_BITS);
    if !sign_bits(xb) {
        let z = sub_bits(xb, cp);
        let y0 = sub_bits(z, cpt);
        let y1 = sub_bits(sub_bits(z, y0), cpt);
        ((c as int) % 4, y0, y1)
    } else {
        let z = add_bits(xb, cp);
        let y0 = add_bits(z, cpt);
        let y1 = add_bits(sub_bits(z, y0), cpt);
        ((-(c as int)) % 4, y0, y1)
    }
}

/// Reduction by a rounded multiple of pi/2 held in three pieces, with up to
/// two refinement rounds when cancellation is detected.
pub closed spec fn rem_medium_bits(xb: u64) -> (int, u64, u64) {
    let ix = (xb >> 32) & 0x7FFF_FFFF;
    let fnb = sub_bits(add_bits(mul_bits(xb, INVPIO2_BITS), TOINT_BITS), TOINT_BITS);
    let n = trunc_bits(fnb);
    let r0 = sub_bits(xb, mul_bits(fnb, PIO2_1_BITS));
    let w0 = mul_bits(fnb, PIO2_1T_BITS);
    let y00 = sub_bits(r0, w0);
    let ey0 = (y00 >> 52) & 0x7FF;
    let ex = ix >> 20;
    if ex >= ey0 + 17 {
        let w1 = mul_bits(fnb, PIO2_2_BITS);
        let r1 = sub_bits(r0, w1);
        let w1b = sub_bits(mul_bits(fnb, PIO2_2T_BITS), sub_bits(sub_bits(r0, r1), w1));
        let y01 = sub_bits(r1, w1b);
        let ey1 = (y01 >> 52) & 0x7FF;
        if ex >= ey1 + 50 {
            let w2 = mul_bits(fnb, PIO2_3_BITS);
            let r2 = sub_bits(r1, w2);
            let w2b = sub_bits(mul_bits(fnb, PIO2_3T_BITS), sub_bits(sub_bits(r1, r2), w2));
            let y02 = sub_bits(r2, w2b);
            (n % 4, y02, sub_bits(sub_bits(r2, y02), w2b))
        } else {
            (n % 4, y01, sub_bits(sub_bits(r1, y01), w1b))
        }
    } else {
        (n % 4, y00, sub_bits(sub_bits(r0, y00), w0))
    }
}

/// Argument reduction modulo pi/2: quadrant in `0..4` and the double-double
/// remainder.
pub closed spec fn rem_pio2_bits(xb: u64) -> (int, u64, u64) {
    let ix = (xb >> 32) & 0x7FFF_FFFF;
    if ix <= 0x400F_6A7A {
        if (ix & 0xF_FFFF) == 0x9_21FB {
            rem_medium_bits(xb)
        } else if ix <= 0x4002_D97C {
            rem_near_bits(xb, 1)
        } else {
            rem_near_bits(xb, 2)
        }
    } else if ix <= 0x401C_463B {
        if ix <= 0x4015_FDBC {
            if ix == 0x4012_D97C {
                rem_medium_bits(xb)
            } else {
                rem_near_bits(xb, 3)
            }
        } else {
            if ix == 0x4019_21FB {
                rem_medium_bits(xb)
            } else {
                rem_near_bits(xb, 4)
            }
        }
    } else {
        rem_medium_bits(xb)
    }
}

/// The sine of the encoded double, as this library computes it: the fdlibm
/// reduction and kernels, each step an exact IEEE-754 operation.
pub closed spec fn sin_bits(xb: u64) -> u64 {
    let ix = (xb >> 32) & 0x7FFF_FFFF;
    if ix <= 0x3FE9_21FB {
        if ix < 0x3E50_0000 {
            xb
        } else {
            sin_kernel_bits(xb, 0, false)
        }
    } else if ix >= 0x7FF0_0000 {
        sub_bits(xb, xb)
    } else {
        let (q, y0, y1) = rem_pio2_bits(xb);
        if q == 0 {
            sin_kernel_bits(y0, y1, true)
        } else if q == 1 {
            cos_kernel_bits(y0, y1)
        } else if q == 2 {
            crate::fp::neg_bits(sin_kernel_bits(y0, y1, true))
        } else {
            crate::fp::neg_bits(cos_kernel_bits(y0, y1))
        }
    }
}

/// The cosine of the encoded double, as this library computes it.
pub closed spec fn cos_bits(xb: u64) -> u64 {
    let ix = (xb >> 32) & 0x7FFF_FFFF;
    if ix <= 0x3FE9_21FB {
        if ix < 0x3E46_A09E {
            ONE_BITS
        } else {
            cos_kernel_bits(xb, 0)
        }
    } else if ix >= 0x7FF0_0000 {
        sub_bits(xb, xb)
    } else {
        let (q, y0, y1) = rem_pio2_bits(xb);
        if q == 0 {
            cos_kernel_bits(y0, y1)
        } else if q == 1 {
            crate::fp::neg_bits(sin_kernel_bits(y0, y1, true))
        } else if q == 2 {
            crate::fp::neg_bits(cos_kernel_bits(y0, y1))
        } else {
            sin_kernel_bits(y0, y1, true)
        }
    }
}

fn sin_kernel(x: Fp, y: Fp, exact_tail: bool) -> (r: Fp)
    ensures
        r.bits == sin_kernel_bits(x.bits, y.bits, exact_tail),
{
    let s1 = Fp::from_bits(S1_BITS);
    let s2 = Fp::from_bits(S2_BITS);
    let s3 = Fp::from_bits(S3_BITS);
    let s4 = Fp::from_bits(S4_BITS);
    let s5 = Fp::from_bits(S5_BITS);
    let s6 = Fp::from_bits(S6_BITS);
    let z = x.mul(x);
    let w = z.mul(z);
    let r = s2.add(z.mul(s3.add(z.mul(s4)))).add(z.mul(w).mul(s5.add(z.mul(s6))));
    let v = z.mul(x);
    if !exact_tail {
        x.add(v.mul(s1.add(z.mul(r))))
    } else {
        let half = Fp::from_bits(HALF_BITS);
        x.sub(z.mul(half.mul(y).sub(v.mul(r))).sub(y).sub(v.mul(s1)))
    }
}

fn cos_kernel(x: Fp, y: Fp) -> (r: Fp)
    ensures
        r.bits == cos_kernel_bits(x.bits, y.bits),
{
    let c1 = Fp::from_bits(C1_BITS);
    let c2 = Fp::from_bits(C2_BITS);
    let c3 = Fp::from_bits(C3_BITS);
    let c4 = Fp::from_bits(C4_BITS);
    let c5 = Fp::from_bits(C5_BITS);
    let c6 = Fp::from_bits(C6_BITS);
    let one = Fp::one();
    let z = x.mul(x);
    let w = z.mul(z);
    let r = z.mul(c1.add(z.mul(c2.add(z.mul(c3))))).add(
        w.mul(w).mul(c4.add(z.mul(c5.add(z.mul(c6))))),
    );
    let hz = Fp::from_bits(HALF_BITS).mul(z);
    let w2 = one.sub(hz);
    w2.add(one.sub(w2).sub(hz).add(z.mul(r).sub(x.mul(y))))
}

/// Truncation toward zero of an encoded double; zero outside `(-2^31, 2^31)`
/// magnitudes below one included.
fn trunc_to_i32(x: Fp) -> (r: i32)
    ensures
        r as int == trunc_bits(x.bits),
{
    let a = x.bits;
    let e: u64 = (a >> 52) & 0x7FF;
    if e < 1023 || e >= 1054 {
        0
    } else {
        let shift: u64 = (52 + 1023 - e) as u64;
        let m: u64 = (a & 0xF_FFFF_FFFF_FFFF) | 0x10_0000_0000_0000;
        let v: u64 = m >> shift;
        assert(v < 0x8000_0000) by (bit_vector)
            requires
                v == (((a & 0xF_FFFF_FFFF_FFFF) | 0x10_0000_0000_0000) >> shift),
                22 <= shift <= 52,
        ;
        if (a >> 63) == 1 {
            (-(v as i64)) as i32
        } else {
            v as i32
        }
    }
}

fn rem_near(x: Fp, c: i32) -> (r: (u32, Fp, Fp))
    requires
        1 <= c <= 4,
    ensures
        ({
            let (q, y0, y1) = rem_near_bits(x.bits, c);
            r.0 as int == q && r.1.bits == y0 && r.2.bits == y1
        }),
{
    let cf = Fp::from_i32(c);
    let cp = cf.mul(Fp::from_bits(PIO2_1_BITS));
    let cpt = cf.mul(Fp::from_bits(PIO2_1T_BITS));
    if (x.bits >> 63) != 1 {
        let z = x.sub(cp);
        let y0 = z.sub(cpt);
        let y1 = z.sub(y0).sub(cpt);
        let q: u32 = if c == 4 {
            0
        } else {
            c as u32
        };
        (q, y0, y1)
    } else {
        let z = x.add(cp);
        let y0 = z.add(cpt);
        let y1 = z.sub(y0).add(cpt);
        let q: u32 = (4 - c) as u32;
        (q, y0, y1)
    }
}

fn rem_medium(x: Fp) -> (r: (u32, Fp, Fp))
    ensures
        ({
            let (q, y0, y1) = rem_medium_bits(x.bits);
            r.0 as int == q && r.1.bits == y0 && r.2.bits == y1
        }),
{
    let ix: u64 = (x.bits >> 32) & 0x7FFF_FFFF;
    let toint = Fp::from_bits(TOINT_BITS);
    let fnv = x.mul(Fp::from_bits(INVPIO2_BITS)).add(toint).sub(toint);
    let n: i32 = trunc_to_i32(fnv);
    let r0 = x.sub(fnv.mul(Fp::from_bits(PIO2_1_BITS)));
    let w0 = fnv.mul(Fp::from_bits(PIO2_1T_BITS));
    let y00 = r0.sub(w0);
    let yb0: u64 = y00.bits;
    let ey0: u64 = (yb0 >> 52) & 0x7FF;
    let ex: u64 = ix >> 20;
    proof {
        assert(((yb0 >> 52) & 0x7FF) <= 0x7FF) by (bit_vector);
    }
    let m: i32 = n % 4;
    let q: u32 = if m < 0 {
        (m + 4) as u32
    } else {
        m as u32
    };
    assert(q as int == (n as int) % 4);
    if ex >= ey0 + 17 {
        let w1 = fnv.mul(Fp::from_bits(PIO2_2_BITS));
        let r1 = r0.sub(w1);
        let w1b = fnv.mul(Fp::from_bits(PIO2_2T_BITS)).sub(r0.sub(r1).sub(w1));
        let y01 = r1.sub(w1b);
        let yb1: u64 = y01.bits;
        let ey1: u64 = (yb1 >> 52) & 0x7FF;
        proof {
            assert(((yb1 >> 52) & 0x7FF) <= 0x7FF) by (bit_vector);
        }
        if ex >= ey1 + 50 {
            let w2 = fnv.mul(Fp::from_bits(PIO2_3_BITS));
            let r2 = r1.sub(w2);
            let w2b = fnv.mul(Fp::from_bits(PIO2_3T_BITS)).sub(r1.sub(r2).sub(w2));
            let y02 = r2.sub(w2b);
            (q, y02, r2.sub(y02).sub(w2b))
        } else {
            (q, y01, r1.sub(y01).sub(w1b))
        }
    } else {
        (q, y00, r0.sub(y00).sub(w0))
    }
}

fn rem_pio2(x: Fp) -> (r: (u32, Fp, Fp))
    ensures
        ({
            let (q, y0, y1) = rem_pio2_bits(x.bits);
            r.0 as int == q && r.1.bits == y0 && r.2.bits == y1
        }),
{
    let ix: u64 = (x.bits >> 32) & 0x7FFF_FFFF;
    if ix <= 0x400F_6A7A {
        if (ix & 0xF_FFFF) == 0x9_21FB {
            rem_medium(x)
        } else if ix <= 0x4002_D97C {
            rem_near(x, 1)
        } else {
            rem_near(x, 2)
        }
    } else if ix <= 0x401C_463B {
        if ix <= 0x4015_FDBC {
            if ix == 0x4012_D97C {
                rem_medium(x)
            } else {
                rem_near(x, 3)
            }
        } else {
            if ix == 0x4019_21FB {
                rem_medium(x)
            } else {
                rem_near(x, 4)
            }
        }
    } else {
        rem_medium(x)
    }
}

impl Fp {
    /// Sine, computed by the fdlibm reduction and kernel; for NaN or
    /// infinite operands the result is a NaN.
    pub fn sin(self) -> (r: Fp)
        ensures
            r.bits == sin_bits(self.bits),
    {
        let ix: u64 = (self.bits >> 32) & 0x7FFF_FFFF;
        if ix <= 0x3FE9_21FB {
            if ix < 0x3E50_0000 {
                self
            } else {
                sin_kernel(self, Fp::zero(), false)
            }
        } else if ix >= 0x7FF0_0000 {
            self.sub(self)
        } else {
            let (q, y0, y1) = rem_pio2(self);
            if q == 0 {
                sin_kernel(y0, y1, true)
            } else if q == 1 {
                cos_kernel(y0, y1)
            } else if q == 2 {
                sin_kernel(y0, y1, true).neg()
            } else {
                cos_kernel(y0, y1).neg()
            }
        }
    }

    /// Cosine, computed by the fdlibm reduction and kernel; for NaN or
    /// infinite operands the result is a NaN.
    pub fn cos(self) -> (r: Fp)
        ensures
            r.bits == cos_bits(self.bits),
    {
        let ix: u64 = (self.bits >> 32) & 0x7FFF_FFFF;
        if ix <= 0x3FE9_21FB {
            if ix < 0x3E46_A09E {
                Fp::one()
            } else {
                cos_kernel(self, Fp::zero())
            }
        } else if ix >= 0x7FF0_0000 {
            self.sub(self)
        } else {
            let (q, y0, y1) = rem_pio2(self);
            if q == 0 {
                cos_kernel(y0, y1)
            } else if q == 1 {
                sin_kernel(y0, y1, true).neg()
            } else if q == 2 {
                cos_kernel(y0, y1).neg()
            } else {
                sin_kernel(y0, y1, true)
            }
        }
    }
}

} // verus!
