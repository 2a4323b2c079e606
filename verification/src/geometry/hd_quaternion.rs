//! A quaternion whose four components are hyperdual scalars.

use vstd::prelude::*;
use crate::fp::Fp;
use crate::fp::TWO_BITS;
use crate::number_system::hyperdual_scalar::HyperDualScalar as HDual;
use crate::number_system::hyperdual_scalar::hds_add;
use crate::number_system::hyperdual_scalar::hds_sub;
use crate::number_system::hyperdual_scalar::hds_neg;
use crate::number_system::hyperdual_scalar::hds_mul;
use crate::number_system::hyperdual_scalar::hds_mul_real;
use crate::number_system::hyperdual_scalar::hds_div_real;
use crate::number_system::hyperdual_scalar::hds_zero;
use crate::number_system::hyperdual_scalar_math::hds_sin;
use crate::number_system::hyperdual_scalar_math::hds_cos;

verus! {

/// A quaternion of hyperdual scalars, `q3` the scalar part.
#[derive(Clone, Copy, Debug, PartialEq, Eq, Structural)]
pub struct HDQuaternion {
    pub q0: HDual,
    pub q1: HDual,
    pub q2: HDual,
    pub q3: HDual,
}

/// The quaternion whose vector part is the half-angle sine along the x
/// axis.
pub open spec fn quat_from_x(phi: HDual) -> HDQuaternion {
    let h = hds_div_real(phi, TWO_BITS);
    HDQuaternion { q0: hds_sin(h), q1: hds_zero(), q2: hds_zero(), q3: hds_cos(h) }
}

/// The quaternion whose vector part is the half-angle sine along the y
/// axis.
pub open spec fn quat_from_y(theta: HDual) -> HDQuaternion {
    let h = hds_div_real(theta, TWO_BITS);
    HDQuaternion { q0: hds_zero(), q1: hds_sin(h), q2: hds_zero(), q3: hds_cos(h) }
}

/// The quaternion whose vector part is the half-angle sine along the z
/// axis.
pub open spec fn quat_from_z(psi: HDual) -> HDQuaternion {
    let h = hds_div_real(psi, TWO_BITS);
    HDQuaternion { q0: hds_zero(), q1: hds_zero(), q2: hds_sin(h), q3: hds_cos(h) }
}

/// The Hamilton product, component by component.
pub open spec fn quat_mul(a: HDQuaternion, b: HDQuaternion) -> HDQuaternion {
    HDQuaternion {
        q0: hds_sub(
            hds_add(hds_add(hds_mul(a.q3, b.q0), hds_mul(a.q0, b.q3)), hds_mul(a.q1, b.q2)),
            hds_mul(a.q2, b.q1),
        ),
        q1: hds_add(
            hds_add(hds_sub(hds_mul(a.q3, b.q1), hds_mul(a.q0, b.q2)), hds_mul(a.q1, b.q3)),
            hds_mul(a.q2, b.q0),
        ),
        q2: hds_add(
            hds_sub(hds_add(hds_mul(a.q3, b.q2), hds_mul(a.q0, b.q1)), hds_mul(a.q1, b.q0)),
            hds_mul(a.q2, b.q3),
        ),
        q3: hds_sub(
            hds_sub(hds_sub(hds_mul(a.q3, b.q3), hds_mul(a.q0, b.q0)), hds_mul(a.q1, b.q1)),
            hds_mul(a.q2, b.q2),
        ),
    }
}

impl HDQuaternion {
    /// The zero quaternion.
    pub fn new() -> (r: HDQuaternion)
        ensures
            r.q0 == hds_zero(),
            r.q1 == hds_zero(),
            r.q2 == hds_zero(),
            r.q3 == hds_zero(),
    {
        HDQuaternion {
            q0: HDual::new(),
            q1: HDual::new(),
            q2: HDual::new(),
            q3: HDual::new(),
        }
    }

    /// The rotation about the x axis by `phi`.
    pub fn from_x_angle(phi: HDual) -> (r: HDQuaternion)
        ensures
            r == quat_from_x(phi),
    {
        let h = phi.div_real(Fp::from_bits(TWO_BITS));
        HDQuaternion { q0: h.sin(), q1: HDual::new(), q2: HDual::new(), q3: h.cos() }
    }

    /// The rotation about the y axis by `theta`.
    pub fn from_y_angle(theta: HDual) -> (r: HDQuaternion)
        ensures
            r == quat_from_y(theta),
    {
        let h = theta.div_real(Fp::from_bits(TWO_BITS));
        HDQuaternion { q0: HDual::new(), q1: h.sin(), q2: HDual::new(), q3: h.cos() }
    }

    /// The rotation about the z axis by `psi`.
    pub fn from_z_angle(psi: HDual) -> (r: HDQuaternion)
        ensures
            r == quat_from_z(psi),
    {
        let h = psi.div_real(Fp::from_bits(TWO_BITS));
        HDQuaternion { q0: HDual::new(), q1: HDual::new(), q2: h.sin(), q3: h.cos() }
    }

    /// The rotation built from the three axis angles, composed as
    /// `z`-rotation times `y`-rotation times `x`-rotation.
    pub fn from_angles(phi: HDual, theta: HDual, psi: HDual) -> (r: HDQuaternion)
        ensures
            r == quat_mul(quat_mul(quat_from_z(psi), quat_from_y(theta)), quat_from_x(phi)),
    {
        let qz = HDQuaternion::from_z_angle(psi);
        let qy = HDQuaternion::from_y_angle(theta);
        let qx = HDQuaternion::from_x_angle(phi);
        qz.mul(qy).mul(qx)
    }

    /// The inverse of a unit quaternion: the vector part negated.
    pub fn inv(&self) -> (r: HDQuaternion)
        ensures
            r.q0 == hds_neg(self.q0),
            r.q1 == hds_neg(self.q1),
            r.q2 == hds_neg(self.q2),
            r.q3 == self.q3,
    {
        HDQuaternion { q0: self.q0.neg(), q1: self.q1.neg(), q2: self.q2.neg(), q3: self.q3 }
    }

    /// Componentwise sum.
    pub fn add(self, other: HDQuaternion) -> (r: HDQuaternion)
        ensures
            r.q0 == hds_add(self.q0, other.q0),
            r.q1 == hds_add(self.q1, other.q1),
            r.q2 == hds_add(self.q2, other.q2),
            r.q3 == hds_add(self.q3, other.q3),
    {
        HDQuaternion {
            q0: self.q0.add(other.q0),
            q1: self.q1.add(other.q1),
            q2: self.q2.add(other.q2),
            q3: self.q3.add(other.q3),
        }
    }

    /// Componentwise difference.
    pub fn sub(self, other: HDQuaternion) -> (r: HDQuaternion)
        ensures
            r.q0 == hds_sub(self.q0, other.q0),
            r.q1 == hds_sub(self.q1, other.q1),
            r.q2 == hds_sub(self.q2, other.q2),
            r.q3 == hds_sub(self.q3, other.q3),
    {
        HDQuaternion {
            q0: self.q0.sub(other.q0),
            q1: self.q1.sub(other.q1),
            q2: self.q2.sub(other.q2),
            q3: self.q3.sub(other.q3),
        }
    }

    /// Componentwise negation.
    pub fn neg(self) -> (r: HDQuaternion)
        ensures
            r.q0 == hds_neg(self.q0),
            r.q1 == hds_neg(self.q1),
            r.q2 == hds_neg(self.q2),
            r.q3 == hds_neg(self.q3),
    {
        HDQuaternion {
            q0: self.q0.neg(),
            q1: self.q1.neg(),
            q2: self.q2.neg(),
            q3: self.q3.neg(),
        }
    }

    /// The Hamilton product.
    pub fn mul(self, other: HDQuaternion) -> (r: HDQuaternion)
        ensures
            r == quat_mul(self, other),
    {
        HDQuaternion {
            q0: self.q3.mul(other.q0).add(self.q0.mul(other.q3)).add(self.q1.mul(other.q2)).sub(
                self.q2.mul(other.q1),
            ),
            q1: self.q3.mul(other.q1).sub(self.q0.mul(other.q2)).add(self.q1.mul(other.q3)).add(
                self.q2.mul(other.q0),
            ),
            q2: self.q3.mul(other.q2).add(self.q0.mul(other.q1)).sub(self.q1.mul(other.q0)).add(
                self.q2.mul(other.q3),
            ),
            q3: self.q3.mul(other.q3).sub(self.q0.mul(other.q0)).sub(self.q1.mul(other.q1)).sub(
                self.q2.mul(other.q2),
            ),
        }
    }

    /// Componentwise scaling by a plain real.
    pub fn mul_real(self, c: Fp) -> (r: HDQuaternion)
        ensures
            r.q0 == hds_mul_real(self.q0, c.bits),
            r.q1 == hds_mul_real(self.q1, c.bits),
            r.q2 == hds_mul_real(self.q2, c.bits),
            r.q3 == hds_mul_real(self.q3, c.bits),
    {
        HDQuaternion {
            q0: self.q0.mul_real(c),
            q1: self.q1.mul_real(c),
            q2: self.q2.mul_real(c),
            q3: self.q3.mul_real(c),
        }
    }

    /// Componentwise division by a plain real.
    pub fn div_real(self, c: Fp) -> (r: HDQuaternion)
        ensures
            r.q0 == hds_div_real(self.q0, c.bits),
            r.q1 == hds_div_real(self.q1, c.bits),
            r.q2 == hds_div_real(self.q2, c.bits),
            r.q3 == hds_div_real(self.q3, c.bits),
    {
        HDQuaternion {
            q0: self.q0.div_real(c),
            q1: self.q1.div_real(c),
            q2: self.q2.div_real(c),
            q3: self.q3.div_real(c),
        }
    }
}

} // verus!
