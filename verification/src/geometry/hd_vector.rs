//! A three-component vector whose entries are hyperdual scalars.

use vstd::prelude::*;
use crate::fp::Fp;
use crate::number_system::hyperdual_scalar::HyperDualScalar as HDual;
use crate::number_system::hyperdual_scalar::hds_add;
use crate::number_system::hyperdual_scalar::hds_sub;
use crate::number_system::hyperdual_scalar::hds_neg;
use crate::number_system::hyperdual_scalar::hds_mul;
use crate::number_system::hyperdual_scalar::hds_mul_real;
use crate::number_system::hyperdual_scalar::hds_div_real;
use crate::number_system::hyperdual_scalar::hds_zero;
use crate::geometry::hd_quaternion::HDQuaternion;

verus! {

/// A vector of three hyperdual scalars.
#[derive(Clone, Copy, Debug, PartialEq, Eq, Structural)]
pub struct HDVector {
    pub x: HDual,
    pub y: HDual,
    pub z: HDual,
}

impl HDVector {
    /// The zero vector.
    pub fn new() -> (r: HDVector)
        ensures
            r.x == hds_zero(),
            r.y == hds_zero(),
            r.z == hds_zero(),
    {
        HDVector { x: HDual::new(), y: HDual::new(), z: HDual::new() }
    }

    /// The vector part of a quaternion.
    pub fn from_quaternion(q: &HDQuaternion) -> (r: HDVector)
        ensures
            r.x == q.q0,
            r.y == q.q1,
            r.z == q.q2,
    {
        HDVector { x: q.q0, y: q.q1, z: q.q2 }
    }

    /// The dot product.
    pub fn dot(&self, other: &HDVector) -> (r: HDual)
        ensures
            r == hds_add(
                hds_add(hds_mul(self.x, other.x), hds_mul(self.y, other.y)),
                hds_mul(self.z, other.z),
            ),
    {
        self.x.mul(other.x).add(self.y.mul(other.y)).add(self.z.mul(other.z))
    }

    /// The cross product.
    pub fn cross(&self, other: &HDVector) -> (r: HDVector)
        ensures
            r.x == hds_sub(hds_mul(self.y, other.z), hds_mul(self.z, other.y)),
            r.y == hds_sub(hds_mul(self.z, other.x), hds_mul(self.x, other.z)),
            r.z == hds_sub(hds_mul(self.x, other.y), hds_mul(self.y, other.x)),
    {
        HDVector {
            x: self.y.mul(other.z).sub(self.z.mul(other.y)),
            y: self.z.mul(other.x).sub(self.x.mul(other.z)),
            z: self.x.mul(other.y).sub(self.y.mul(other.x)),
        }
    }

    /// Componentwise sum.
    pub fn add(self, other: HDVector) -> (r: HDVector)
        ensures
            r.x == hds_add(self.x, other.x),
            r.y == hds_add(self.y, other.y),
            r.z == hds_add(self.z, other.z),
    {
        HDVector { x: self.x.add(other.x), y: self.y.add(other.y), z: self.z.add(other.z) }
    }

    /// Componentwise difference.
    pub fn sub(self, other: HDVector) -> (r: HDVector)
        ensures
            r.x == hds_sub(self.x, other.x),
            r.y == hds_sub(self.y, other.y),
            r.z == hds_sub(self.z, other.z),
    {
        HDVector { x: self.x.sub(other.x), y: self.y.sub(other.y), z: self.z.sub(other.z) }
    }

    /// Componentwise negation.
    pub fn neg(self) -> (r: HDVector)
        ensures
            r.x == hds_neg(self.x),
            r.y == hds_neg(self.y),
            r.z == hds_neg(self.z),
    {
        HDVector { x: self.x.neg(), y: self.y.neg(), z: self.z.neg() }
    }

    /// Componentwise scaling by a plain real.
    pub fn mul_real(self, c: Fp) -> (r: HDVector)
        ensures
            r.x == hds_mul_real(self.x, c.bits),
            r.y == hds_mul_real(self.y, c.bits),
            r.z == hds_mul_real(self.z, c.bits),
    {
        HDVector { x: self.x.mul_real(c), y: self.y.mul_real(c), z: self.z.mul_real(c) }
    }

    /// Componentwise product with a hyperdual scalar.
    pub fn mul_hdual(self, s: HDual) -> (r: HDVector)
        ensures
            r.x == hds_mul(self.x, s),
            r.y == hds_mul(self.y, s),
            r.z == hds_mul(self.z, s),
    {
        HDVector { x: self.x.mul(s), y: self.y.mul(s), z: self.z.mul(s) }
    }

    /// Componentwise division by a plain real.
    pub fn div_real(self, c: Fp) -> (r: HDVector)
        ensures
            r.x == hds_div_real(self.x, c.bits),
            r.y == hds_div_real(self.y, c.bits),
            r.z == hds_div_real(self.z, c.bits),
    {
        HDVector { x: self.x.div_real(c), y: self.y.div_real(c), z: self.z.div_real(c) }
    }
}

} // verus!
