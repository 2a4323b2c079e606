//! Rotation geometry built on the hyperdual scalar: quaternions and
//! three-component vectors whose entries carry second-order derivatives.

pub mod hd_quaternion;
pub mod hd_vector;

pub use hd_quaternion::HDQuaternion;
pub use hd_vector::HDVector;
