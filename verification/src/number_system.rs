//! The dual-number family: forward-mode automatic differentiation types.
//!
//! Four types share the same algebra: `DualScalar` and `Dual` carry first
//! derivatives (one direction, or a full gradient), `HyperDualScalar` and
//! `HyperDual` add second derivatives (one mixed entry, or a full Hessian).

pub mod dual_scalar;
pub mod dual_scalar_math;
pub mod dual;
pub mod dual_math;
pub mod hyperdual_scalar;
pub mod hyperdual_scalar_math;
pub mod hyperdual;
pub mod hyperdual_math;

pub use dual_scalar::DualScalar;
pub use dual::Dual;
pub use hyperdual_scalar::HyperDualScalar;
pub use hyperdual::HyperDual;
