//! Forward-mode automatic differentiation and unconstrained minimization.
//!
//! The crate pairs a family of dual-number types (scalar and multivariate,
//! first and second order) with line-search and trust-region minimizers.
//! Every real number is carried as its IEEE-754 double-precision bit
//! pattern (`fp::Fp`); the rounding arithmetic itself is delegated to a
//! soft-float implementation behind a small set of trusted wrappers, and
//! everything built on top of it is verified.

pub mod fp;

pub mod linalg;

pub mod number_system;

pub mod problem;

pub mod solution;
pub use solution::Solution;

pub mod line_search;
pub use line_search::LineSearch;
pub use line_search::StepValues;

pub mod steepest_descent;
pub use steepest_descent::SteepestDescent;

pub mod ncg;
pub use ncg::NCG;

pub mod bfgs;
pub use bfgs::BFGS;

pub mod trust_ncg;
pub use trust_ncg::TrustNCG;
pub use trust_ncg::CGSteihaug;

pub mod geometry;
