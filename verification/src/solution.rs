//! The record every solver returns, and the saturating evaluation counter.

use vstd::prelude::*;
use crate::fp::Fp;

verus! {

/// What a `minimize` call produced: the final iterate, whether the
/// gradient tolerance was met, and how much work was spent.
#[derive(Clone, Debug)]
pub struct Solution {
    /// The best iterate reached.
    pub x: Vec<Fp>,
    /// Whether the gradient norm fell below the tolerance before the
    /// iteration cap.
    pub success: bool,
    /// Iterations of the outer loop.
    pub iter_num: u32,
    /// Objective evaluations, the line search's included.
    pub f_evals: u32,
    /// Gradient (and directional-derivative) evaluations.
    pub f_grad_evals: u32,
    /// Hessian evaluations.
    pub f_hess_evals: u32,
}

/// A counter bumped by one, stopping at the top instead of wrapping.
pub open spec fn inc_spec(c: u32) -> u32 {
    if c < u32::MAX {
        (c + 1) as u32
    } else {
        c
    }
}

/// Bumps an evaluation counter; saturates rather than wraps.
pub fn inc(c: u32) -> (r: u32)
    ensures
        r == inc_spec(c),
        r >= c,
{
    if c < u32::MAX {
        c + 1
    } else {
        c
    }
}

/// The sum of two counters, stopping at the top instead of wrapping.
pub open spec fn cadd_spec(a: u32, b: u32) -> u32 {
    if a + b <= u32::MAX {
        (a + b) as u32
    } else {
        u32::MAX
    }
}

/// Adds two evaluation counters; saturates rather than wraps.
pub fn cadd(a: u32, b: u32) -> (r: u32)
    ensures
        r == cadd_spec(a, b),
{
    if a <= u32::MAX - b {
        a + b
    } else {
        u32::MAX
    }
}

} // verus!
