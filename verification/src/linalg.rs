//! Vectors and dense square matrices of `Fp` scalars.
//!
//! A vector is a `Vec<Fp>`, a matrix a `Vec` of rows.  Every operation is
//! specified elementwise over the IEEE-754 bit-level operations; the dot
//! product accumulates left to right from zero.

use vstd::prelude::*;
use crate::fp::Fp;
use crate::fp::add_bits;
use crate::fp::sub_bits;
use crate::fp::mul_bits;
use crate::fp::neg_bits;
use crate::fp::div_bits;
use crate::fp::sqrt_bits;
use crate::fp::ONE_BITS;

verus! {

/// The dot product of the first `n` entries: a left-to-right accumulation
/// starting from positive zero.
pub open spec fn dot_to(a: Seq<Fp>, b: Seq<Fp>, n: int) -> u64
    decreases n,
{
    if n <= 0 {
        0
    } else {
        add_bits(dot_to(a, b, n - 1), mul_bits(a[n - 1].bits, b[n - 1].bits))
    }
}

/// The dot product of two equal-length vectors.
pub open spec fn dot_bits(a: Seq<Fp>, b: Seq<Fp>) -> u64 {
    dot_to(a, b, a.len() as int)
}

/// The Euclidean norm: the square root of the dot product with itself.
pub open spec fn norm_bits(a: Seq<Fp>) -> u64 {
    sqrt_bits(dot_bits(a, a))
}

/// Whether `m` is a `rows` by `cols` matrix.
pub open spec fn is_matrix(m: Seq<Vec<Fp>>, rows: int, cols: int) -> bool {
    m.len() == rows && forall|i: int| 0 <= i < rows ==> #[trigger] m[i]@.len() == cols
}

/// The entry bits at row `i`, column `j`.
pub open spec fn ent(m: Seq<Vec<Fp>>, i: int, j: int) -> u64 {
    m[i]@[j].bits
}

/// Column `j` of `m` as a sequence.
pub open spec fn col(m: Seq<Vec<Fp>>, j: int) -> Seq<Fp> {
    Seq::new(m.len(), |k: int| m[k]@[j])
}

/// The elementwise negation, at the specification level.
pub open spec fn neg_spec(a: Seq<Fp>) -> Seq<Fp> {
    Seq::new(a.len(), |i: int| Fp { bits: neg_bits(a[i].bits) })
}

/// The scalar multiple `c`·`a`, at the specification level.
pub open spec fn scale_spec(c: u64, a: Seq<Fp>) -> Seq<Fp> {
    Seq::new(a.len(), |i: int| Fp { bits: mul_bits(c, a[i].bits) })
}

/// The elementwise sum, at the specification level.
pub open spec fn add_spec(a: Seq<Fp>, b: Seq<Fp>) -> Seq<Fp> {
    Seq::new(a.len(), |i: int| Fp { bits: add_bits(a[i].bits, b[i].bits) })
}

/// The combination `x + c·p`, at the specification level.
pub open spec fn axpy_spec(x: Seq<Fp>, c: u64, p: Seq<Fp>) -> Seq<Fp> {
    Seq::new(x.len(), |i: int| Fp { bits: add_bits(x[i].bits, mul_bits(c, p[i].bits)) })
}

/// The matrix-vector product, at the specification level.
pub open spec fn mat_vec_spec(m: Seq<Vec<Fp>>, v: Seq<Fp>) -> Seq<Fp> {
    Seq::new(m.len(), |i: int| Fp { bits: dot_bits(m[i]@, v) })
}

/// The identity matrix entry: one on the diagonal, zero elsewhere.
pub open spec fn id_bits(i: int, j: int) -> u64 {
    if i == j {
        ONE_BITS
    } else {
        0
    }
}

/// A vector of `n` zeros.
pub fn zeros(n: usize) -> (r: Vec<Fp>)
    ensures
        r@.len() == n,
        forall|i: int| 0 <= i < n ==> r@[i].bits == 0,
{
    let mut r: Vec<Fp> = Vec::new();
    let mut i: usize = 0;
    while i < n
        invariant
            i == r@.len(),
            i <= n,
            forall|j: int| 0 <= j < i ==> r@[j].bits == 0,
        decreases n - i,
    {
        r.push(Fp::zero());
        i = i + 1;
    }
    r
}

/// The elementwise negation.
pub fn neg(a: &Vec<Fp>) -> (r: Vec<Fp>)
    ensures
        r@.len() == a@.len(),
        forall|i: int| 0 <= i < a@.len() ==> r@[i].bits == neg_bits(a@[i].bits),
{
    let mut r: Vec<Fp> = Vec::new();
    let mut i: usize = 0;
    while i < a.len()
        invariant
            i == r@.len(),
            i <= a@.len(),
            forall|j: int| 0 <= j < i ==> r@[j].bits == neg_bits(a@[j].bits),
        decreases a@.len() - i,
    {
        r.push(a[i].neg());
        i = i + 1;
    }
    r
}

/// The scalar multiple `c`·`a`, elementwise.
pub fn scale(c: Fp, a: &Vec<Fp>) -> (r: Vec<Fp>)
    ensures
        r@.len() == a@.len(),
        forall|i: int| 0 <= i < a@.len() ==> r@[i].bits == mul_bits(c.bits, a@[i].bits),
{
    let mut r: Vec<Fp> = Vec::new();
    let mut i: usize = 0;
    while i < a.len()
        invariant
            i == r@.len(),
            i <= a@.len(),
            forall|j: int| 0 <= j < i ==> r@[j].bits == mul_bits(c.bits, a@[j].bits),
        decreases a@.len() - i,
    {
        r.push(c.mul(a[i]));
        i = i + 1;
    }
    r
}

/// The elementwise sum.
pub fn add(a: &Vec<Fp>, b: &Vec<Fp>) -> (r: Vec<Fp>)
    requires
        a@.len() == b@.len(),
    ensures
        r@.len() == a@.len(),
        forall|i: int| 0 <= i < a@.len() ==> r@[i].bits == add_bits(a@[i].bits, b@[i].bits),
{
    let mut r: Vec<Fp> = Vec::new();
    let mut i: usize = 0;
    while i < a.len()
        invariant
            a@.len() == b@.len(),
            i == r@.len(),
            i <= a@.len(),
            forall|j: int| 0 <= j < i ==> r@[j].bits == add_bits(a@[j].bits, b@[j].bits),
        decreases a@.len() - i,
    {
        r.push(a[i].add(b[i]));
        i = i + 1;
    }
    r
}

/// The elementwise difference.
pub fn sub(a: &Vec<Fp>, b: &Vec<Fp>) -> (r: Vec<Fp>)
    requires
        a@.len() == b@.len(),
    ensures
        r@.len() == a@.len(),
        forall|i: int| 0 <= i < a@.len() ==> r@[i].bits == sub_bits(a@[i].bits, b@[i].bits),
{
    let mut r: Vec<Fp> = Vec::new();
    let mut i: usize = 0;
    while i < a.len()
        invariant
            a@.len() == b@.len(),
            i == r@.len(),
            i <= a@.len(),
            forall|j: int| 0 <= j < i ==> r@[j].bits == sub_bits(a@[j].bits, b@[j].bits),
        decreases a@.len() - i,
    {
        r.push(a[i].sub(b[i]));
        i = i + 1;
    }
    r
}

/// The combination `x + c·p`, elementwise.
pub fn axpy(x: &Vec<Fp>, c: Fp, p: &Vec<Fp>) -> (r: Vec<Fp>)
    requires
        x@.len() == p@.len(),
    ensures
        r@.len() == x@.len(),
        forall|i: int|
            0 <= i < x@.len() ==> r@[i].bits == add_bits(
                x@[i].bits,
                mul_bits(c.bits, p@[i].bits),
            ),
{
    let mut r: Vec<Fp> = Vec::new();
    let mut i: usize = 0;
    while i < x.len()
        invariant
            x@.len() == p@.len(),
            i == r@.len(),
            i <= x@.len(),
            forall|j: int|
                0 <= j < i ==> r@[j].bits == add_bits(x@[j].bits, mul_bits(c.bits, p@[j].bits)),
        decreases x@.len() - i,
    {
        r.push(x[i].add(c.mul(p[i])));
        i = i + 1;
    }
    r
}

/// The dot product, accumulated left to right from zero.
pub fn dot(a: &Vec<Fp>, b: &Vec<Fp>) -> (r: Fp)
    requires
        a@.len() == b@.len(),
    ensures
        r.bits == dot_bits(a@, b@),
{
    let mut acc = Fp::zero();
    let mut i: usize = 0;
    while i < a.len()
        invariant
            a@.len() == b@.len(),
            i <= a@.len(),
            acc.bits == dot_to(a@, b@, i as int),
        decreases a@.len() - i,
    {
        acc = acc.add(a[i].mul(b[i]));
        i = i + 1;
    }
    acc
}

/// The Euclidean norm.
pub fn norm(a: &Vec<Fp>) -> (r: Fp)
    ensures
        r.bits == norm_bits(a@),
{
    dot(a, a).sqrt()
}

/// The square zero matrix of side `n`.
pub fn mat_zeros(n: usize) -> (r: Vec<Vec<Fp>>)
    ensures
        is_matrix(r@, n as int, n as int),
        forall|i: int, j: int| 0 <= i < n && 0 <= j < n ==> ent(r@, i, j) == 0,
{
    let mut r: Vec<Vec<Fp>> = Vec::new();
    let mut i: usize = 0;
    while i < n
        invariant
            i == r@.len(),
            i <= n,
            forall|k: int| 0 <= k < i ==> #[trigger] r@[k]@.len() == n,
            forall|k: int, j: int| 0 <= k < i && 0 <= j < n ==> ent(r@, k, j) == 0,
        decreases n - i,
    {
        let ghost prev = r@;
        let row = zeros(n);
        r.push(row);
        proof {
            assert forall|k: int, j: int| 0 <= k < i + 1 && 0 <= j < n implies ent(r@, k, j)
                == 0 by {
                if k < i {
                    assert(ent(r@, k, j) == ent(prev, k, j));
                } else {
                    assert(r@[k] == row);
                }
            }
        }
        i = i + 1;
    }
    r
}

/// The identity matrix of side `n`.
pub fn mat_identity(n: usize) -> (r: Vec<Vec<Fp>>)
    ensures
        is_matrix(r@, n as int, n as int),
        forall|i: int, j: int| 0 <= i < n && 0 <= j < n ==> ent(r@, i, j) == id_bits(i, j),
{
    let mut r: Vec<Vec<Fp>> = Vec::new();
    let mut i: usize = 0;
    while i < n
        invariant
            i == r@.len(),
            i <= n,
            forall|k: int| 0 <= k < i ==> #[trigger] r@[k]@.len() == n,
            forall|k: int, j: int| 0 <= k < i && 0 <= j < n ==> ent(r@, k, j) == id_bits(k, j),
        decreases n - i,
    {
        let mut row: Vec<Fp> = Vec::new();
        let mut j: usize = 0;
        while j < n
            invariant
                j == row@.len(),
                j <= n,
                i < n,
                forall|l: int| 0 <= l < j ==> row@[l].bits == id_bits(i as int, l),
            decreases n - j,
        {
            if j == i {
                row.push(Fp::one());
            } else {
                row.push(Fp::zero());
            }
            j = j + 1;
        }
        r.push(row);
        i = i + 1;
    }
    r
}

/// The matrix-vector product: each entry the dot of a row with `v`.
pub fn mat_vec_mul(m: &Vec<Vec<Fp>>, v: &Vec<Fp>, n: usize) -> (r: Vec<Fp>)
    requires
        is_matrix(m@, n as int, n as int),
        v@.len() == n,
    ensures
        r@.len() == n,
        forall|i: int| 0 <= i < n ==> r@[i].bits == dot_bits(m@[i]@, v@),
{
    let mut r: Vec<Fp> = Vec::new();
    let mut i: usize = 0;
    while i < n
        invariant
            is_matrix(m@, n as int, n as int),
            v@.len() == n,
            i == r@.len(),
            i <= n,
            forall|k: int| 0 <= k < i ==> r@[k].bits == dot_bits(m@[k]@, v@),
        decreases n - i,
    {
        r.push(dot(&m[i], v));
        i = i + 1;
    }
    r
}

/// The matrix product: each entry the dot of a row of `a` with a column of
/// `b`.
pub fn mat_mul(a: &Vec<Vec<Fp>>, b: &Vec<Vec<Fp>>, n: usize) -> (r: Vec<Vec<Fp>>)
    requires
        is_matrix(a@, n as int, n as int),
        is_matrix(b@, n as int, n as int),
    ensures
        is_matrix(r@, n as int, n as int),
        forall|i: int, j: int|
            0 <= i < n && 0 <= j < n ==> ent(r@, i, j) == dot_bits(a@[i]@, col(b@, j)),
{
    let mut r: Vec<Vec<Fp>> = Vec::new();
    let mut i: usize = 0;
    while i < n
        invariant
            is_matrix(a@, n as int, n as int),
            is_matrix(b@, n as int, n as int),
            i == r@.len(),
            i <= n,
            forall|k: int| 0 <= k < i ==> #[trigger] r@[k]@.len() == n,
            forall|k: int, j: int|
                0 <= k < i && 0 <= j < n ==> ent(r@, k, j) == dot_bits(a@[k]@, col(b@, j)),
        decreases n - i,
    {
        let mut row: Vec<Fp> = Vec::new();
        let mut j: usize = 0;
        while j < n
            invariant
                is_matrix(a@, n as int, n as int),
                is_matrix(b@, n as int, n as int),
                i < n,
                j == row@.len(),
                j <= n,
                forall|l: int| 0 <= l < j ==> row@[l].bits == dot_bits(a@[i as int]@, col(b@, l)),
            decreases n - j,
        {
            let mut acc = Fp::zero();
            let mut k: usize = 0;
            while k < n
                invariant
                    is_matrix(a@, n as int, n as int),
                    is_matrix(b@, n as int, n as int),
                    i < n,
                    j < n,
                    k <= n,
                    acc.bits == dot_to(a@[i as int]@, col(b@, j as int), k as int),
                decreases n - k,
            {
                acc = acc.add(a[i][k].mul(b[k][j]));
                k = k + 1;
            }
            row.push(acc);
            j = j + 1;
        }
        let ghost prev = r@;
        r.push(row);
        proof {
            assert forall|k: int, j: int| 0 <= k < i + 1 && 0 <= j < n implies ent(r@, k, j)
                == dot_bits(a@[k]@, col(b@, j)) by {
                if k < i {
                    assert(ent(r@, k, j) == ent(prev, k, j));
                } else {
                    assert(r@[k] == row);
                }
            }
        }
        i = i + 1;
    }
    r
}

/// The matrix `I - c·u·v^T`: identity minus a scaled outer product.
pub fn mat_identity_minus_scaled_outer(c: Fp, u: &Vec<Fp>, v: &Vec<Fp>, n: usize) -> (r: Vec<
    Vec<Fp>,
>)
    requires
        u@.len() == n,
        v@.len() == n,
    ensures
        is_matrix(r@, n as int, n as int),
        forall|i: int, j: int|
            0 <= i < n && 0 <= j < n ==> ent(r@, i, j) == sub_bits(
                id_bits(i, j),
                mul_bits(c.bits, mul_bits(u@[i].bits, v@[j].bits)),
            ),
{
    let mut r: Vec<Vec<Fp>> = Vec::new();
    let mut i: usize = 0;
    while i < n
        invariant
            u@.len() == n,
            v@.len() == n,
            i == r@.len(),
            i <= n,
            forall|k: int| 0 <= k < i ==> #[trigger] r@[k]@.len() == n,
            forall|k: int, j: int|
                0 <= k < i && 0 <= j < n ==> ent(r@, k, j) == sub_bits(
                    id_bits(k, j),
                    mul_bits(c.bits, mul_bits(u@[k].bits, v@[j].bits)),
                ),
        decreases n - i,
    {
        let mut row: Vec<Fp> = Vec::new();
        let mut j: usize = 0;
        while j < n
            invariant
                u@.len() == n,
                v@.len() == n,
                i < n,
                j == row@.len(),
                j <= n,
                forall|l: int|
                    0 <= l < j ==> row@[l].bits == sub_bits(
                        id_bits(i as int, l),
                        mul_bits(c.bits, mul_bits(u@[i as int].bits, v@[l].bits)),
                    ),
            decreases n - j,
        {
            let idv = if j == i {
                Fp::one()
            } else {
                Fp::zero()
            };
            row.push(idv.sub(c.mul(u[i].mul(v[j]))));
            j = j + 1;
        }
        let ghost prev = r@;
        r.push(row);
        proof {
            assert forall|k: int, j: int| 0 <= k < i + 1 && 0 <= j < n implies ent(r@, k, j)
                == sub_bits(id_bits(k, j), mul_bits(c.bits, mul_bits(u@[k].bits, v@[j].bits)))
                by {
                if k < i {
                    assert(ent(r@, k, j) == ent(prev, k, j));
                } else {
                    assert(r@[k] == row);
                }
            }
        }
        i = i + 1;
    }
    r
}

/// The matrix `m + c·u·v^T`: a scaled outer product added elementwise.
pub fn mat_add_scaled_outer(m: &Vec<Vec<Fp>>, c: Fp, u: &Vec<Fp>, v: &Vec<Fp>, n: usize) -> (r:
    Vec<Vec<Fp>>)
    requires
        is_matrix(m@, n as int, n as int),
        u@.len() == n,
        v@.len() == n,
    ensures
        is_matrix(r@, n as int, n as int),
        forall|i: int, j: int|
            0 <= i < n && 0 <= j < n ==> ent(r@, i, j) == add_bits(
                ent(m@, i, j),
                mul_bits(c.bits, mul_bits(u@[i].bits, v@[j].bits)),
            ),
{
    let mut r: Vec<Vec<Fp>> = Vec::new();
    let mut i: usize = 0;
    while i < n
        invariant
            is_matrix(m@, n as int, n as int),
            u@.len() == n,
            v@.len() == n,
            i == r@.len(),
            i <= n,
            forall|k: int| 0 <= k < i ==> #[trigger] r@[k]@.len() == n,
            forall|k: int, j: int|
                0 <= k < i && 0 <= j < n ==> ent(r@, k, j) == add_bits(
                    ent(m@, k, j),
                    mul_bits(c.bits, mul_bits(u@[k].bits, v@[j].bits)),
                ),
        decreases n - i,
    {
        let mut row: Vec<Fp> = Vec::new();
        let mut j: usize = 0;
        while j < n
            invariant
                is_matrix(m@, n as int, n as int),
                u@.len() == n,
                v@.len() == n,
                i < n,
                j == row@.len(),
                j <= n,
                forall|l: int|
                    0 <= l < j ==> row@[l].bits == add_bits(
                        ent(m@, i as int, l),
                        mul_bits(c.bits, mul_bits(u@[i as int].bits, v@[l].bits)),
                    ),
            decreases n - j,
        {
            row.push(m[i][j].add(c.mul(u[i].mul(v[j]))));
            j = j + 1;
        }
        let ghost prev = r@;
        r.push(row);
        proof {
            assert forall|k: int, j: int| 0 <= k < i + 1 && 0 <= j < n implies ent(r@, k, j)
                == add_bits(ent(m@, k, j), mul_bits(c.bits, mul_bits(u@[k].bits, v@[j].bits)))
                by {
                if k < i {
                    assert(ent(r@, k, j) == ent(prev, k, j));
                } else {
                    assert(r@[k] == row);
                }
            }
        }
        i = i + 1;
    }
    r
}

/// An entrywise copy of a vector.
pub fn copy(a: &Vec<Fp>) -> (r: Vec<Fp>)
    ensures
        r@ == a@,
{
    let mut r: Vec<Fp> = Vec::new();
    let mut i: usize = 0;
    while i < a.len()
        invariant
            i == r@.len(),
            i <= a@.len(),
            forall|j: int| 0 <= j < i ==> r@[j] == a@[j],
        decreases a@.len() - i,
    {
        r.push(a[i]);
        i = i + 1;
    }
    proof {
        assert(r@ =~= a@);
    }
    r
}

/// The elementwise quotient of a vector by a scalar.
pub fn div_by(a: &Vec<Fp>, c: Fp) -> (r: Vec<Fp>)
    ensures
        r@.len() == a@.len(),
        forall|i: int| 0 <= i < a@.len() ==> r@[i].bits == div_bits(a@[i].bits, c.bits),
{
    let mut r: Vec<Fp> = Vec::new();
    let mut i: usize = 0;
    while i < a.len()
        invariant
            i == r@.len(),
            i <= a@.len(),
            forall|j: int| 0 <= j < i ==> r@[j].bits == div_bits(a@[j].bits, c.bits),
        decreases a@.len() - i,
    {
        r.push(a[i].div(c));
        i = i + 1;
    }
    r
}

/// An entrywise copy of a matrix.
pub fn mat_copy(a: &Vec<Vec<Fp>>, n: usize) -> (r: Vec<Vec<Fp>>)
    requires
        is_matrix(a@, n as int, n as int),
    ensures
        is_matrix(r@, n as int, n as int),
        forall|i: int, j: int| 0 <= i < n && 0 <= j < n ==> ent(r@, i, j) == ent(a@, i, j),
{
    let mut r: Vec<Vec<Fp>> = Vec::new();
    let mut i: usize = 0;
    while i < n
        invariant
            is_matrix(a@, n as int, n as int),
            i == r@.len(),
            i <= n,
            forall|k: int| 0 <= k < i ==> #[trigger] r@[k]@.len() == n,
            forall|k: int, j: int| 0 <= k < i && 0 <= j < n ==> ent(r@, k, j) == ent(a@, k, j),
        decreases n - i,
    {
        let ghost prev = r@;
        let row = copy(&a[i]);
        r.push(row);
        proof {
            assert forall|k: int, j: int| 0 <= k < i + 1 && 0 <= j < n implies ent(r@, k, j)
                == ent(a@, k, j) by {
                if k < i {
                    assert(ent(r@, k, j) == ent(prev, k, j));
                } else {
                    assert(r@[k] == row);
                }
            }
        }
        i = i + 1;
    }
    r
}

/// The elementwise matrix sum.
pub fn mat_add(a: &Vec<Vec<Fp>>, b: &Vec<Vec<Fp>>, n: usize) -> (r: Vec<Vec<Fp>>)
    requires
        is_matrix(a@, n as int, n as int),
        is_matrix(b@, n as int, n as int),
    ensures
        is_matrix(r@, n as int, n as int),
        forall|i: int, j: int|
            0 <= i < n && 0 <= j < n ==> ent(r@, i, j) == add_bits(ent(a@, i, j), ent(b@, i, j)),
{
    let mut r: Vec<Vec<Fp>> = Vec::new();
    let mut i: usize = 0;
    while i < n
        invariant
            is_matrix(a@, n as int, n as int),
            is_matrix(b@, n as int, n as int),
            i == r@.len(),
            i <= n,
            forall|k: int| 0 <= k < i ==> #[trigger] r@[k]@.len() == n,
            forall|k: int, j: int|
                0 <= k < i && 0 <= j < n ==> ent(r@, k, j) == add_bits(
                    ent(a@, k, j),
                    ent(b@, k, j),
                ),
        decreases n - i,
    {
        let ghost prev = r@;
        let row = crate::linalg::add(&a[i], &b[i]);
        r.push(row);
        proof {
            assert forall|k: int, j: int| 0 <= k < i + 1 && 0 <= j < n implies ent(r@, k, j)
                == add_bits(ent(a@, k, j), ent(b@, k, j)) by {
                if k < i {
                    assert(ent(r@, k, j) == ent(prev, k, j));
                } else {
                    assert(r@[k] == row);
                }
            }
        }
        i = i + 1;
    }
    r
}

/// The elementwise matrix difference.
pub fn mat_sub(a: &Vec<Vec<Fp>>, b: &Vec<Vec<Fp>>, n: usize) -> (r: Vec<Vec<Fp>>)
    requires
        is_matrix(a@, n as int, n as int),
        is_matrix(b@, n as int, n as int),
    ensures
        is_matrix(r@, n as int, n as int),
        forall|i: int, j: int|
            0 <= i < n && 0 <= j < n ==> ent(r@, i, j) == sub_bits(ent(a@, i, j), ent(b@, i, j)),
{
    let mut r: Vec<Vec<Fp>> = Vec::new();
    let mut i: usize = 0;
    while i < n
        invariant
            is_matrix(a@, n as int, n as int),
            is_matrix(b@, n as int, n as int),
            i == r@.len(),
            i <= n,
            forall|k: int| 0 <= k < i ==> #[trigger] r@[k]@.len() == n,
            forall|k: int, j: int|
                0 <= k < i && 0 <= j < n ==> ent(r@, k, j) == sub_bits(
                    ent(a@, k, j),
                    ent(b@, k, j),
                ),
        decreases n - i,
    {
        let ghost prev = r@;
        let row = crate::linalg::sub(&a[i], &b[i]);
        r.push(row);
        proof {
            assert forall|k: int, j: int| 0 <= k < i + 1 && 0 <= j < n implies ent(r@, k, j)
                == sub_bits(ent(a@, k, j), ent(b@, k, j)) by {
                if k < i {
                    assert(ent(r@, k, j) == ent(prev, k, j));
                } else {
                    assert(r@[k] == row);
                }
            }
        }
        i = i + 1;
    }
    r
}

/// The elementwise matrix negation.
pub fn mat_neg(a: &Vec<Vec<Fp>>, n: usize) -> (r: Vec<Vec<Fp>>)
    requires
        is_matrix(a@, n as int, n as int),
    ensures
        is_matrix(r@, n as int, n as int),
        forall|i: int, j: int|
            0 <= i < n && 0 <= j < n ==> ent(r@, i, j) == neg_bits(ent(a@, i, j)),
{
    let mut r: Vec<Vec<Fp>> = Vec::new();
    let mut i: usize = 0;
    while i < n
        invariant
            is_matrix(a@, n as int, n as int),
            i == r@.len(),
            i <= n,
            forall|k: int| 0 <= k < i ==> #[trigger] r@[k]@.len() == n,
            forall|k: int, j: int|
                0 <= k < i && 0 <= j < n ==> ent(r@, k, j) == neg_bits(ent(a@, k, j)),
        decreases n - i,
    {
        let ghost prev = r@;
        let row = neg(&a[i]);
        r.push(row);
        proof {
            assert forall|k: int, j: int| 0 <= k < i + 1 && 0 <= j < n implies ent(r@, k, j)
                == neg_bits(ent(a@, k, j)) by {
                if k < i {
                    assert(ent(r@, k, j) == ent(prev, k, j));
                } else {
                    assert(r@[k] == row);
                }
            }
        }
        i = i + 1;
    }
    r
}

/// The matrix scaled by `c` on the left, elementwise.
pub fn mat_scale(c: Fp, a: &Vec<Vec<Fp>>, n: usize) -> (r: Vec<Vec<Fp>>)
    requires
        is_matrix(a@, n as int, n as int),
    ensures
        is_matrix(r@, n as int, n as int),
        forall|i: int, j: int|
            0 <= i < n && 0 <= j < n ==> ent(r@, i, j) == mul_bits(c.bits, ent(a@, i, j)),
{
    let mut r: Vec<Vec<Fp>> = Vec::new();
    let mut i: usize = 0;
    while i < n
        invariant
            is_matrix(a@, n as int, n as int),
            i == r@.len(),
            i <= n,
            forall|k: int| 0 <= k < i ==> #[trigger] r@[k]@.len() == n,
            forall|k: int, j: int|
                0 <= k < i && 0 <= j < n ==> ent(r@, k, j) == mul_bits(c.bits, ent(a@, k, j)),
        decreases n - i,
    {
        let ghost prev = r@;
        let row = scale(c, &a[i]);
        r.push(row);
        proof {
            assert forall|k: int, j: int| 0 <= k < i + 1 && 0 <= j < n implies ent(r@, k, j)
                == mul_bits(c.bits, ent(a@, k, j)) by {
                if k < i {
                    assert(ent(r@, k, j) == ent(prev, k, j));
                } else {
                    assert(r@[k] == row);
                }
            }
        }
        i = i + 1;
    }
    r
}

/// The matrix divided by `c`, elementwise.
pub fn mat_div_by(a: &Vec<Vec<Fp>>, c: Fp, n: usize) -> (r: Vec<Vec<Fp>>)
    requires
        is_matrix(a@, n as int, n as int),
    ensures
        is_matrix(r@, n as int, n as int),
        forall|i: int, j: int|
            0 <= i < n && 0 <= j < n ==> ent(r@, i, j) == div_bits(ent(a@, i, j), c.bits),
{
    let mut r: Vec<Vec<Fp>> = Vec::new();
    let mut i: usize = 0;
    while i < n
        invariant
            is_matrix(a@, n as int, n as int),
            i == r@.len(),
            i <= n,
            forall|k: int| 0 <= k < i ==> #[trigger] r@[k]@.len() == n,
            forall|k: int, j: int|
                0 <= k < i && 0 <= j < n ==> ent(r@, k, j) == div_bits(ent(a@, k, j), c.bits),
        decreases n - i,
    {
        let ghost prev = r@;
        let row = div_by(&a[i], c);
        r.push(row);
        proof {
            assert forall|k: int, j: int| 0 <= k < i + 1 && 0 <= j < n implies ent(r@, k, j)
                == div_bits(ent(a@, k, j), c.bits) by {
                if k < i {
                    assert(ent(r@, k, j) == ent(prev, k, j));
                } else {
                    assert(r@[k] == row);
                }
            }
        }
        i = i + 1;
    }
    r
}

/// The outer product `u·v^T`.
pub fn outer(u: &Vec<Fp>, v: &Vec<Fp>, n: usize) -> (r: Vec<Vec<Fp>>)
    requires
        u@.len() == n,
        v@.len() == n,
    ensures
        is_matrix(r@, n as int, n as int),
        forall|i: int, j: int|
            0 <= i < n && 0 <= j < n ==> ent(r@, i, j) == mul_bits(u@[i].bits, v@[j].bits),
{
    let mut r: Vec<Vec<Fp>> = Vec::new();
    let mut i: usize = 0;
    while i < n
        invariant
            u@.len() == n,
            v@.len() == n,
            i == r@.len(),
            i <= n,
            forall|k: int| 0 <= k < i ==> #[trigger] r@[k]@.len() == n,
            forall|k: int, j: int|
                0 <= k < i && 0 <= j < n ==> ent(r@, k, j) == mul_bits(u@[k].bits, v@[j].bits),
        decreases n - i,
    {
        let ghost prev = r@;
        let row = scale(u[i], v);
        r.push(row);
        proof {
            assert forall|k: int, j: int| 0 <= k < i + 1 && 0 <= j < n implies ent(r@, k, j)
                == mul_bits(u@[k].bits, v@[j].bits) by {
                if k < i {
                    assert(ent(r@, k, j) == ent(prev, k, j));
                } else {
                    assert(r@[k] == row);
                }
            }
        }
        i = i + 1;
    }
    r
}

/// The transpose: entries swapped across the diagonal.
pub fn transpose(a: &Vec<Vec<Fp>>, n: usize) -> (r: Vec<Vec<Fp>>)
    requires
        is_matrix(a@, n as int, n as int),
    ensures
        is_matrix(r@, n as int, n as int),
        forall|i: int, j: int|
            0 <= i < n && 0 <= j < n ==> ent(r@, i, j) == ent(a@, j, i),
{
    let mut r: Vec<Vec<Fp>> = Vec::new();
    let mut i: usize = 0;
    while i < n
        invariant
            is_matrix(a@, n as int, n as int),
            i == r@.len(),
            i <= n,
            forall|k: int| 0 <= k < i ==> #[trigger] r@[k]@.len() == n,
            forall|k: int, j: int|
                0 <= k < i && 0 <= j < n ==> ent(r@, k, j) == ent(a@, j, k),
        decreases n - i,
    {
        let mut row: Vec<Fp> = Vec::new();
        let mut j: usize = 0;
        while j < n
            invariant
                is_matrix(a@, n as int, n as int),
                i < n,
                j == row@.len(),
                j <= n,
                forall|l: int| 0 <= l < j ==> row@[l] == a@[l]@[i as int],
            decreases n - j,
        {
            row.push(a[j][i]);
            j = j + 1;
        }
        let ghost prev = r@;
        r.push(row);
        proof {
            assert forall|k: int, j: int| 0 <= k < i + 1 && 0 <= j < n implies ent(r@, k, j)
                == ent(a@, j, k) by {
                if k < i {
                    assert(ent(r@, k, j) == ent(prev, k, j));
                } else {
                    assert(r@[k] == row);
                }
            }
        }
        i = i + 1;
    }
    r
}

/// Tests at run time whether `m` is a square matrix of side `n`.
pub fn check_square(m: &Vec<Vec<Fp>>, n: usize) -> (r: bool)
    ensures
        r == is_matrix(m@, n as int, n as int),
{
    if m.len() != n {
        return false;
    }
    let mut i: usize = 0;
    while i < n
        invariant
            m@.len() == n,
            i <= n,
            forall|k: int| 0 <= k < i ==> #[trigger] m@[k]@.len() == n,
        decreases n - i,
    {
        if m[i].len() != n {
            return false;
        }
        i = i + 1;
    }
    true
}

/// The symmetric matrix whose upper triangle is that of `a`: every entry
/// below the diagonal is replaced by its mirror image.
pub fn mirror_upper(a: &Vec<Vec<Fp>>, n: usize) -> (r: Vec<Vec<Fp>>)
    requires
        is_matrix(a@, n as int, n as int),
    ensures
        is_matrix(r@, n as int, n as int),
        forall|i: int, j: int|
            0 <= i <= j < n ==> ent(r@, i, j) == ent(a@, i, j),
        forall|i: int, j: int|
            0 <= j < i < n ==> ent(r@, i, j) == ent(a@, j, i),
{
    let mut r: Vec<Vec<Fp>> = Vec::new();
    let mut i: usize = 0;
    while i < n
        invariant
            is_matrix(a@, n as int, n as int),
            i == r@.len(),
            i <= n,
            forall|k: int| 0 <= k < i ==> #[trigger] r@[k]@.len() == n,
            forall|k: int, j: int|
                0 <= k < i && k <= j < n ==> ent(r@, k, j) == ent(a@, k, j),
            forall|k: int, j: int|
                0 <= j < k < i ==> ent(r@, k, j) == ent(a@, j, k),
        decreases n - i,
    {
        let mut row: Vec<Fp> = Vec::new();
        let mut j: usize = 0;
        while j < n
            invariant
                is_matrix(a@, n as int, n as int),
                i < n,
                j == row@.len(),
                j <= n,
                forall|l: int| i <= l < j ==> row@[l] == a@[i as int]@[l],
                forall|l: int| 0 <= l < j && l < i ==> row@[l] == a@[l]@[i as int],
            decreases n - j,
        {
            if j < i {
                row.push(a[j][i]);
            } else {
                row.push(a[i][j]);
            }
            j = j + 1;
        }
        let ghost prev = r@;
        r.push(row);
        proof {
            assert forall|k: int, j: int| 0 <= k < i + 1 && k <= j < n implies ent(r@, k, j)
                == ent(a@, k, j) by {
                if k < i {
                    assert(ent(r@, k, j) == ent(prev, k, j));
                } else {
                    assert(r@[k] == row);
                }
            }
            assert forall|k: int, j: int| 0 <= j < k < i + 1 implies ent(r@, k, j) == ent(
                a@,
                j,
                k,
            ) by {
                if k < i {
                    assert(ent(r@, k, j) == ent(prev, k, j));
                } else {
                    assert(r@[k] == row);
                }
            }
        }
        i = i + 1;
    }
    r
}

} // verus!
