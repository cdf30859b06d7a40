//! Laws that relate the operations to one another, over the mathematics of
//! [`crate::model`].

use crate::model::{
    cross_of, difference_of, dot_of, dot_prefix, frame_with_one, frame_with_two, is_zero, ones,
    padded, scaled, sum_of,
};
use vstd::prelude::*;

verus! {

/// On vectors of equal dimension the sum and the difference are taken
/// component by component, and have that dimension.
pub proof fn lemma_equal_dimensions(a: Seq<int>, b: Seq<int>)
    requires
        a.len() == b.len(),
    ensures
        sum_of(a, b).len() == a.len(),
        difference_of(a, b).len() == a.len(),
        forall|i: int| 0 <= i < a.len() ==> #[trigger] sum_of(a, b)[i] == a[i] + b[i],
        forall|i: int| 0 <= i < a.len() ==> #[trigger] difference_of(a, b)[i] == a[i] - b[i],
{
}

/// Where the first operand is the shorter one, the sum and the difference
/// have the dimension of the second. Up to the end of the first they are
/// taken component by component; beyond it the sum holds the components of
/// the second operand, and the difference holds them negated.
pub proof fn lemma_shorter_first(a: Seq<int>, b: Seq<int>)
    requires
        a.len() < b.len(),
    ensures
        sum_of(a, b).len() == b.len(),
        difference_of(a, b).len() == b.len(),
        forall|i: int| 0 <= i < a.len() ==> #[trigger] sum_of(a, b)[i] == a[i] + b[i],
        forall|i: int| a.len() <= i < b.len() ==> #[trigger] sum_of(a, b)[i] == b[i],
        forall|i: int| 0 <= i < a.len() ==> #[trigger] difference_of(a, b)[i] == a[i] - b[i],
        forall|i: int| a.len() <= i < b.len() ==> #[trigger] difference_of(a, b)[i] == -b[i],
{
}

/// Where the first operand is the longer one, the sum and the difference
/// have its dimension. Up to the end of the second they are taken component
/// by component; beyond it both hold the components of the first operand.
pub proof fn lemma_longer_first(a: Seq<int>, b: Seq<int>)
    requires
        a.len() > b.len(),
    ensures
        sum_of(a, b).len() == a.len(),
        difference_of(a, b).len() == a.len(),
        forall|i: int| 0 <= i < b.len() ==> #[trigger] sum_of(a, b)[i] == a[i] + b[i],
        forall|i: int| b.len() <= i < a.len() ==> #[trigger] sum_of(a, b)[i] == a[i],
        forall|i: int| 0 <= i < b.len() ==> #[trigger] difference_of(a, b)[i] == a[i] - b[i],
        forall|i: int| b.len() <= i < a.len() ==> #[trigger] difference_of(a, b)[i] == a[i],
{
}

/// The cross product changes its sign when its operands change places.
pub proof fn lemma_cross_anticommutative(a: Seq<int>, b: Seq<int>)
    requires
        a.len() <= 3,
        b.len() <= 3,
    ensures
        cross_of(a, b) == scaled(cross_of(b, a), -1),
{
    let (a0, a1, a2) = (padded(a, 0), padded(a, 1), padded(a, 2));
    let (b0, b1, b2) = (padded(b, 0), padded(b, 1), padded(b, 2));
    assert(a1 * b2 - a2 * b1 == (b1 * a2 - b2 * a1) * -1) by (nonlinear_arith);
    assert(a2 * b0 - a0 * b2 == (b2 * a0 - b0 * a2) * -1) by (nonlinear_arith);
    assert(a0 * b1 - a1 * b0 == (b0 * a1 - b1 * a0) * -1) by (nonlinear_arith);
    assert(cross_of(a, b) =~= scaled(cross_of(b, a), -1));
}

/// The sum of the squares of the first `n` components of `v` is not
/// negative, and it is zero only where all of them are zero.
proof fn lemma_squares_prefix(v: Seq<int>, n: nat)
    requires
        n <= v.len(),
    ensures
        dot_prefix(v, v, n) >= 0,
        dot_prefix(v, v, n) == 0 <==> forall|i: int| 0 <= i < n ==> #[trigger] v[i] == 0,
    decreases n,
{
    if n > 0 {
        lemma_squares_prefix(v, (n - 1) as nat);
        let x = v[n - 1];
        assert(x * x >= 0 && (x * x == 0 <==> x == 0)) by (nonlinear_arith);
    }
}

/// The square of the norm of a vector, its dot product with itself, is not
/// negative, and the norm is exactly zero only where every component is
/// zero.
pub proof fn lemma_norm_zero(v: Seq<int>)
    ensures
        dot_of(v, v) >= 0,
        dot_of(v, v) == 0 <==> is_zero(v),
{
    lemma_squares_prefix(v, v.len());
}

/// The dot product of two vectors of dimension three or less is the sum of
/// the three products of their components, each vector padded with zeros.
proof fn lemma_dot_padded(a: Seq<int>, b: Seq<int>)
    requires
        a.len() <= 3,
        b.len() <= 3,
    ensures
        dot_of(a, b) == padded(a, 0) * padded(b, 0) + padded(a, 1) * padded(b, 1) + padded(a, 2)
            * padded(b, 2),
{
    reveal_with_fuel(dot_prefix, 4);
    assert(forall|x: int| #[trigger] (0 * x) == 0) by (nonlinear_arith);
    assert(forall|x: int| #[trigger] (x * 0) == 0) by (nonlinear_arith);
}

/// The cross product of two vectors is orthogonal to both of them.
proof fn lemma_cross_orthogonal(a: Seq<int>, b: Seq<int>)
    requires
        a.len() <= 3,
        b.len() <= 3,
    ensures
        dot_of(a, cross_of(a, b)) == 0,
        dot_of(cross_of(a, b), a) == 0,
        dot_of(b, cross_of(a, b)) == 0,
        dot_of(cross_of(a, b), b) == 0,
{
    let c = cross_of(a, b);
    let (a0, a1, a2) = (padded(a, 0), padded(a, 1), padded(a, 2));
    let (b0, b1, b2) = (padded(b, 0), padded(b, 1), padded(b, 2));
    lemma_dot_padded(a, c);
    lemma_dot_padded(c, a);
    lemma_dot_padded(b, c);
    lemma_dot_padded(c, b);
    assert(a0 * (a1 * b2 - a2 * b1) + a1 * (a2 * b0 - a0 * b2) + a2 * (a0 * b1 - a1 * b0) == 0)
        by (nonlinear_arith);
    assert((a1 * b2 - a2 * b1) * a0 + (a2 * b0 - a0 * b2) * a1 + (a0 * b1 - a1 * b0) * a2 == 0)
        by (nonlinear_arith);
    assert(b0 * (a1 * b2 - a2 * b1) + b1 * (a2 * b0 - a0 * b2) + b2 * (a0 * b1 - a1 * b0) == 0)
        by (nonlinear_arith);
    assert((a1 * b2 - a2 * b1) * b0 + (a2 * b0 - a0 * b2) * b1 + (a0 * b1 - a1 * b0) * b2 == 0)
        by (nonlinear_arith);
}

/// The three directions of the frame that is built on one vector are
/// orthogonal to one another: the dot product of each two is zero. So then
/// are the three vectors that `find_basis_with_one` returns.
pub proof fn lemma_basis_with_one_orthogonal(v: Seq<int>)
    requires
        v.len() <= 3,
    ensures
        ({
            let (e1, e2, e3) = frame_with_one(v);
            &&& dot_of(e1, e2) == 0
            &&& dot_of(e1, e3) == 0
            &&& dot_of(e2, e3) == 0
        }),
{
    let (e1, e2, e3) = frame_with_one(v);
    lemma_cross_orthogonal(v, sum_of(v, ones()));
    lemma_cross_orthogonal(e2, v);
}

/// The three directions of the frame that is built on two vectors are
/// orthogonal to one another: the dot product of each two is zero.
pub proof fn lemma_basis_with_two_orthogonal(v1: Seq<int>, v2: Seq<int>)
    requires
        v1.len() <= 3,
        v2.len() <= 3,
    ensures
        ({
            let (e1, e2, e3) = frame_with_two(v1, v2);
            &&& dot_of(e1, e2) == 0
            &&& dot_of(e1, e3) == 0
            &&& dot_of(e2, e3) == 0
        }),
{
    let (e1, e2, e3) = frame_with_two(v1, v2);
    lemma_cross_orthogonal(v1, v2);
    lemma_cross_orthogonal(v1, e2);
}

} // verus!
