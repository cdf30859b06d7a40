//! The mathematics of the library: vectors as sequences of integers, and
//! each operation as a function on such sequences.
//!
//! Nothing here is bounded by a machine word. The executable operations
//! return exactly these values whenever every component fits in an `i64`.

use crate::error::VectorError;
use vstd::prelude::*;

verus! {

/// `x` can be held in an `i64`.
pub open spec fn fits(x: int) -> bool {
    i64::MIN <= x <= i64::MAX
}

/// Every component of `s` can be held in an `i64`.
pub open spec fn all_fit(s: Seq<int>) -> bool {
    forall|i: int| 0 <= i < s.len() ==> fits(#[trigger] s[i])
}

/// Every component of `s` is zero, so that its norm is exactly zero.
pub open spec fn is_zero(s: Seq<int>) -> bool {
    forall|i: int| 0 <= i < s.len() ==> #[trigger] s[i] == 0
}

/// The component of `s` at `i`, and zero beyond the end of `s`.
pub open spec fn padded(s: Seq<int>, i: int) -> int {
    if 0 <= i < s.len() {
        s[i]
    } else {
        0
    }
}

/// The larger of two dimensions.
pub open spec fn longer(m: nat, n: nat) -> nat {
    if m >= n {
        m
    } else {
        n
    }
}

/// The smaller of two dimensions.
pub open spec fn shorter(m: nat, n: nat) -> nat {
    if m <= n {
        m
    } else {
        n
    }
}

/// The sum of two vectors: the shorter one counts as padded with zeros.
pub open spec fn sum_of(a: Seq<int>, b: Seq<int>) -> Seq<int> {
    Seq::new(longer(a.len(), b.len()), |i: int| padded(a, i) + padded(b, i))
}

/// The difference of two vectors: the shorter one counts as padded with zeros.
pub open spec fn difference_of(a: Seq<int>, b: Seq<int>) -> Seq<int> {
    Seq::new(longer(a.len(), b.len()), |i: int| padded(a, i) - padded(b, i))
}

/// Every component of `v` multiplied by `k`.
pub open spec fn scaled(v: Seq<int>, k: int) -> Seq<int> {
    Seq::new(v.len(), |i: int| v[i] * k)
}

/// The sum of the products of the first `n` components of `a` and `b`.
pub open spec fn dot_prefix(a: Seq<int>, b: Seq<int>, n: nat) -> int
    decreases n,
{
    if n == 0 {
        0
    } else {
        dot_prefix(a, b, (n - 1) as nat) + a[n - 1] * b[n - 1]
    }
}

/// The dot product: components beyond the shorter vector are ignored.
pub open spec fn dot_of(a: Seq<int>, b: Seq<int>) -> int {
    dot_prefix(a, b, shorter(a.len(), b.len()))
}

/// The cross product of two vectors of dimension three or less, each padded
/// with zeros to dimension three.
pub open spec fn cross_of(a: Seq<int>, b: Seq<int>) -> Seq<int> {
    seq![
        padded(a, 1) * padded(b, 2) - padded(a, 2) * padded(b, 1),
        padded(a, 2) * padded(b, 0) - padded(a, 0) * padded(b, 2),
        padded(a, 0) * padded(b, 1) - padded(a, 1) * padded(b, 0),
    ]
}

/// The vector (1, 1, 1).
pub open spec fn ones() -> Seq<int> {
    seq![1, 1, 1]
}

/// The three directions of the frame that is built on the single vector
/// `v`: `v` itself, the cross product `b` of `v` and `v + (1, 1, 1)`, and
/// the cross product of `b` and `v`.
pub open spec fn frame_with_one(v: Seq<int>) -> (Seq<int>, Seq<int>, Seq<int>) {
    let b = cross_of(v, sum_of(v, ones()));
    (v, b, cross_of(b, v))
}

/// The three directions of the frame that is built on `v1` and `v2`: `v1`
/// itself, the cross product `a` of `v1` and `v2`, and the cross product of
/// `v1` and `a`.
pub open spec fn frame_with_two(v1: Seq<int>, v2: Seq<int>) -> (Seq<int>, Seq<int>, Seq<int>) {
    let a = cross_of(v1, v2);
    (v1, a, cross_of(v1, a))
}

/// A frame as a result: `Overflow` where its second or third direction does
/// not fit, else `DegenerateVector` where one of the three has norm exactly
/// zero, else the frame.
pub open spec fn frame_outcome(frame: (Seq<int>, Seq<int>, Seq<int>)) -> Result<
    (Seq<int>, Seq<int>, Seq<int>),
    VectorError,
> {
    if !(all_fit(frame.1) && all_fit(frame.2)) {
        Err(VectorError::Overflow)
    } else if is_zero(frame.0) || is_zero(frame.1) || is_zero(frame.2) {
        Err(VectorError::DegenerateVector)
    } else {
        Ok(frame)
    }
}

/// What building a frame on the single vector `v` gives: `Overflow` already
/// where `v + (1, 1, 1)` does not fit.
pub open spec fn basis_with_one(v: Seq<int>) -> Result<(Seq<int>, Seq<int>, Seq<int>), VectorError> {
    if !all_fit(sum_of(v, ones())) {
        Err(VectorError::Overflow)
    } else {
        frame_outcome(frame_with_one(v))
    }
}

/// What building a frame on `v1` and `v2` gives: `Overflow` already where
/// their dot product does not fit. Two vectors whose dot product is exactly
/// 1 count as parallel, and the frame is then built on `v1` alone.
pub open spec fn basis_with_two(v1: Seq<int>, v2: Seq<int>) -> Result<
    (Seq<int>, Seq<int>, Seq<int>),
    VectorError,
> {
    if !fits(dot_of(v1, v2)) {
        Err(VectorError::Overflow)
    } else if dot_of(v1, v2) == 1 {
        basis_with_one(v1)
    } else {
        frame_outcome(frame_with_two(v1, v2))
    }
}

} // verus!
