//! Exact arithmetic on machine words: products and sums are formed in a
//! wider type, and a result is handed back only if it is the true one.

use crate::model::fits;
use vstd::prelude::*;

verus! {

/// The product of two values of `i64` has magnitude at most 2^126.
pub(crate) proof fn lemma_product_bound(x: int, y: int)
    requires
        fits(x),
        fits(y),
    ensures
        -0x4000_0000_0000_0000_0000_0000_0000_0000 <= x * y
            <= 0x4000_0000_0000_0000_0000_0000_0000_0000,
{
    let m: int = 0x8000_0000_0000_0000;
    assert(-m <= x <= m && -m <= y <= m);
    assert(-(m * m) <= x * y <= m * m) by (nonlinear_arith)
        requires
            -m <= x <= m,
            -m <= y <= m,
            m >= 0,
    ;
    assert(m * m == 0x4000_0000_0000_0000_0000_0000_0000_0000) by (nonlinear_arith)
        requires
            m == 0x8000_0000_0000_0000,
    ;
}

/// The product of two words, in a type that always holds it.
pub(crate) fn product(x: i64, y: i64) -> (p: i128)
    ensures
        p == x * y,
{
    proof {
        lemma_product_bound(x as int, y as int);
    }
    (x as i128) * (y as i128)
}

/// `a * d - b * c`, if that fits in an `i64`.
pub(crate) fn minor(a: i64, d: i64, b: i64, c: i64) -> (r: Option<i64>)
    ensures
        r is Some <==> fits(a * d - b * c),
        r matches Some(x) ==> x == a * d - b * c,
{
    let p = product(a, d);
    let q = product(b, c);
    proof {
        lemma_product_bound(a as int, d as int);
        lemma_product_bound(b as int, c as int);
    }
    match p.checked_sub(q) {
        Some(x) => {
            if x < i64::MIN as i128 || x > i64::MAX as i128 {
                None
            } else {
                Some(x as i64)
            }
        },
        None => None,
    }
}

/// The number that a wide sum stands for: `low + high * 2^128`.
pub(crate) open spec fn wide(low: int, high: int) -> int {
    low + high * 0x1_0000_0000_0000_0000_0000_0000_0000_0000
}

/// Adds `p` to the wide sum `(low, high)` and returns the new pair.
///
/// A sum of many products need not fit in any machine word, though the
/// total may: the second word counts how often the first has wrapped.
pub(crate) fn wide_add(low: i128, high: i128, p: i128) -> (r: (i128, i128))
    requires
        i128::MIN < high < i128::MAX,
    ensures
        wide(r.0 as int, r.1 as int) == wide(low as int, high as int) + p,
        high - 1 <= r.1 <= high + 1,
{
    match low.checked_add(p) {
        Some(s) => (s, high),
        None => {
            if p > 0 {
                let s = ((low + i128::MIN) + p) + i128::MIN;
                (s, high + 1)
            } else {
                let s = ((low - i128::MIN) + p) - i128::MIN;
                (s, high - 1)
            }
        },
    }
}

/// The number that the wide sum `(low, high)` stands for, if it fits in an
/// `i64`.
pub(crate) fn wide_to_word(low: i128, high: i128) -> (r: Option<i64>)
    ensures
        r is Some <==> fits(wide(low as int, high as int)),
        r matches Some(x) ==> x == wide(low as int, high as int),
{
    if high == 0 && low >= i64::MIN as i128 && low <= i64::MAX as i128 {
        Some(low as i64)
    } else {
        None
    }
}

} // verus!
