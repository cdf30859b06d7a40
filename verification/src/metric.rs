//! Operations that measure vectors.

use crate::error::VectorError;
use crate::exact::{product, wide, wide_add, wide_to_word};
use crate::model::{dot_of, dot_prefix, fits};
use crate::vector::Vector;
use vstd::prelude::*;

verus! {

impl Vector {
    /// The dot product of `self` and `v1`.
    ///
    /// Only the components that both operands have are multiplied and
    /// summed; those beyond the end of the shorter operand are ignored. It
    /// is `Overflow` exactly when the true dot product does not fit in an
    /// `i64`, whatever the sums on the way to it were.
    pub fn dot(&self, v1: &Self) -> (r: Result<i64, VectorError>)
        ensures
            r is Ok <==> fits(dot_of(self@, v1@)),
            r matches Ok(d) ==> d == dot_of(self@, v1@),
            r matches Err(e) ==> e == VectorError::Overflow,
    {
        let a = self.components();
        let b = v1.components();
        let min_dim = if a.len() <= b.len() { a.len() } else { b.len() };
        let mut low: i128 = 0;
        let mut high: i128 = 0;
        let mut i: usize = 0;
        while i < min_dim
            invariant
                i <= min_dim,
                min_dim <= a@.len(),
                min_dim <= b@.len(),
                a@.len() == self@.len(),
                b@.len() == v1@.len(),
                forall|j: int| 0 <= j < a@.len() ==> a@[j] as int == #[trigger] self@[j],
                forall|j: int| 0 <= j < b@.len() ==> b@[j] as int == #[trigger] v1@[j],
                -i <= high <= i,
                wide(low as int, high as int) == dot_prefix(self@, v1@, i as nat),
            decreases min_dim - i,
        {
            let p = product(a[i], b[i]);
            let (l, h) = wide_add(low, high, p);
            low = l;
            high = h;
            i += 1;
        }
        match wide_to_word(low, high) {
            Some(d) => Ok(d),
            None => Err(VectorError::Overflow),
        }
    }

    /// The square of the Euclidean norm of `self`: the sum of the squares of
    /// its components. The norm itself is its square root, which is an
    /// integer for few vectors only.
    ///
    /// It is `Overflow` exactly when the true sum does not fit in an `i64`.
    pub fn norm_squared(&self) -> (r: Result<i64, VectorError>)
        ensures
            r is Ok <==> fits(dot_of(self@, self@)),
            r matches Ok(n) ==> n == dot_of(self@, self@),
            r matches Err(e) ==> e == VectorError::Overflow,
    {
        self.dot(self)
    }
}

} // verus!
