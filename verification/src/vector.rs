//! The vector type and its arithmetic.

use crate::error::VectorError;
use crate::model::{all_fit, difference_of, fits, longer, padded, scaled, shorter, sum_of};
use vstd::prelude::*;

verus! {

/// The components of a vector as mathematical integers.
pub open spec fn ints(s: Seq<i64>) -> Seq<int> {
    Seq::new(s.len(), |i: int| s[i] as int)
}

/// An ordered sequence of integer components. Its dimension is the number
/// of components; no operation changes a vector in place.
#[derive(Debug, Clone, PartialEq, Eq)]
pub struct Vector {
    data: Vec<i64>,
}

impl View for Vector {
    type V = Seq<int>;

    closed spec fn view(&self) -> Seq<int> {
        ints(self.data@)
    }
}

impl Vector {
    /// A vector with the given components, in their order.
    pub fn new(data: Vec<i64>) -> (v: Self)
        ensures
            v@ == ints(data@),
    {
        Self { data }
    }

    /// The dimension of the vector.
    pub fn len(&self) -> (n: usize)
        ensures
            n == self@.len(),
    {
        self.data.len()
    }

    /// The components of the vector, in their order.
    pub fn components(&self) -> (data: &Vec<i64>)
        ensures
            ints(data@) == self@,
    {
        &self.data
    }

    /// Every component of a vector fits in an `i64`.
    pub proof fn lemma_components_fit(&self)
        ensures
            all_fit(self@),
    {
    }

    /// The sum of `self` and `v1`.
    ///
    /// The result has the dimension of the longer operand. Where both have
    /// a component, the two are added; beyond the end of the shorter operand
    /// the result holds the components of the longer one. It is `Overflow`
    /// exactly when a component of the true sum does not fit in an `i64`.
    pub fn add(&self, v1: Self) -> (r: Result<Self, VectorError>)
        ensures
            r is Ok <==> all_fit(sum_of(self@, v1@)),
            r matches Ok(s) ==> s@ == sum_of(self@, v1@),
            r matches Err(e) ==> e == VectorError::Overflow,
    {
        let m = self.data.len();
        let n = v1.data.len();
        let max_dim = if m >= n { m } else { n };
        let min_dim = if m <= n { m } else { n };
        let ghost exact = sum_of(self@, v1@);
        let mut new_data: Vec<i64> = Vec::new();
        let mut i: usize = 0;
        while i < min_dim
            invariant
                i <= min_dim,
                m == self.data@.len(),
                n == v1.data@.len(),
                min_dim == shorter(m as nat, n as nat),
                exact == sum_of(self@, v1@),
                new_data@.len() == i,
                forall|j: int| 0 <= j < i ==> new_data@[j] as int == #[trigger] exact[j],
            decreases min_dim - i,
        {
            match self.data[i].checked_add(v1.data[i]) {
                Some(s) => {
                    new_data.push(s);
                },
                None => {
                    assert(!fits(exact[i as int]));
                    return Err(VectorError::Overflow);
                },
            }
            i += 1;
        }
        // Beyond the shorter operand only the longer one contributes.
        while i < max_dim
            invariant
                min_dim <= i <= max_dim,
                m == self.data@.len(),
                n == v1.data@.len(),
                min_dim == shorter(m as nat, n as nat),
                max_dim == longer(m as nat, n as nat),
                exact == sum_of(self@, v1@),
                new_data@.len() == i,
                forall|j: int| 0 <= j < i ==> new_data@[j] as int == #[trigger] exact[j],
            decreases max_dim - i,
        {
            let x = if m > n { self.data[i] } else { v1.data[i] };
            new_data.push(x);
            i += 1;
        }
        assert(ints(new_data@) =~= exact);
        Ok(Self { data: new_data })
    }

    /// The difference of `self` and `v1`.
    ///
    /// The result has the dimension of the longer operand. Where both have
    /// a component, the second is taken from the first; beyond the end of
    /// the shorter operand the result holds the components of `self` as they
    /// are, or those of `v1` negated. It is `Overflow` exactly when a
    /// component of the true difference does not fit in an `i64`.
    pub fn sub(&self, v1: Self) -> (r: Result<Self, VectorError>)
        ensures
            r is Ok <==> all_fit(difference_of(self@, v1@)),
            r matches Ok(d) ==> d@ == difference_of(self@, v1@),
            r matches Err(e) ==> e == VectorError::Overflow,
    {
        let m = self.data.len();
        let n = v1.data.len();
        let max_dim = if m >= n { m } else { n };
        let min_dim = if m <= n { m } else { n };
        let ghost exact = difference_of(self@, v1@);
        let mut new_data: Vec<i64> = Vec::new();
        let mut i: usize = 0;
        while i < min_dim
            invariant
                i <= min_dim,
                m == self.data@.len(),
                n == v1.data@.len(),
                min_dim == shorter(m as nat, n as nat),
                exact == difference_of(self@, v1@),
                new_data@.len() == i,
                forall|j: int| 0 <= j < i ==> new_data@[j] as int == #[trigger] exact[j],
            decreases min_dim - i,
        {
            match self.data[i].checked_sub(v1.data[i]) {
                Some(d) => {
                    new_data.push(d);
                },
                None => {
                    assert(!fits(exact[i as int]));
                    return Err(VectorError::Overflow);
                },
            }
            i += 1;
        }
        // Beyond the shorter operand the other one counts as zero.
        while i < max_dim
            invariant
                min_dim <= i <= max_dim,
                m == self.data@.len(),
                n == v1.data@.len(),
                min_dim == shorter(m as nat, n as nat),
                max_dim == longer(m as nat, n as nat),
                exact == difference_of(self@, v1@),
                new_data@.len() == i,
                forall|j: int| 0 <= j < i ==> new_data@[j] as int == #[trigger] exact[j],
            decreases max_dim - i,
        {
            if m > n {
                new_data.push(self.data[i]);
            } else {
                let zero: i64 = 0;
                match zero.checked_sub(v1.data[i]) {
                    Some(d) => {
                        new_data.push(d);
                    },
                    None => {
                        assert(!fits(exact[i as int]));
                        return Err(VectorError::Overflow);
                    },
                }
            }
            i += 1;
        }
        assert(ints(new_data@) =~= exact);
        Ok(Self { data: new_data })
    }

    /// Every component of `self` multiplied by `k`.
    ///
    /// The result has the dimension of `self`. It is `Overflow` exactly when
    /// a component of the true product does not fit in an `i64`.
    pub fn scalar_mul(&self, k: i64) -> (r: Result<Self, VectorError>)
        ensures
            r is Ok <==> all_fit(scaled(self@, k as int)),
            r matches Ok(p) ==> p@ == scaled(self@, k as int),
            r matches Err(e) ==> e == VectorError::Overflow,
    {
        let n = self.data.len();
        let ghost exact = scaled(self@, k as int);
        let mut new_data: Vec<i64> = Vec::new();
        let mut i: usize = 0;
        while i < n
            invariant
                i <= n,
                n == self.data@.len(),
                exact == scaled(self@, k as int),
                new_data@.len() == i,
                forall|j: int| 0 <= j < i ==> new_data@[j] as int == #[trigger] exact[j],
            decreases n - i,
        {
            match self.data[i].checked_mul(k) {
                Some(p) => {
                    new_data.push(p);
                },
                None => {
                    assert(!fits(exact[i as int]));
                    return Err(VectorError::Overflow);
                },
            }
            i += 1;
        }
        assert(ints(new_data@) =~= exact);
        Ok(Self { data: new_data })
    }
}

} // verus!
