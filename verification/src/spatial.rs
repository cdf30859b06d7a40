//! Operations that are defined in three dimensions only.

use crate::error::VectorError;
use crate::exact::minor;
use crate::model::{
    all_fit, basis_with_one, basis_with_two, cross_of, dot_of, fits, is_zero, ones, padded,
};
use crate::vector::{ints, Vector};
use vstd::prelude::*;

verus! {

/// The component of `v` at `i`, and zero beyond the end of `v`.
fn component_or_zero(v: &Vector, i: usize) -> (x: i64)
    ensures
        x == padded(v@, i as int),
{
    let data = v.components();
    if i < data.len() {
        data[i]
    } else {
        0
    }
}

/// Whether every component of `v` is zero.
fn all_zero(v: &Vector) -> (z: bool)
    ensures
        z == is_zero(v@),
{
    let data = v.components();
    let mut i: usize = 0;
    while i < data.len()
        invariant
            i <= data@.len(),
            ints(data@) == v@,
            forall|j: int| 0 <= j < i ==> #[trigger] v@[j] == 0,
        decreases data@.len() - i,
    {
        if data[i] != 0 {
            assert(v@[i as int] != 0);
            return false;
        }
        i += 1;
    }
    true
}

/// A vector with the components of `v`.
fn copy_of(v: &Vector) -> (c: Vector)
    ensures
        c@ == v@,
{
    let data = v.components();
    let mut copy: Vec<i64> = Vec::new();
    let mut i: usize = 0;
    while i < data.len()
        invariant
            i <= data@.len(),
            copy@ == data@.take(i as int),
        decreases data@.len() - i,
    {
        copy.push(data[i]);
        assert(data@.take(i + 1) =~= data@.take(i as int).push(data@[i as int]));
        i += 1;
    }
    assert(data@.take(i as int) =~= data@);
    Vector::new(copy)
}

/// The three vectors of a frame by their components.
pub open spec fn frame_view(r: Result<(Vector, Vector, Vector), VectorError>) -> Result<
    (Seq<int>, Seq<int>, Seq<int>),
    VectorError,
> {
    match r {
        Ok((e1, e2, e3)) => Ok((e1@, e2@, e3@)),
        Err(e) => Err(e),
    }
}

impl Vector {
    /// The cross product of `self` and `v1`, each padded with zeros to
    /// dimension three.
    ///
    /// Neither operand may have more than three components. The result has
    /// dimension three. It is `Overflow` exactly when a component of the true
    /// cross product does not fit in an `i64`.
    pub fn cross(&self, v1: &Self) -> (r: Result<Self, VectorError>)
        requires
            self@.len() <= 3,
            v1@.len() <= 3,
        ensures
            r is Ok <==> all_fit(cross_of(self@, v1@)),
            r matches Ok(c) ==> c@ == cross_of(self@, v1@),
            r matches Err(e) ==> e == VectorError::Overflow,
    {
        let a0 = component_or_zero(self, 0);
        let a1 = component_or_zero(self, 1);
        let a2 = component_or_zero(self, 2);
        let b0 = component_or_zero(v1, 0);
        let b1 = component_or_zero(v1, 1);
        let b2 = component_or_zero(v1, 2);
        let ghost exact = cross_of(self@, v1@);
        let x = match minor(a1, b2, a2, b1) {
            Some(x) => x,
            None => {
                assert(!fits(exact[0]));
                return Err(VectorError::Overflow);
            },
        };
        let y = match minor(a2, b0, a0, b2) {
            Some(y) => y,
            None => {
                assert(!fits(exact[1]));
                return Err(VectorError::Overflow);
            },
        };
        let z = match minor(a0, b1, a1, b0) {
            Some(z) => z,
            None => {
                assert(!fits(exact[2]));
                return Err(VectorError::Overflow);
            },
        };
        let data = vec![x, y, z];
        assert(ints(data@) =~= exact);
        Ok(Vector::new(data))
    }

    /// Three mutually orthogonal directions in three dimensions, the first
    /// of them `v`.
    ///
    /// The second is the cross product `b` of `v` and `v + (1, 1, 1)`, the
    /// third the cross product of `b` and `v`. They are returned as they are,
    /// not scaled to unit length: a unit vector has no integer components in
    /// general. `v` may not have more than three components.
    ///
    /// The result is `Overflow` where `v + (1, 1, 1)` or one of the two cross
    /// products does not fit, else `DegenerateVector` where one of the three
    /// directions has norm exactly zero and so cannot be scaled to unit
    /// length, as where `v` is parallel to (1, 1, 1).
    pub fn find_basis_with_one(v: &Self) -> (r: Result<(Self, Self, Self), VectorError>)
        requires
            v@.len() <= 3,
        ensures
            frame_view(r) == basis_with_one(v@),
    {
        let diagonal = Vector::new(vec![1, 1, 1]);
        assert(diagonal@ =~= ones());
        let temp = match v.add(diagonal) {
            Ok(temp) => temp,
            Err(e) => {
                return Err(e);
            },
        };
        let b = match v.cross(&temp) {
            Ok(b) => b,
            Err(e) => {
                return Err(e);
            },
        };
        let c = match b.cross(v) {
            Ok(c) => c,
            Err(e) => {
                return Err(e);
            },
        };
        if all_zero(v) || all_zero(&b) || all_zero(&c) {
            return Err(VectorError::DegenerateVector);
        }
        Ok((copy_of(v), b, c))
    }

    /// Three mutually orthogonal directions in three dimensions, the first
    /// of them `v1`.
    ///
    /// Where the dot product of `v1` and `v2` is exactly 1 the two count as
    /// parallel, and the result is that of `find_basis_with_one(v1)`.
    /// Otherwise the second direction is the cross product `a` of `v1` and
    /// `v2`, the third the cross product of `v1` and `a`. They are returned
    /// as they are, not scaled to unit length. `v1` may not have more than
    /// three components, nor may `v2` unless the two count as parallel.
    ///
    /// The result is `Overflow` where the dot product or a vector on the way
    /// does not fit, else `DegenerateVector` where one of the three
    /// directions has norm exactly zero.
    pub fn find_basis_with_two(v1: &Self, v2: &Self) -> (r: Result<(Self, Self, Self), VectorError>)
        requires
            v1@.len() <= 3,
            v2@.len() <= 3 || dot_of(v1@, v2@) == 1,
        ensures
            frame_view(r) == basis_with_two(v1@, v2@),
    {
        let d = match v1.dot(v2) {
            Ok(d) => d,
            Err(e) => {
                return Err(e);
            },
        };
        if d == 1 {
            // The vectors count as parallel.
            return Self::find_basis_with_one(v1);
        }
        let a = match v1.cross(v2) {
            Ok(a) => a,
            Err(e) => {
                return Err(e);
            },
        };
        let b = match v1.cross(&a) {
            Ok(b) => b,
            Err(e) => {
                return Err(e);
            },
        };
        if all_zero(v1) || all_zero(&a) || all_zero(&b) {
            return Err(VectorError::DegenerateVector);
        }
        Ok((copy_of(v1), a, b))
    }
}

} // verus!
