use vstd::prelude::*;

verus! {

/// Why an operation on vectors could not produce a value.
#[derive(Debug, Clone, Copy, PartialEq, Eq, Structural)]
pub enum VectorError {
    /// A component of the exact result lies outside the range of `i64`.
    Overflow,
    /// A vector that has to be normalised has norm exactly zero.
    DegenerateVector,
}

} // verus!
