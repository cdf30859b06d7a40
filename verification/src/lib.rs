//! Vector algebra over integer components, exact or not at all: sums,
//! differences and scalar multiples of vectors of any dimensions, the dot
//! product, the cross product in three dimensions, frames of mutually
//! orthogonal directions, and vectors as text.
//!
//! Every operation returns the true mathematical value, as [`model`] states
//! it, or the error that says why it cannot.

pub mod error;
mod exact;
pub mod laws;
pub mod metric;
pub mod model;
pub mod spatial;
pub mod text;
pub mod vector;

pub use error::VectorError;
pub use vector::Vector;
