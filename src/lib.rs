use vstd::prelude::*;

/// The numeric types that vectors and matrices hold.
pub mod scalar;
/// Vectors of one to four components, and conversions between them.
pub mod vector;
mod vector1;
mod vector2;
mod vector3;
mod vector4;
/// Walking the components of a vector.
pub mod vector_iterator;
/// Square matrices of three and four rows.
pub mod matrix;
mod matrix3;
mod matrix4;
/// Coordinate axes.
pub mod coords;
/// Padding text with spaces.
pub mod utils;
/// Algebraic facts about the operations.
pub mod laws;
/// The text layout of a matrix.
pub mod display;

verus! {

/// The error of an element access whose index lies outside the value.
#[derive(Debug, Clone, Copy, PartialEq, Eq)]
pub struct OutOfRange;

} // verus!
