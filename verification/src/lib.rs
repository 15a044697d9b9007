//! Statistical distance measures between numeric vectors, generic over the
//! input number representation and the floating accumulator representation.

pub mod number;
pub mod vectors;

pub use number::Number;
