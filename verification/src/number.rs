//! The numeric abstraction layer: what an input element must provide, and
//! what a floating accumulator must provide.
//!
//! The computations in this crate are written against these two traits only,
//! so the same formulas run over any input representation and any accumulator
//! precision. Each accumulator operation is specified by an abstract spec
//! function of the implementing type: an implementation chooses the meaning
//! (for example IEEE arithmetic of its precision), and the executable method
//! must return exactly that value. Contracts downstream then pin every result
//! to a closed expression over these abstract operations.

use vstd::prelude::*;

verus! {

/// An input numeric element.
///
/// The computations require nothing of an input value except that the chosen
/// accumulator type can be constructed from it; that conversion is supplied by
/// [`Float::from_number`].
pub trait Number: Sized + Copy {
}

/// A floating accumulator over inputs of type `T`: arithmetic, integer power,
/// square root, a multiplicative identity, sum-reduction over a sequence, and
/// construction from an input value or from a length.
///
/// Every executable operation returns exactly the value of its abstract spec
/// counterpart, so two calls on equal arguments return equal results. Nothing
/// further is assumed of the arithmetic except that multiplication commutes,
/// which every implementation must prove of its `mul_spec`.
pub trait Float<T: Number>: Sized + Copy {
    /// The value of `self + other` in this representation.
    spec fn add_spec(self, other: Self) -> Self;

    /// The value of `self - other` in this representation.
    spec fn sub_spec(self, other: Self) -> Self;

    /// The value of `self * other` in this representation.
    spec fn mul_spec(self, other: Self) -> Self;

    /// The value of `self / other` in this representation. For a zero
    /// divisor this is the representation's division-by-zero sentinel,
    /// not a panic.
    spec fn div_spec(self, other: Self) -> Self;

    /// The value of `self` raised to the integer power `n`.
    spec fn powi_spec(self, n: i32) -> Self;

    /// The square root of `self`.
    spec fn sqrt_spec(self) -> Self;

    /// The multiplicative identity of the representation.
    spec fn one_spec() -> Self;

    /// The accumulator value that an input element converts to.
    spec fn from_number_spec(n: T) -> Self;

    /// The accumulator value that a length (element count) converts to.
    spec fn from_count_spec(n: nat) -> Self;

    /// The sum-reduction of a sequence of accumulator values.
    spec fn sum_spec(s: Seq<Self>) -> Self;

    fn add(self, other: Self) -> (r: Self)
        ensures
            r == self.add_spec(other),
    ;

    fn sub(self, other: Self) -> (r: Self)
        ensures
            r == self.sub_spec(other),
    ;

    fn mul(self, other: Self) -> (r: Self)
        ensures
            r == self.mul_spec(other),
    ;

    fn div(self, other: Self) -> (r: Self)
        ensures
            r == self.div_spec(other),
    ;

    fn powi(self, n: i32) -> (r: Self)
        ensures
            r == self.powi_spec(n),
    ;

    fn sqrt(self) -> (r: Self)
        ensures
            r == self.sqrt_spec(),
    ;

    fn one() -> (r: Self)
        ensures
            r == Self::one_spec(),
    ;

    fn from_number(n: T) -> (r: Self)
        ensures
            r == Self::from_number_spec(n),
    ;

    fn from_count(n: usize) -> (r: Self)
        ensures
            r == Self::from_count_spec(n as nat),
    ;

    fn sum(xs: &Vec<Self>) -> (r: Self)
        ensures
            r == Self::sum_spec(xs@),
    ;

    /// Multiplication of accumulator values is commutative. Implementations
    /// must prove this of their `mul_spec`; it is what makes the Pearson
    /// distance symmetric in its two inputs.
    proof fn lemma_mul_commutative(a: Self, b: Self)
        ensures
            a.mul_spec(b) == b.mul_spec(a),
    ;
}

} // verus!
