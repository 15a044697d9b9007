//! Statistical distances between vectors.
//!
//! All four computations are population statistics (denominator `n`, not
//! `n - 1`), written once against the numeric abstraction layer and therefore
//! usable with any input representation and any accumulator precision. Each
//! executable function returns exactly the value of its spec counterpart,
//! which spells the formula out over the accumulator's abstract operations.

use vstd::prelude::*;

use crate::number::Float;
use crate::number::Number;

verus! {

/// The elements of `xs`, each converted into the accumulator type, in order.
pub open spec fn converted_seq<T: Number, U: Float<T>>(xs: Seq<T>) -> Seq<U> {
    Seq::new(xs.len(), |i: int| U::from_number_spec(xs[i]))
}

/// The arithmetic mean of `xs`: the sum of the converted elements, divided by
/// the accumulator value of the length. An empty sequence divides by the
/// accumulator value of zero, which yields the representation's
/// division-by-zero sentinel rather than an error.
pub open spec fn mean_spec<T: Number, U: Float<T>>(xs: Seq<T>) -> U {
    U::sum_spec(converted_seq::<T, U>(xs)).div_spec(U::from_count_spec(xs.len()))
}

/// Computes the mean of a slice of numbers.
pub fn mean<T: Number, U: Float<T>>(xs: &[T]) -> (r: U)
    ensures
        r == mean_spec::<T, U>(xs@),
{
    let mut terms: Vec<U> = Vec::new();
    let mut i: usize = 0;
    while i < xs.len()
        invariant
            i <= xs@.len(),
            terms@ == converted_seq::<T, U>(xs@).take(i as int),
        decreases xs@.len() - i,
    {
        terms.push(U::from_number(xs[i]));
        proof {
            assert(terms@ =~= converted_seq::<T, U>(xs@).take(i as int + 1));
        }
        i = i + 1;
    }
    proof {
        assert(terms@ =~= converted_seq::<T, U>(xs@));
    }
    U::sum(&terms).div(U::from_count(xs.len()))
}

/// The squared deviation of each element of `xs` from the mean of `xs`,
/// in order.
pub open spec fn squared_deviations<T: Number, U: Float<T>>(xs: Seq<T>) -> Seq<U> {
    Seq::new(
        xs.len(),
        |i: int| U::from_number_spec(xs[i]).sub_spec(mean_spec::<T, U>(xs)).powi_spec(2),
    )
}

/// The population standard deviation of `xs`: the square root of the mean of
/// the squared deviations. A constant sequence has every deviation equal to
/// zero; an empty sequence divides by the accumulator value of zero, as in
/// `mean_spec`.
pub open spec fn std_dev_spec<T: Number, U: Float<T>>(xs: Seq<T>) -> U {
    U::sum_spec(squared_deviations::<T, U>(xs)).div_spec(
        U::from_count_spec(xs.len()),
    ).sqrt_spec()
}

/// Computes the standard deviation of a slice of numbers.
///
/// This computes the population standard deviation, not the sample standard
/// deviation.
pub fn std_dev<T: Number, U: Float<T>>(xs: &[T]) -> (r: U)
    ensures
        r == std_dev_spec::<T, U>(xs@),
{
    let xs_mean: U = mean(xs);
    let mut terms: Vec<U> = Vec::new();
    let mut i: usize = 0;
    while i < xs.len()
        invariant
            i <= xs@.len(),
            xs_mean == mean_spec::<T, U>(xs@),
            terms@ == squared_deviations::<T, U>(xs@).take(i as int),
        decreases xs@.len() - i,
    {
        terms.push(U::from_number(xs[i]).sub(xs_mean).powi(2));
        proof {
            assert(terms@ =~= squared_deviations::<T, U>(xs@).take(i as int + 1));
        }
        i = i + 1;
    }
    proof {
        assert(terms@ =~= squared_deviations::<T, U>(xs@));
    }
    U::sum(&terms).div(U::from_count(xs.len())).sqrt()
}

/// The index-aligned products of deviations: for each position `i` below the
/// length of the shorter sequence, the deviation of `x[i]` from the mean of
/// `x` times the deviation of `y[i]` from the mean of `y`. Pairing stops
/// silently at the shorter length; both means still range over their whole
/// sequence.
pub open spec fn deviation_products<T: Number, U: Float<T>>(x: Seq<T>, y: Seq<T>) -> Seq<U> {
    Seq::new(
        if x.len() <= y.len() {
            x.len()
        } else {
            y.len()
        },
        |i: int|
            U::from_number_spec(x[i]).sub_spec(mean_spec::<T, U>(x)).mul_spec(
                U::from_number_spec(y[i]).sub_spec(mean_spec::<T, U>(y)),
            ),
    )
}

/// The population covariance of `x` and `y`: the sum of the index-aligned
/// deviation products, divided by the accumulator value of the length of `x`.
/// No length check is made: sequences of unequal length are paired up to the
/// shorter one, and the divisor stays the length of `x`.
pub open spec fn covariance_spec<T: Number, U: Float<T>>(x: Seq<T>, y: Seq<T>) -> U {
    U::sum_spec(deviation_products::<T, U>(x, y)).div_spec(U::from_count_spec(x.len()))
}

/// Computes the covariance between two slices of numbers.
///
/// This computes the population covariance, not the sample covariance.
pub fn covariance<T: Number, U: Float<T>>(x: &[T], y: &[T]) -> (r: U)
    ensures
        r == covariance_spec::<T, U>(x@, y@),
{
    let x_mean: U = mean(x);
    let y_mean: U = mean(y);
    let n: usize = if x.len() <= y.len() {
        x.len()
    } else {
        y.len()
    };
    let mut terms: Vec<U> = Vec::new();
    let mut i: usize = 0;
    while i < n
        invariant
            i <= n,
            n as nat == deviation_products::<T, U>(x@, y@).len(),
            x_mean == mean_spec::<T, U>(x@),
            y_mean == mean_spec::<T, U>(y@),
            terms@ == deviation_products::<T, U>(x@, y@).take(i as int),
        decreases n - i,
    {
        terms.push(U::from_number(x[i]).sub(x_mean).mul(U::from_number(y[i]).sub(y_mean)));
        proof {
            assert(terms@ =~= deviation_products::<T, U>(x@, y@).take(i as int + 1));
        }
        i = i + 1;
    }
    proof {
        assert(terms@ =~= deviation_products::<T, U>(x@, y@));
    }
    U::sum(&terms).div(U::from_count(x.len()))
}

/// The Pearson distance between `x` and `y`: one minus the Pearson
/// correlation coefficient, which is their covariance divided by the product
/// of their standard deviations. If either sequence has zero variance the
/// divisor is zero and the result is the representation's division-by-zero
/// sentinel.
pub open spec fn pearson_spec<T: Number, U: Float<T>>(x: Seq<T>, y: Seq<T>) -> U {
    U::one_spec().sub_spec(
        covariance_spec::<T, U>(x, y).div_spec(
            std_dev_spec::<T, U>(x).mul_spec(std_dev_spec::<T, U>(y)),
        ),
    )
}

/// Computes the Pearson distance between two vectors.
///
/// The Pearson distance is defined as `1.0 - r` where `r` is the Pearson
/// correlation coefficient.
///
/// The Pearson correlation coefficient is defined as the covariance between
/// the two vectors divided by the product of their standard deviations.
pub fn pearson<T: Number, U: Float<T>>(x: &[T], y: &[T]) -> (r: U)
    ensures
        r == pearson_spec::<T, U>(x@, y@),
{
    let c: U = covariance(x, y);
    let std_dev_x: U = std_dev(x);
    let std_dev_y: U = std_dev(y);
    let coefficient: U = c.div(std_dev_x.mul(std_dev_y));
    U::one().sub(coefficient)
}

/// Law: the Pearson distance is symmetric. For equal-length sequences,
/// swapping the two inputs leaves the result unchanged, because each
/// deviation product and the product of the two standard deviations only
/// commute a multiplication, and the covariance divisor is the (shared)
/// length.
pub proof fn lemma_pearson_symmetric<T: Number, U: Float<T>>(x: Seq<T>, y: Seq<T>)
    requires
        x.len() == y.len(),
    ensures
        pearson_spec::<T, U>(x, y) == pearson_spec::<T, U>(y, x),
{
    assert forall|i: int|
        0 <= i < deviation_products::<T, U>(x, y).len() implies deviation_products::<T, U>(
        x,
        y,
    )[i] == deviation_products::<T, U>(y, x)[i] by {
        U::lemma_mul_commutative(
            U::from_number_spec(x[i]).sub_spec(mean_spec::<T, U>(x)),
            U::from_number_spec(y[i]).sub_spec(mean_spec::<T, U>(y)),
        );
    }
    assert(deviation_products::<T, U>(x, y) =~= deviation_products::<T, U>(y, x));
    U::lemma_mul_commutative(std_dev_spec::<T, U>(x), std_dev_spec::<T, U>(y));
}

} // verus!

