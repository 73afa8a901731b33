use vstd::prelude::*;

verus! {

/// The arithmetic that models and cost functions are computed in.
///
/// Each operation is a function of its operands, named by a spec function of
/// the trait. The library fixes which operations are applied and in what
/// order; its contracts state its results as expressions over these names,
/// whatever the number type makes of them. An implementation compiled
/// without Verus defines each spec function as the same computation as the
/// operation that returns it.
pub trait Scalar: Sized {
    spec fn spec_zero() -> Self;

    spec fn spec_from_count(n: usize) -> Self;

    spec fn spec_plus(a: Self, b: Self) -> Self;

    spec fn spec_minus(a: Self, b: Self) -> Self;

    spec fn spec_times(a: Self, b: Self) -> Self;

    spec fn spec_divided_by(a: Self, b: Self) -> Self;

    spec fn spec_is_positive(a: Self) -> bool;

    /// The additive identity that sums start from.
    fn zero() -> (r: Self)
        ensures
            r == Self::spec_zero(),
    ;

    /// The number that stands for a count of items.
    fn from_count(n: usize) -> (r: Self)
        ensures
            r == Self::spec_from_count(n),
    ;

    fn plus(&self, other: &Self) -> (r: Self)
        ensures
            r == Self::spec_plus(*self, *other),
    ;

    fn minus(&self, other: &Self) -> (r: Self)
        ensures
            r == Self::spec_minus(*self, *other),
    ;

    fn times(&self, other: &Self) -> (r: Self)
        ensures
            r == Self::spec_times(*self, *other),
    ;

    fn divided_by(&self, other: &Self) -> (r: Self)
        ensures
            r == Self::spec_divided_by(*self, *other),
    ;

    /// Whether the number is greater than zero (and, for a number type with
    /// infinities, finite).
    fn is_positive(&self) -> (r: bool)
        ensures
            r == Self::spec_is_positive(*self),
    ;
}

/// A source of random numbers of type `S`, drawn one at a time.
///
/// A draw is a function of the source's state and the deviation asked for,
/// named by `spec_draw`: it gives the next state and the value drawn. A
/// pseudo-random generator in a given state draws the same values each time.
pub trait Sampler<S>: Sized {
    /// The state after one draw from `source` with `std_dev`, and the value
    /// drawn.
    spec fn spec_draw(source: Self, std_dev: S) -> (Self, S);

    /// A draw from the normal distribution with mean zero and standard
    /// deviation `std_dev`.
    fn draw(&mut self, std_dev: &S) -> (r: S)
        ensures
            (*final(self), r) == Self::spec_draw(*old(self), *std_dev),
    ;
}

} // verus!
