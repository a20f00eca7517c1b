//! The number type that a measured value is made of.
use vstd::prelude::*;

verus! {

/// A number type with the arithmetic and elementary functions that
/// uncertainty propagation needs.
///
/// Each operation is stated only as a function of its arguments: the same
/// arguments give the same result. Which number an operation yields, and how
/// it rounds or which special values it produces (an infinity, a NaN), is
/// left to the implementation.
pub trait Scalar: Copy {
    spec fn plus_spec(a: Self, b: Self) -> Self;

    spec fn minus_spec(a: Self, b: Self) -> Self;

    spec fn times_spec(a: Self, b: Self) -> Self;

    spec fn divide_spec(a: Self, b: Self) -> Self;

    /// The square root.
    spec fn root_spec(a: Self) -> Self;

    /// The absolute value.
    spec fn abs_spec(a: Self) -> Self;

    spec fn sin_spec(a: Self) -> Self;

    spec fn cos_spec(a: Self) -> Self;

    /// The natural logarithm.
    spec fn ln_spec(a: Self) -> Self;

    /// The logarithm of `a` in base `base`.
    spec fn log_spec(a: Self, base: Self) -> Self;

    /// `a` raised to the power `p`.
    spec fn powf_spec(a: Self, p: Self) -> Self;

    /// `e` raised to the power `a`.
    spec fn exp_spec(a: Self) -> Self;

    spec fn one_spec() -> Self;

    /// Euler's number.
    spec fn euler_spec() -> Self;

    spec fn ten_spec() -> Self;

    fn plus(a: Self, b: Self) -> (r: Self)
        ensures
            r == Self::plus_spec(a, b),
    ;

    fn minus(a: Self, b: Self) -> (r: Self)
        ensures
            r == Self::minus_spec(a, b),
    ;

    fn times(a: Self, b: Self) -> (r: Self)
        ensures
            r == Self::times_spec(a, b),
    ;

    fn divide(a: Self, b: Self) -> (r: Self)
        ensures
            r == Self::divide_spec(a, b),
    ;

    fn root(a: Self) -> (r: Self)
        ensures
            r == Self::root_spec(a),
    ;

    fn abs(a: Self) -> (r: Self)
        ensures
            r == Self::abs_spec(a),
    ;

    fn sin(a: Self) -> (r: Self)
        ensures
            r == Self::sin_spec(a),
    ;

    fn cos(a: Self) -> (r: Self)
        ensures
            r == Self::cos_spec(a),
    ;

    fn ln(a: Self) -> (r: Self)
        ensures
            r == Self::ln_spec(a),
    ;

    fn log(a: Self, base: Self) -> (r: Self)
        ensures
            r == Self::log_spec(a, base),
    ;

    fn powf(a: Self, p: Self) -> (r: Self)
        ensures
            r == Self::powf_spec(a, p),
    ;

    fn exp(a: Self) -> (r: Self)
        ensures
            r == Self::exp_spec(a),
    ;

    fn one() -> (r: Self)
        ensures
            r == Self::one_spec(),
    ;

    fn euler() -> (r: Self)
        ensures
            r == Self::euler_spec(),
    ;

    fn ten() -> (r: Self)
        ensures
            r == Self::ten_spec(),
    ;
}

} // verus!
