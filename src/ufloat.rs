//! A measured value and first-order propagation of its uncertainty.
use vstd::prelude::*;

use crate::scalar::Scalar;

verus! {

/// A nominal value `n` with its standard uncertainty `s`. Neither is
/// validated: an uncertainty below zero, or a special value of the number
/// type, is kept as given.
#[derive(Debug, Default)]
pub struct UFloat<T> {
    pub n: T,
    pub s: T,
}

/// `a` squared.
pub open spec fn square<T: Scalar>(a: T) -> T {
    T::times_spec(a, a)
}

/// Two independent uncertainties combined in quadrature: `√(s1² + s2²)`.
pub open spec fn quadrature<T: Scalar>(s1: T, s2: T) -> T {
    T::root_spec(T::plus_spec(square(s1), square(s2)))
}

/// The fractional uncertainty `s / n`.
pub open spec fn fractional<T: Scalar>(x: UFloat<T>) -> T {
    T::divide_spec(x.s, x.n)
}

/// The uncertainty of a product or quotient whose nominal value is `n`:
/// `n · √((s1/n1)² + (s2/n2)²)`.
pub open spec fn relative_quadrature<T: Scalar>(n: T, a: UFloat<T>, b: UFloat<T>) -> T {
    T::times_spec(n, T::root_spec(T::plus_spec(square(fractional(a)), square(fractional(b)))))
}

pub open spec fn sum<T: Scalar>(a: UFloat<T>, b: UFloat<T>) -> UFloat<T> {
    UFloat { n: T::plus_spec(a.n, b.n), s: quadrature(a.s, b.s) }
}

pub open spec fn difference<T: Scalar>(a: UFloat<T>, b: UFloat<T>) -> UFloat<T> {
    UFloat { n: T::minus_spec(a.n, b.n), s: quadrature(a.s, b.s) }
}

pub open spec fn product<T: Scalar>(a: UFloat<T>, b: UFloat<T>) -> UFloat<T> {
    let n = T::times_spec(a.n, b.n);
    UFloat { n, s: relative_quadrature(n, a, b) }
}

pub open spec fn quotient<T: Scalar>(a: UFloat<T>, b: UFloat<T>) -> UFloat<T> {
    let n = T::divide_spec(a.n, b.n);
    UFloat { n, s: relative_quadrature(n, a, b) }
}

/// `sin(n) ± |cos(n) · s|`.
pub open spec fn sine<T: Scalar>(x: UFloat<T>) -> UFloat<T> {
    UFloat { n: T::sin_spec(x.n), s: T::abs_spec(T::times_spec(T::cos_spec(x.n), x.s)) }
}

/// `cos(n) ± |sin(n) · s|`.
pub open spec fn cosine<T: Scalar>(x: UFloat<T>) -> UFloat<T> {
    UFloat { n: T::cos_spec(x.n), s: T::abs_spec(T::times_spec(T::sin_spec(x.n), x.s)) }
}

/// `log_base(n) ± s / (n · ln(base))`.
pub open spec fn logarithm<T: Scalar>(x: UFloat<T>, base: T) -> UFloat<T> {
    UFloat {
        n: T::log_spec(x.n, base),
        s: T::divide_spec(x.s, T::times_spec(x.n, T::ln_spec(base))),
    }
}

/// `n^p ± |p · n^(p−1) · s|`.
pub open spec fn raised<T: Scalar>(x: UFloat<T>, p: T) -> UFloat<T> {
    UFloat {
        n: T::powf_spec(x.n, p),
        s: T::abs_spec(
            T::times_spec(T::times_spec(p, T::powf_spec(x.n, T::minus_spec(p, T::one_spec()))), x.s),
        ),
    }
}

/// `e^n ± e^n · s`.
pub open spec fn exponential<T: Scalar>(x: UFloat<T>) -> UFloat<T> {
    UFloat { n: T::exp_spec(x.n), s: T::times_spec(T::exp_spec(x.n), x.s) }
}

/// A sum and a difference of the same operands have the same uncertainty,
/// though their nominal values differ.
pub proof fn sum_and_difference_share_uncertainty<T: Scalar>(a: UFloat<T>, b: UFloat<T>)
    ensures
        sum(a, b).s == difference(a, b).s,
        sum(a, b).s == quadrature(a.s, b.s),
{
}

/// Adds two measured values with independent uncertainties.
pub fn add<T: Scalar>(a: &UFloat<T>, b: &UFloat<T>) -> (r: UFloat<T>)
    ensures
        r == sum(*a, *b),
{
    UFloat { n: T::plus(a.n, b.n), s: combine(a.s, b.s) }
}

/// Subtracts two measured values with independent uncertainties.
pub fn subtract<T: Scalar>(a: &UFloat<T>, b: &UFloat<T>) -> (r: UFloat<T>)
    ensures
        r == difference(*a, *b),
{
    UFloat { n: T::minus(a.n, b.n), s: combine(a.s, b.s) }
}

/// Multiplies two measured values with independent uncertainties.
pub fn multiply<T: Scalar>(a: &UFloat<T>, b: &UFloat<T>) -> (r: UFloat<T>)
    ensures
        r == product(*a, *b),
{
    let n = T::times(a.n, b.n);
    UFloat { n, s: combine_relative(n, a, b) }
}

/// Divides two measured values with independent uncertainties.
pub fn divide<T: Scalar>(a: &UFloat<T>, b: &UFloat<T>) -> (r: UFloat<T>)
    ensures
        r == quotient(*a, *b),
{
    let n = T::divide(a.n, b.n);
    UFloat { n, s: combine_relative(n, a, b) }
}

fn combine<T: Scalar>(s1: T, s2: T) -> (r: T)
    ensures
        r == quadrature(s1, s2),
{
    T::root(T::plus(T::times(s1, s1), T::times(s2, s2)))
}

fn combine_relative<T: Scalar>(n: T, a: &UFloat<T>, b: &UFloat<T>) -> (r: T)
    ensures
        r == relative_quadrature(n, *a, *b),
{
    let fa = a.fractional_err();
    let fb = b.fractional_err();
    T::times(n, T::root(T::plus(T::times(fa, fa), T::times(fb, fb))))
}

impl<T: Scalar> UFloat<T> {
    pub fn new(n: T, s: T) -> (r: Self)
        ensures
            r.n == n,
            r.s == s,
    {
        UFloat { n, s }
    }

    pub(crate) fn fractional_err(&self) -> (r: T)
        ensures
            r == fractional(*self),
    {
        T::divide(self.s, self.n)
    }

    pub fn sin(&self) -> (r: Self)
        ensures
            r == sine(*self),
    {
        let n = T::sin(self.n);
        let s = T::abs(T::times(T::cos(self.n), self.s));
        UFloat::new(n, s)
    }

    pub fn cos(&self) -> (r: Self)
        ensures
            r == cosine(*self),
    {
        let n = T::cos(self.n);
        let s = T::abs(T::times(T::sin(self.n), self.s));
        UFloat::new(n, s)
    }

    pub fn log(&self, base: T) -> (r: Self)
        ensures
            r == logarithm(*self, base),
    {
        let n = T::log(self.n, base);
        let s = T::divide(self.s, T::times(self.n, T::ln(base)));
        UFloat::new(n, s)
    }

    /// The natural logarithm: the logarithm in base `e`.
    pub fn ln(&self) -> (r: Self)
        ensures
            r == logarithm(*self, T::euler_spec()),
    {
        self.log(T::euler())
    }

    pub fn log10(&self) -> (r: Self)
        ensures
            r == logarithm(*self, T::ten_spec()),
    {
        self.log(T::ten())
    }

    pub fn powf(&self, power: T) -> (r: Self)
        ensures
            r == raised(*self, power),
    {
        let n = T::powf(self.n, power);
        let d = T::times(T::times(power, T::powf(self.n, T::minus(power, T::one()))), self.s);
        UFloat::new(n, T::abs(d))
    }

    pub fn exp(&self) -> (r: Self)
        ensures
            r == exponential(*self),
    {
        let n = T::exp(self.n);
        UFloat::new(n, T::times(n, self.s))
    }
}

} // verus!
