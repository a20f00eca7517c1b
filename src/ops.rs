//! The operators `+ - * /` on measured values. Each takes its operands by
//! value or by reference, in any combination, and gives the same value as
//! the function it stands for in the `ufloat` module.
use vstd::prelude::*;

use vstd::std_specs::ops::{AddSpec, DivSpec, MulSpec, SubSpec};

use crate::scalar::Scalar;
use crate::ufloat::{self, UFloat, difference, product, quotient, sum};

verus! {

impl<T: Scalar> core::ops::Add for UFloat<T> {
    type Output = UFloat<T>;

    fn add(self, other: UFloat<T>) -> UFloat<T> {
        ufloat::add(&self, &other)
    }
}

impl<T: Scalar> vstd::std_specs::ops::AddSpecImpl for UFloat<T> {
    open spec fn obeys_add_spec() -> bool {
        true
    }

    open spec fn add_req(self, other: UFloat<T>) -> bool {
        true
    }

    open spec fn add_spec(self, other: UFloat<T>) -> UFloat<T> {
        sum(self, other)
    }
}

impl<'a, T: Scalar> core::ops::Add for &'a UFloat<T> {
    type Output = UFloat<T>;

    fn add(self, other: &'a UFloat<T>) -> UFloat<T> {
        ufloat::add(self, other)
    }
}

impl<'a, T: Scalar> vstd::std_specs::ops::AddSpecImpl for &'a UFloat<T> {
    open spec fn obeys_add_spec() -> bool {
        true
    }

    open spec fn add_req(self, other: &'a UFloat<T>) -> bool {
        true
    }

    open spec fn add_spec(self, other: &'a UFloat<T>) -> UFloat<T> {
        sum(*self, *other)
    }
}

impl<'a, T: Scalar> core::ops::Add<UFloat<T>> for &'a UFloat<T> {
    type Output = UFloat<T>;

    fn add(self, other: UFloat<T>) -> UFloat<T> {
        ufloat::add(self, &other)
    }
}

impl<'a, T: Scalar> vstd::std_specs::ops::AddSpecImpl<UFloat<T>> for &'a UFloat<T> {
    open spec fn obeys_add_spec() -> bool {
        true
    }

    open spec fn add_req(self, other: UFloat<T>) -> bool {
        true
    }

    open spec fn add_spec(self, other: UFloat<T>) -> UFloat<T> {
        sum(*self, other)
    }
}

impl<'a, T: Scalar> core::ops::Add<&'a UFloat<T>> for UFloat<T> {
    type Output = UFloat<T>;

    fn add(self, other: &'a UFloat<T>) -> UFloat<T> {
        ufloat::add(&self, other)
    }
}

impl<'a, T: Scalar> vstd::std_specs::ops::AddSpecImpl<&'a UFloat<T>> for UFloat<T> {
    open spec fn obeys_add_spec() -> bool {
        true
    }

    open spec fn add_req(self, other: &'a UFloat<T>) -> bool {
        true
    }

    open spec fn add_spec(self, other: &'a UFloat<T>) -> UFloat<T> {
        sum(self, *other)
    }
}

impl<T: Scalar> core::ops::Sub for UFloat<T> {
    type Output = UFloat<T>;

    fn sub(self, other: UFloat<T>) -> UFloat<T> {
        ufloat::subtract(&self, &other)
    }
}

impl<T: Scalar> vstd::std_specs::ops::SubSpecImpl for UFloat<T> {
    open spec fn obeys_sub_spec() -> bool {
        true
    }

    open spec fn sub_req(self, other: UFloat<T>) -> bool {
        true
    }

    open spec fn sub_spec(self, other: UFloat<T>) -> UFloat<T> {
        difference(self, other)
    }
}

impl<'a, T: Scalar> core::ops::Sub for &'a UFloat<T> {
    type Output = UFloat<T>;

    fn sub(self, other: &'a UFloat<T>) -> UFloat<T> {
        ufloat::subtract(self, other)
    }
}

impl<'a, T: Scalar> vstd::std_specs::ops::SubSpecImpl for &'a UFloat<T> {
    open spec fn obeys_sub_spec() -> bool {
        true
    }

    open spec fn sub_req(self, other: &'a UFloat<T>) -> bool {
        true
    }

    open spec fn sub_spec(self, other: &'a UFloat<T>) -> UFloat<T> {
        difference(*self, *other)
    }
}

impl<'a, T: Scalar> core::ops::Sub<UFloat<T>> for &'a UFloat<T> {
    type Output = UFloat<T>;

    fn sub(self, other: UFloat<T>) -> UFloat<T> {
        ufloat::subtract(self, &other)
    }
}

impl<'a, T: Scalar> vstd::std_specs::ops::SubSpecImpl<UFloat<T>> for &'a UFloat<T> {
    open spec fn obeys_sub_spec() -> bool {
        true
    }

    open spec fn sub_req(self, other: UFloat<T>) -> bool {
        true
    }

    open spec fn sub_spec(self, other: UFloat<T>) -> UFloat<T> {
        difference(*self, other)
    }
}

impl<'a, T: Scalar> core::ops::Sub<&'a UFloat<T>> for UFloat<T> {
    type Output = UFloat<T>;

    fn sub(self, other: &'a UFloat<T>) -> UFloat<T> {
        ufloat::subtract(&self, other)
    }
}

impl<'a, T: Scalar> vstd::std_specs::ops::SubSpecImpl<&'a UFloat<T>> for UFloat<T> {
    open spec fn obeys_sub_spec() -> bool {
        true
    }

    open spec fn sub_req(self, other: &'a UFloat<T>) -> bool {
        true
    }

    open spec fn sub_spec(self, other: &'a UFloat<T>) -> UFloat<T> {
        difference(self, *other)
    }
}

impl<T: Scalar> core::ops::Mul for UFloat<T> {
    type Output = UFloat<T>;

    fn mul(self, other: UFloat<T>) -> UFloat<T> {
        ufloat::multiply(&self, &other)
    }
}

impl<T: Scalar> vstd::std_specs::ops::MulSpecImpl for UFloat<T> {
    open spec fn obeys_mul_spec() -> bool {
        true
    }

    open spec fn mul_req(self, other: UFloat<T>) -> bool {
        true
    }

    open spec fn mul_spec(self, other: UFloat<T>) -> UFloat<T> {
        product(self, other)
    }
}

impl<'a, T: Scalar> core::ops::Mul for &'a UFloat<T> {
    type Output = UFloat<T>;

    fn mul(self, other: &'a UFloat<T>) -> UFloat<T> {
        ufloat::multiply(self, other)
    }
}

impl<'a, T: Scalar> vstd::std_specs::ops::MulSpecImpl for &'a UFloat<T> {
    open spec fn obeys_mul_spec() -> bool {
        true
    }

    open spec fn mul_req(self, other: &'a UFloat<T>) -> bool {
        true
    }

    open spec fn mul_spec(self, other: &'a UFloat<T>) -> UFloat<T> {
        product(*self, *other)
    }
}

impl<'a, T: Scalar> core::ops::Mul<UFloat<T>> for &'a UFloat<T> {
    type Output = UFloat<T>;

    fn mul(self, other: UFloat<T>) -> UFloat<T> {
        ufloat::multiply(self, &other)
    }
}

impl<'a, T: Scalar> vstd::std_specs::ops::MulSpecImpl<UFloat<T>> for &'a UFloat<T> {
    open spec fn obeys_mul_spec() -> bool {
        true
    }

    open spec fn mul_req(self, other: UFloat<T>) -> bool {
        true
    }

    open spec fn mul_spec(self, other: UFloat<T>) -> UFloat<T> {
        product(*self, other)
    }
}

impl<'a, T: Scalar> core::ops::Mul<&'a UFloat<T>> for UFloat<T> {
    type Output = UFloat<T>;

    fn mul(self, other: &'a UFloat<T>) -> UFloat<T> {
        ufloat::multiply(&self, other)
    }
}

impl<'a, T: Scalar> vstd::std_specs::ops::MulSpecImpl<&'a UFloat<T>> for UFloat<T> {
    open spec fn obeys_mul_spec() -> bool {
        true
    }

    open spec fn mul_req(self, other: &'a UFloat<T>) -> bool {
        true
    }

    open spec fn mul_spec(self, other: &'a UFloat<T>) -> UFloat<T> {
        product(self, *other)
    }
}

impl<T: Scalar> core::ops::Div for UFloat<T> {
    type Output = UFloat<T>;

    fn div(self, other: UFloat<T>) -> UFloat<T> {
        ufloat::divide(&self, &other)
    }
}

impl<T: Scalar> vstd::std_specs::ops::DivSpecImpl for UFloat<T> {
    open spec fn obeys_div_spec() -> bool {
        true
    }

    open spec fn div_req(self, other: UFloat<T>) -> bool {
        true
    }

    open spec fn div_spec(self, other: UFloat<T>) -> UFloat<T> {
        quotient(self, other)
    }
}

impl<'a, T: Scalar> core::ops::Div for &'a UFloat<T> {
    type Output = UFloat<T>;

    fn div(self, other: &'a UFloat<T>) -> UFloat<T> {
        ufloat::divide(self, other)
    }
}

impl<'a, T: Scalar> vstd::std_specs::ops::DivSpecImpl for &'a UFloat<T> {
    open spec fn obeys_div_spec() -> bool {
        true
    }

    open spec fn div_req(self, other: &'a UFloat<T>) -> bool {
        true
    }

    open spec fn div_spec(self, other: &'a UFloat<T>) -> UFloat<T> {
        quotient(*self, *other)
    }
}

impl<'a, T: Scalar> core::ops::Div<UFloat<T>> for &'a UFloat<T> {
    type Output = UFloat<T>;

    fn div(self, other: UFloat<T>) -> UFloat<T> {
        ufloat::divide(self, &other)
    }
}

impl<'a, T: Scalar> vstd::std_specs::ops::DivSpecImpl<UFloat<T>> for &'a UFloat<T> {
    open spec fn obeys_div_spec() -> bool {
        true
    }

    open spec fn div_req(self, other: UFloat<T>) -> bool {
        true
    }

    open spec fn div_spec(self, other: UFloat<T>) -> UFloat<T> {
        quotient(*self, other)
    }
}

impl<'a, T: Scalar> core::ops::Div<&'a UFloat<T>> for UFloat<T> {
    type Output = UFloat<T>;

    fn div(self, other: &'a UFloat<T>) -> UFloat<T> {
        ufloat::divide(&self, other)
    }
}

impl<'a, T: Scalar> vstd::std_specs::ops::DivSpecImpl<&'a UFloat<T>> for UFloat<T> {
    open spec fn obeys_div_spec() -> bool {
        true
    }

    open spec fn div_req(self, other: &'a UFloat<T>) -> bool {
        true
    }

    open spec fn div_spec(self, other: &'a UFloat<T>) -> UFloat<T> {
        quotient(self, *other)
    }
}

/// Each operator gives the same value whether its operands are passed by
/// value or by reference, in any of the four combinations.
pub proof fn operand_forms_agree<T: Scalar>(a: UFloat<T>, b: UFloat<T>)
    ensures
        (&a).add_spec(&b) == a.add_spec(b),
        (&a).add_spec(b) == a.add_spec(b),
        a.add_spec(&b) == a.add_spec(b),
        (&a).sub_spec(&b) == a.sub_spec(b),
        (&a).sub_spec(b) == a.sub_spec(b),
        a.sub_spec(&b) == a.sub_spec(b),
        (&a).mul_spec(&b) == a.mul_spec(b),
        (&a).mul_spec(b) == a.mul_spec(b),
        a.mul_spec(&b) == a.mul_spec(b),
        (&a).div_spec(&b) == a.div_spec(b),
        (&a).div_spec(b) == a.div_spec(b),
        a.div_spec(&b) == a.div_spec(b),
{
}

/// `a + b + c` applies the pairwise rule twice, left to right: its
/// uncertainty is that of `a + b` combined in quadrature with that of `c`.
pub proof fn chained_sum<T: Scalar>(a: UFloat<T>, b: UFloat<T>, c: UFloat<T>)
    ensures
        a.add_spec(b).add_spec(c) == sum(sum(a, b), c),
        a.add_spec(b).add_spec(c).s == ufloat::quadrature(ufloat::quadrature(a.s, b.s), c.s),
{
}

} // verus!
