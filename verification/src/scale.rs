//! Scaling a breadth by a plain number, with `*`, `/`, `*=` and `/=`.
//!
//! The unit is kept and the number is multiplied or divided by the scalar on
//! the right. Nothing here guards the divisor: dividing by zero is whatever
//! the scalar type makes of it. A floating-point scalar gives an infinity or
//! a NaN and no error; an integer scalar does not accept a zero divisor, which
//! [`quotient_defined`] then says.

use vstd::prelude::*;
use core::ops::Div;
use core::ops::DivAssign;
use core::ops::Mul;
use core::ops::MulAssign;
use vstd::std_specs::ops::DivSpec;
use vstd::std_specs::ops::DivSpecImpl;
use vstd::std_specs::ops::MulSpec;
use vstd::std_specs::ops::MulSpecImpl;
use crate::breadth::Breadth;
use crate::scalar::is_product;
use crate::scalar::is_quotient;
use crate::scalar::product_defined;
use crate::scalar::quotient_defined;

verus! {

impl<T: Copy + Mul<Output = T>> MulSpecImpl<T> for Breadth<T> {
    /// The product is a function of the operands where the scalar's is.
    open spec fn obeys_mul_spec() -> bool {
        T::obeys_mul_spec()
    }

    open spec fn mul_req(self, rhs: T) -> bool {
        product_defined(self.value(), rhs)
    }

    open spec fn mul_spec(self, rhs: T) -> Breadth<T> {
        self.with_value(self.value().mul_spec(rhs))
    }
}

impl<T: Copy + Mul<Output = T>> Mul<T> for Breadth<T> {
    type Output = Breadth<T>;

    /// Multiplies the number by `rhs` and keeps the unit.
    fn mul(self, rhs: T) -> (out: Breadth<T>)
        ensures
            out.same_variant(self),
            is_product(self.value(), rhs, out.value()),
    {
        match self {
            Breadth::Px(value) => Breadth::Px(value * rhs),
            Breadth::Percent(value) => Breadth::Percent(value * rhs),
        }
    }
}

impl<T: Copy + Mul<Output = T>> MulAssign<T> for Breadth<T> {
    /// Multiplies the number by `rhs` in place and keeps the unit.
    fn mul_assign(&mut self, rhs: T)
        requires
            product_defined(old(self).value(), rhs),
        ensures
            final(self).same_variant(*old(self)),
            is_product(old(self).value(), rhs, final(self).value()),
    {
        match *self {
            Breadth::Px(value) => {
                *self = Breadth::Px(value * rhs);
            },
            Breadth::Percent(value) => {
                *self = Breadth::Percent(value * rhs);
            },
        }
    }
}

impl<T: Copy + Div<Output = T>> DivSpecImpl<T> for Breadth<T> {
    /// The quotient is a function of the operands where the scalar's is.
    open spec fn obeys_div_spec() -> bool {
        T::obeys_div_spec()
    }

    open spec fn div_req(self, rhs: T) -> bool {
        quotient_defined(self.value(), rhs)
    }

    open spec fn div_spec(self, rhs: T) -> Breadth<T> {
        self.with_value(self.value().div_spec(rhs))
    }
}

impl<T: Copy + Div<Output = T>> Div<T> for Breadth<T> {
    type Output = Breadth<T>;

    /// Divides the number by `rhs` and keeps the unit.
    fn div(self, rhs: T) -> (out: Breadth<T>)
        ensures
            out.same_variant(self),
            is_quotient(self.value(), rhs, out.value()),
    {
        match self {
            Breadth::Px(value) => Breadth::Px(value / rhs),
            Breadth::Percent(value) => Breadth::Percent(value / rhs),
        }
    }
}

impl<T: Copy + Div<Output = T>> DivAssign<T> for Breadth<T> {
    /// Divides the number by `rhs` in place and keeps the unit.
    fn div_assign(&mut self, rhs: T)
        requires
            quotient_defined(old(self).value(), rhs),
        ensures
            final(self).same_variant(*old(self)),
            is_quotient(old(self).value(), rhs, final(self).value()),
    {
        match *self {
            Breadth::Px(value) => {
                *self = Breadth::Px(value / rhs);
            },
            Breadth::Percent(value) => {
                *self = Breadth::Percent(value / rhs);
            },
        }
    }
}

} // verus!
