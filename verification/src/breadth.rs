//! A length that always resolves to a number.

use vstd::prelude::*;
use core::ops::Add;
use core::ops::Div;
use core::ops::Mul;
use core::ops::Sub;
use crate::error::BreadthArithmeticError;
use crate::scalar::difference_defined;
use crate::scalar::is_difference;
use crate::scalar::is_hundred;
use crate::scalar::is_product;
use crate::scalar::is_quotient;
use crate::scalar::is_sum;
use crate::scalar::is_zero;
use crate::scalar::product_defined;
use crate::scalar::quotient_defined;
use crate::scalar::sum_defined;

verus! {

/// A length in a flexbox layout that has a number: so many pixels, or so many
/// percent of a reference size. Unlike [`crate::Val`] it is never automatic or
/// undefined, so resolving it always gives a number.
#[derive(Copy, Clone, PartialEq, Debug)]
pub enum Breadth<T> {
    /// A length in pixels.
    Px(T),
    /// A length in percent of a reference size.
    Percent(T),
}

impl<T> Breadth<T> {
    /// The number that the breadth carries, whatever its unit.
    pub open spec fn value(self) -> T {
        match self {
            Breadth::Px(value) => value,
            Breadth::Percent(value) => value,
        }
    }

    /// Both breadths are in pixels, or both are in percent.
    pub open spec fn same_variant(self, other: Breadth<T>) -> bool {
        (self is Px) == (other is Px)
    }

    /// The breadth with the unit of `self` and the number `value`.
    pub open spec fn with_value(self, value: T) -> Breadth<T> {
        match self {
            Breadth::Px(_) => Breadth::Px(value),
            Breadth::Percent(_) => Breadth::Percent(value),
        }
    }
}

impl<T: Default> Breadth<T> {
    /// The breadth is in pixels and its number is the scalar's zero.
    pub open spec fn is_zero_px(self) -> bool {
        self matches Breadth::Px(value) && is_zero(value)
    }
}

impl<T: Default> Default for Breadth<T> {
    /// Zero pixels.
    fn default() -> (out: Self)
        ensures
            out.is_zero_px(),
    {
        Breadth::Px(T::default())
    }
}

impl<T: Copy + Add<Output = T>> Breadth<T> {
    /// `self.try_add(rhs)` may be called: if the units agree, the two numbers
    /// can be added.
    pub open spec fn can_add(self, rhs: Breadth<T>) -> bool {
        self.same_variant(rhs) ==> sum_defined(self.value(), rhs.value())
    }

    /// `out` is what `self.try_add(rhs)` may return: with equal units the sum
    /// of the numbers in that unit, otherwise the error.
    pub open spec fn adds_to(
        self,
        rhs: Breadth<T>,
        out: Result<Breadth<T>, BreadthArithmeticError>,
    ) -> bool {
        if self.same_variant(rhs) {
            &&& out matches Ok(sum)
            &&& sum.same_variant(self)
            &&& is_sum(self.value(), rhs.value(), sum.value())
        } else {
            out == Err::<Breadth<T>, _>(BreadthArithmeticError::NonIdenticalVariants)
        }
    }

    /// Adds two breadths of the same unit.
    ///
    /// Pixels plus pixels are pixels and percent plus percent are percent;
    /// a pixel and a percent breadth do not add, in either order.
    pub fn try_add(&self, rhs: Breadth<T>) -> (out: Result<Breadth<T>, BreadthArithmeticError>)
        requires
            self.can_add(rhs),
        ensures
            out is Ok <==> self.same_variant(rhs),
            self.adds_to(rhs, out),
    {
        match (*self, rhs) {
            (Breadth::Px(value), Breadth::Px(rhs_value)) => Ok(Breadth::Px(value + rhs_value)),
            (Breadth::Percent(value), Breadth::Percent(rhs_value)) => {
                Ok(Breadth::Percent(value + rhs_value))
            },
            _ => Err(BreadthArithmeticError::NonIdenticalVariants),
        }
    }

    /// Adds `rhs` to `self` in place. When the units differ, `self` keeps its
    /// value and the error is returned.
    pub fn try_add_assign(&mut self, rhs: Breadth<T>) -> (out: Result<(), BreadthArithmeticError>)
        requires
            old(self).can_add(rhs),
        ensures
            out is Ok <==> old(self).same_variant(rhs),
            out is Ok ==> old(self).adds_to(rhs, Ok(*final(self))),
            out matches Err(e) ==> old(self).adds_to(rhs, Err(e)) && *final(self) == *old(self),
    {
        match self.try_add(rhs) {
            Ok(sum) => {
                *self = sum;
                Ok(())
            },
            Err(e) => Err(e),
        }
    }
}

impl<T: Copy + Sub<Output = T>> Breadth<T> {
    /// `self.try_sub(rhs)` may be called: if the units agree, the second
    /// number can be taken from the first.
    pub open spec fn can_sub(self, rhs: Breadth<T>) -> bool {
        self.same_variant(rhs) ==> difference_defined(self.value(), rhs.value())
    }

    /// `out` is what `self.try_sub(rhs)` may return: with equal units the
    /// difference of the numbers in that unit, otherwise the error.
    pub open spec fn subtracts_to(
        self,
        rhs: Breadth<T>,
        out: Result<Breadth<T>, BreadthArithmeticError>,
    ) -> bool {
        if self.same_variant(rhs) {
            &&& out matches Ok(difference)
            &&& difference.same_variant(self)
            &&& is_difference(self.value(), rhs.value(), difference.value())
        } else {
            out == Err::<Breadth<T>, _>(BreadthArithmeticError::NonIdenticalVariants)
        }
    }

    /// Subtracts a breadth from one of the same unit.
    ///
    /// Pixels minus pixels are pixels and percent minus percent are percent;
    /// a pixel and a percent breadth do not subtract, in either order.
    pub fn try_sub(&self, rhs: Breadth<T>) -> (out: Result<Breadth<T>, BreadthArithmeticError>)
        requires
            self.can_sub(rhs),
        ensures
            out is Ok <==> self.same_variant(rhs),
            self.subtracts_to(rhs, out),
    {
        match (*self, rhs) {
            (Breadth::Px(value), Breadth::Px(rhs_value)) => Ok(Breadth::Px(value - rhs_value)),
            (Breadth::Percent(value), Breadth::Percent(rhs_value)) => {
                Ok(Breadth::Percent(value - rhs_value))
            },
            _ => Err(BreadthArithmeticError::NonIdenticalVariants),
        }
    }

    /// Subtracts `rhs` from `self` in place. When the units differ, `self`
    /// keeps its value and the error is returned.
    pub fn try_sub_assign(&mut self, rhs: Breadth<T>) -> (out: Result<(), BreadthArithmeticError>)
        requires
            old(self).can_sub(rhs),
        ensures
            out is Ok <==> old(self).same_variant(rhs),
            out is Ok ==> old(self).subtracts_to(rhs, Ok(*final(self))),
            out matches Err(e) ==> old(self).subtracts_to(rhs, Err(e)) && *final(self) == *old(
                self,
            ),
    {
        match self.try_sub(rhs) {
            Ok(difference) => {
                *self = difference;
                Ok(())
            },
            Err(e) => Err(e),
        }
    }
}

impl<T: Copy + Mul<Output = T> + Div<Output = T> + From<u8>> Breadth<T> {
    /// `self.evaluate(size)` may be called: a pixel breadth always resolves;
    /// for a percent breadth `size * value` can be computed, and whatever it
    /// gives can be divided by one hundred.
    pub open spec fn can_evaluate(self, size: T) -> bool {
        self is Percent ==> {
            &&& product_defined(size, self.value())
            &&& forall|product: T, hundred: T|
                #![trigger is_product(size, self.value(), product), is_hundred(hundred)]
                is_product(size, self.value(), product) && is_hundred(hundred)
                    ==> quotient_defined(product, hundred)
        }
    }

    /// `out` is what `self.evaluate(size)` may return: the number itself for
    /// a pixel breadth, and `size * value / 100` for a percent breadth.
    pub open spec fn evaluates_to(self, size: T, out: T) -> bool {
        match self {
            Breadth::Px(value) => out == value,
            Breadth::Percent(value) => exists|product: T, hundred: T|
                #![trigger is_quotient(product, hundred, out)]
                {
                    &&& is_product(size, value, product)
                    &&& is_hundred(hundred)
                    &&& is_quotient(product, hundred, out)
                },
        }
    }

    /// Resolves the breadth to pixels against the reference `size`.
    ///
    /// A pixel breadth is returned as it is, whatever the reference; a
    /// percent breadth gives that share of `size`.
    pub fn evaluate(&self, size: T) -> (out: T)
        requires
            self.can_evaluate(size),
        ensures
            self is Px ==> out == self.value(),
            self.evaluates_to(size, out),
    {
        match *self {
            Breadth::Percent(value) => {
                let product = size * value;
                let hundred = T::from(100u8);
                assert(is_product(size, value, product) && is_hundred(hundred));
                let share = product / hundred;
                assert(is_quotient(product, hundred, share));
                share
            },
            Breadth::Px(value) => value,
        }
    }
}

impl<T: Copy + Add<Output = T> + Mul<Output = T> + Div<Output = T> + From<u8>> Breadth<T> {
    /// `self.add_with_size(rhs, size)` may be called: both breadths resolve
    /// against `size`, and whatever they resolve to can be added.
    pub open spec fn can_add_with_size(self, rhs: Breadth<T>, size: T) -> bool {
        &&& self.can_evaluate(size)
        &&& rhs.can_evaluate(size)
        &&& forall|left: T, right: T|
            #![trigger self.evaluates_to(size, left), rhs.evaluates_to(size, right)]
            self.evaluates_to(size, left) && rhs.evaluates_to(size, right) ==> sum_defined(
                left,
                right,
            )
    }

    /// `out` is what `self.add_with_size(rhs, size)` may return: the sum of
    /// what the two breadths resolve to against `size`.
    pub open spec fn adds_with_size_to(self, rhs: Breadth<T>, size: T, out: T) -> bool {
        exists|left: T, right: T|
            #![trigger is_sum(left, right, out)]
            {
                &&& self.evaluates_to(size, left)
                &&& rhs.evaluates_to(size, right)
                &&& is_sum(left, right, out)
            }
    }

    /// Resolves both breadths against `size` and adds the results. The units
    /// need not agree: the sum is a number of pixels.
    pub fn add_with_size(&self, rhs: Breadth<T>, size: T) -> (out: T)
        requires
            self.can_add_with_size(rhs, size),
        ensures
            self.adds_with_size_to(rhs, size, out),
    {
        let left = self.evaluate(size);
        let right = rhs.evaluate(size);
        let sum = left + right;
        assert(is_sum(left, right, sum));
        sum
    }

    /// Replaces `self` by the pixel breadth of `self.add_with_size(rhs, size)`.
    pub fn add_assign_with_size(&mut self, rhs: Breadth<T>, size: T)
        requires
            old(self).can_add_with_size(rhs, size),
        ensures
            *final(self) is Px,
            old(self).adds_with_size_to(rhs, size, final(self).value()),
    {
        *self = Breadth::Px(self.add_with_size(rhs, size));
    }
}

impl<T: Copy + Sub<Output = T> + Mul<Output = T> + Div<Output = T> + From<u8>> Breadth<T> {
    /// `self.sub_with_size(rhs, size)` may be called: both breadths resolve
    /// against `size`, and whatever they resolve to can be subtracted.
    pub open spec fn can_sub_with_size(self, rhs: Breadth<T>, size: T) -> bool {
        &&& self.can_evaluate(size)
        &&& rhs.can_evaluate(size)
        &&& forall|left: T, right: T|
            #![trigger self.evaluates_to(size, left), rhs.evaluates_to(size, right)]
            self.evaluates_to(size, left) && rhs.evaluates_to(size, right)
                ==> difference_defined(left, right)
    }

    /// `out` is what `self.sub_with_size(rhs, size)` may return: what `self`
    /// resolves to against `size`, less what `rhs` resolves to.
    pub open spec fn subtracts_with_size_to(self, rhs: Breadth<T>, size: T, out: T) -> bool {
        exists|left: T, right: T|
            #![trigger is_difference(left, right, out)]
            {
                &&& self.evaluates_to(size, left)
                &&& rhs.evaluates_to(size, right)
                &&& is_difference(left, right, out)
            }
    }

    /// Resolves both breadths against `size` and subtracts the second result
    /// from the first. The units need not agree: the difference is a number
    /// of pixels.
    pub fn sub_with_size(&self, rhs: Breadth<T>, size: T) -> (out: T)
        requires
            self.can_sub_with_size(rhs, size),
        ensures
            self.subtracts_with_size_to(rhs, size, out),
    {
        let left = self.evaluate(size);
        let right = rhs.evaluate(size);
        let difference = left - right;
        assert(is_difference(left, right, difference));
        difference
    }

    /// Replaces `self` by the pixel breadth of `self.sub_with_size(rhs, size)`.
    pub fn sub_assign_with_size(&mut self, rhs: Breadth<T>, size: T)
        requires
            old(self).can_sub_with_size(rhs, size),
        ensures
            *final(self) is Px,
            old(self).subtracts_with_size_to(rhs, size, final(self).value()),
    {
        *self = Breadth::Px(self.sub_with_size(rhs, size));
    }
}

} // verus!
