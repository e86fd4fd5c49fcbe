//! Laws of breadths, proved from the contracts of the operations.
//!
//! Each law is stated over the same relations that the operations promise:
//! [`Breadth::adds_to`], [`Breadth::subtracts_to`], [`Breadth::evaluates_to`]
//! and the conversions [`Breadth::to_val`] and [`Val::to_breadth`].

use vstd::prelude::*;
use core::ops::Add;
use core::ops::Div;
use core::ops::Mul;
use core::ops::Sub;
use vstd::std_specs::convert::FromSpec;
use vstd::std_specs::ops::AddSpec;
use vstd::std_specs::ops::DivSpec;
use vstd::std_specs::ops::MulSpec;
use vstd::std_specs::ops::SubSpec;
use crate::breadth::Breadth;
use crate::error::BreadthArithmeticError;
use crate::error::BreadthConversionError;
use crate::scalar::is_sum;
use crate::val::Val;

verus! {

/// A pixel breadth resolves to its own number, whatever the reference size.
pub proof fn law_pixels_ignore_the_reference<T: Copy + Mul<Output = T> + Div<Output = T> + From<u8>>(
    value: T,
    size: T,
    out: T,
)
    requires
        Breadth::Px(value).evaluates_to(size, out),
    ensures
        out == value,
{
}

/// A percent breadth resolves to `size * value / 100`: where the scalar's
/// product, quotient and conversion from `u8` are functions of their
/// operands, the result is that expression and nothing else.
pub proof fn law_percent_is_a_share_of_the_reference<
    T: Copy + Mul<Output = T> + Div<Output = T> + From<u8>,
>(value: T, size: T, out: T)
    requires
        Breadth::Percent(value).evaluates_to(size, out),
        T::obeys_mul_spec(),
        T::obeys_div_spec(),
        T::obeys_from_spec(),
    ensures
        out == size.mul_spec(value).div_spec(T::from_spec(100u8)),
{
}

/// Addition is closed on each unit: the sum of two breadths of one unit
/// exists and is of that unit.
pub proof fn law_add_is_closed<T: Copy + Add<Output = T>>(
    a: Breadth<T>,
    b: Breadth<T>,
    out: Result<Breadth<T>, BreadthArithmeticError>,
)
    requires
        a.same_variant(b),
        a.adds_to(b, out),
    ensures
        out is Ok,
        out->Ok_0.same_variant(a),
        out->Ok_0.same_variant(b),
{
}

/// Subtraction is closed on each unit: the difference of two breadths of one
/// unit exists and is of that unit.
pub proof fn law_sub_is_closed<T: Copy + Sub<Output = T>>(
    a: Breadth<T>,
    b: Breadth<T>,
    out: Result<Breadth<T>, BreadthArithmeticError>,
)
    requires
        a.same_variant(b),
        a.subtracts_to(b, out),
    ensures
        out is Ok,
        out->Ok_0.same_variant(a),
        out->Ok_0.same_variant(b),
{
}

/// Where the scalar's sum is a function of its operands, the sum of two
/// breadths of one unit is that sum in their unit, and nothing else.
pub proof fn law_add_is_the_sum_of_the_numbers<T: Copy + Add<Output = T>>(
    a: Breadth<T>,
    b: Breadth<T>,
    out: Result<Breadth<T>, BreadthArithmeticError>,
)
    requires
        a.same_variant(b),
        a.adds_to(b, out),
        T::obeys_add_spec(),
    ensures
        out == Ok::<Breadth<T>, BreadthArithmeticError>(
            a.with_value(a.value().add_spec(b.value())),
        ),
{
}

/// Where the scalar's difference is a function of its operands, the
/// difference of two breadths of one unit is that difference in their unit,
/// and nothing else.
pub proof fn law_sub_is_the_difference_of_the_numbers<T: Copy + Sub<Output = T>>(
    a: Breadth<T>,
    b: Breadth<T>,
    out: Result<Breadth<T>, BreadthArithmeticError>,
)
    requires
        a.same_variant(b),
        a.subtracts_to(b, out),
        T::obeys_sub_spec(),
    ensures
        out == Ok::<Breadth<T>, BreadthArithmeticError>(
            a.with_value(a.value().sub_spec(b.value())),
        ),
{
}

/// Breadths of different units do not add, whichever comes first.
pub proof fn law_add_refuses_mixed_units<T: Copy + Add<Output = T>>(
    a: Breadth<T>,
    b: Breadth<T>,
    forth: Result<Breadth<T>, BreadthArithmeticError>,
    back: Result<Breadth<T>, BreadthArithmeticError>,
)
    requires
        !a.same_variant(b),
        a.adds_to(b, forth),
        b.adds_to(a, back),
    ensures
        forth == Err::<Breadth<T>, _>(BreadthArithmeticError::NonIdenticalVariants),
        back == Err::<Breadth<T>, _>(BreadthArithmeticError::NonIdenticalVariants),
{
}

/// Breadths of different units do not subtract, whichever comes first.
pub proof fn law_sub_refuses_mixed_units<T: Copy + Sub<Output = T>>(
    a: Breadth<T>,
    b: Breadth<T>,
    forth: Result<Breadth<T>, BreadthArithmeticError>,
    back: Result<Breadth<T>, BreadthArithmeticError>,
)
    requires
        !a.same_variant(b),
        a.subtracts_to(b, forth),
        b.subtracts_to(a, back),
    ensures
        forth == Err::<Breadth<T>, _>(BreadthArithmeticError::NonIdenticalVariants),
        back == Err::<Breadth<T>, _>(BreadthArithmeticError::NonIdenticalVariants),
{
}

/// Addition of breadths commutes wherever the scalar's addition does: if
/// the two numbers give the same sums in both orders, so do the breadths.
pub proof fn law_add_commutes<T: Copy + Add<Output = T>>(
    a: Breadth<T>,
    b: Breadth<T>,
    out: Result<Breadth<T>, BreadthArithmeticError>,
)
    requires
        forall|sum: T|
            is_sum(a.value(), b.value(), sum) <==> is_sum(b.value(), a.value(), sum),
    ensures
        a.adds_to(b, out) <==> b.adds_to(a, out),
{
}

/// `total` is a result of `(x + y) + z`.
pub open spec fn sums_from_the_left<T: Add<Output = T>>(x: T, y: T, z: T, total: T) -> bool {
    exists|first: T| is_sum(x, y, first) && #[trigger] is_sum(first, z, total)
}

/// `total` is a result of `x + (y + z)`.
pub open spec fn sums_from_the_right<T: Add<Output = T>>(x: T, y: T, z: T, total: T) -> bool {
    exists|first: T| is_sum(y, z, first) && #[trigger] is_sum(x, first, total)
}

/// `out` is what `(a + b) + c` may give for breadths.
pub open spec fn adds_from_the_left<T: Copy + Add<Output = T>>(
    a: Breadth<T>,
    b: Breadth<T>,
    c: Breadth<T>,
    out: Result<Breadth<T>, BreadthArithmeticError>,
) -> bool {
    exists|first: Breadth<T>| #[trigger] a.adds_to(b, Ok(first)) && first.adds_to(c, out)
}

/// `out` is what `a + (b + c)` may give for breadths.
pub open spec fn adds_from_the_right<T: Copy + Add<Output = T>>(
    a: Breadth<T>,
    b: Breadth<T>,
    c: Breadth<T>,
    out: Result<Breadth<T>, BreadthArithmeticError>,
) -> bool {
    exists|first: Breadth<T>| #[trigger] b.adds_to(c, Ok(first)) && a.adds_to(first, out)
}

/// Addition of breadths of one unit associates wherever the scalar's
/// addition does: if the three numbers give the same totals whichever pair
/// is added first, so do the breadths.
pub proof fn law_add_associates<T: Copy + Add<Output = T>>(
    a: Breadth<T>,
    b: Breadth<T>,
    c: Breadth<T>,
    out: Result<Breadth<T>, BreadthArithmeticError>,
)
    requires
        a.same_variant(b),
        b.same_variant(c),
        forall|total: T|
            #![trigger sums_from_the_left(a.value(), b.value(), c.value(), total)]
            #![trigger sums_from_the_right(a.value(), b.value(), c.value(), total)]
            sums_from_the_left(a.value(), b.value(), c.value(), total) <==> sums_from_the_right(
                a.value(),
                b.value(),
                c.value(),
                total,
            ),
    ensures
        adds_from_the_left(a, b, c, out) <==> adds_from_the_right(a, b, c, out),
{
    if adds_from_the_left(a, b, c, out) {
        let first = choose|first: Breadth<T>| #[trigger]
            a.adds_to(b, Ok(first)) && first.adds_to(c, out);
        let total = out->Ok_0.value();
        assert(is_sum(first.value(), c.value(), total));
        assert(sums_from_the_right(a.value(), b.value(), c.value(), total));
        let inner = choose|inner: T|
            is_sum(b.value(), c.value(), inner) && #[trigger] is_sum(a.value(), inner, total);
        assert(b.adds_to(c, Ok(b.with_value(inner))));
    }
    if adds_from_the_right(a, b, c, out) {
        let first = choose|first: Breadth<T>| #[trigger]
            b.adds_to(c, Ok(first)) && a.adds_to(first, out);
        let total = out->Ok_0.value();
        assert(is_sum(a.value(), first.value(), total));
        assert(sums_from_the_left(a.value(), b.value(), c.value(), total));
        let inner = choose|inner: T|
            is_sum(a.value(), b.value(), inner) && #[trigger] is_sum(inner, c.value(), total);
        assert(a.adds_to(b, Ok(a.with_value(inner))));
    }
}

/// A length that carries a number becomes a breadth, and that breadth is the
/// same length again; a length that carries none is refused.
pub proof fn law_val_round_trip<T>(val: Val<T>)
    ensures
        val.is_evaluatable() ==> val.to_breadth() is Ok && val.to_breadth()->Ok_0.to_val() == val,
        !val.is_evaluatable() ==> val.to_breadth() == Err::<Breadth<T>, _>(
            BreadthConversionError::NonEvaluateable,
        ),
{
}

/// Every breadth is a length that carries a number, and comes back from it
/// unchanged.
pub proof fn law_breadth_round_trip<T>(breadth: Breadth<T>)
    ensures
        breadth.to_val().is_evaluatable(),
        breadth.to_val().to_breadth() == Ok::<Breadth<T>, BreadthConversionError>(breadth),
{
}

} // verus!
