//! What the arithmetic of a scalar type may return.
//!
//! A breadth carries a number of some scalar type `T`. The operators of `T`
//! need not be functions in the mathematical sense (floating-point results
//! are not fixed bit for bit), so contracts speak of them as relations: which
//! operands an operator accepts, and which results it may give for them.

use vstd::prelude::*;
use core::ops::Add;
use core::ops::Div;
use core::ops::Mul;
use core::ops::Sub;

verus! {

/// `x + y` may be computed.
pub open spec fn sum_defined<T: Add<Output = T>>(x: T, y: T) -> bool {
    call_requires(T::add, (x, y))
}

/// `out` is a result of `x + y`.
pub open spec fn is_sum<T: Add<Output = T>>(x: T, y: T, out: T) -> bool {
    call_ensures(T::add, (x, y), out)
}

/// `x - y` may be computed.
pub open spec fn difference_defined<T: Sub<Output = T>>(x: T, y: T) -> bool {
    call_requires(T::sub, (x, y))
}

/// `out` is a result of `x - y`.
pub open spec fn is_difference<T: Sub<Output = T>>(x: T, y: T, out: T) -> bool {
    call_ensures(T::sub, (x, y), out)
}

/// `x * y` may be computed.
pub open spec fn product_defined<T: Mul<Output = T>>(x: T, y: T) -> bool {
    call_requires(T::mul, (x, y))
}

/// `out` is a result of `x * y`.
pub open spec fn is_product<T: Mul<Output = T>>(x: T, y: T, out: T) -> bool {
    call_ensures(T::mul, (x, y), out)
}

/// `x / y` may be computed.
pub open spec fn quotient_defined<T: Div<Output = T>>(x: T, y: T) -> bool {
    call_requires(T::div, (x, y))
}

/// `out` is a result of `x / y`.
pub open spec fn is_quotient<T: Div<Output = T>>(x: T, y: T, out: T) -> bool {
    call_ensures(T::div, (x, y), out)
}

/// `out` is the scalar that `T::default()` gives: zero, for a number type.
pub open spec fn is_zero<T: Default>(out: T) -> bool {
    call_ensures(T::default, (), out)
}

/// `out` is the scalar that stands for one hundred.
pub open spec fn is_hundred<T: From<u8>>(out: T) -> bool {
    call_ensures(T::from, (100u8,), out)
}

} // verus!
