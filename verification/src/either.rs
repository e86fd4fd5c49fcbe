//! One value for every edge, or a rectangle of values.

use vstd::prelude::*;
use vstd::std_specs::convert::FromSpecImpl;
use crate::breadth::Breadth;
use crate::rect::NumRect;
use crate::val::UiRect;
use crate::val::Val;

verus! {

/// One of two things. A setter that takes "a single value for all edges, or
/// a rectangle with a value per edge" takes an `Either` of the two, and both
/// convert into it.
pub enum Either<L, R> {
    Left(L),
    Right(R),
}

impl<T> FromSpecImpl<Breadth<T>> for Either<Breadth<T>, NumRect<T>> {
    open spec fn obeys_from_spec() -> bool {
        true
    }

    open spec fn from_spec(breadth: Breadth<T>) -> Self {
        Either::Left(breadth)
    }
}

impl<T> From<Breadth<T>> for Either<Breadth<T>, NumRect<T>> {
    fn from(breadth: Breadth<T>) -> (out: Self)
        ensures
            out == Either::<Breadth<T>, NumRect<T>>::Left(breadth),
    {
        Either::Left(breadth)
    }
}

impl<T> FromSpecImpl<NumRect<T>> for Either<Breadth<T>, NumRect<T>> {
    open spec fn obeys_from_spec() -> bool {
        true
    }

    open spec fn from_spec(rect: NumRect<T>) -> Self {
        Either::Right(rect)
    }
}

impl<T> From<NumRect<T>> for Either<Breadth<T>, NumRect<T>> {
    fn from(rect: NumRect<T>) -> (out: Self)
        ensures
            out == Either::<Breadth<T>, NumRect<T>>::Right(rect),
    {
        Either::Right(rect)
    }
}

impl<T> FromSpecImpl<Val<T>> for Either<Val<T>, UiRect<T>> {
    open spec fn obeys_from_spec() -> bool {
        true
    }

    open spec fn from_spec(val: Val<T>) -> Self {
        Either::Left(val)
    }
}

impl<T> From<Val<T>> for Either<Val<T>, UiRect<T>> {
    fn from(val: Val<T>) -> (out: Self)
        ensures
            out == Either::<Val<T>, UiRect<T>>::Left(val),
    {
        Either::Left(val)
    }
}

impl<T> FromSpecImpl<UiRect<T>> for Either<Val<T>, UiRect<T>> {
    open spec fn obeys_from_spec() -> bool {
        true
    }

    open spec fn from_spec(rect: UiRect<T>) -> Self {
        Either::Right(rect)
    }
}

impl<T> From<UiRect<T>> for Either<Val<T>, UiRect<T>> {
    fn from(rect: UiRect<T>) -> (out: Self)
        ensures
            out == Either::<Val<T>, UiRect<T>>::Right(rect),
    {
        Either::Right(rect)
    }
}

impl<T: Copy> Either<Breadth<T>, NumRect<T>> {
    /// The rectangle that was meant: the breadth on every edge, or the
    /// rectangle that was given.
    pub open spec fn rect(self) -> NumRect<T> {
        match self {
            Either::Left(value) => NumRect { left: value, right: value, top: value, bottom: value },
            Either::Right(rect) => rect,
        }
    }

    /// Resolves the argument of a border or padding setter to a rectangle.
    pub fn into_rect(self) -> (out: NumRect<T>)
        ensures
            out == self.rect(),
    {
        match self {
            Either::Left(value) => NumRect::all(value),
            Either::Right(rect) => rect,
        }
    }
}

impl<T: Copy> Either<Val<T>, UiRect<T>> {
    /// The rectangle that was meant: the length on every edge, or the
    /// rectangle that was given.
    pub open spec fn rect(self) -> UiRect<T> {
        match self {
            Either::Left(value) => UiRect { left: value, right: value, top: value, bottom: value },
            Either::Right(rect) => rect,
        }
    }

    /// Resolves the argument of a margin setter to a rectangle.
    pub fn into_rect(self) -> (out: UiRect<T>)
        ensures
            out == self.rect(),
    {
        match self {
            Either::Left(value) => UiRect::all(value),
            Either::Right(rect) => rect,
        }
    }
}

} // verus!
