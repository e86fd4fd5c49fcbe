//! The lengths a layout engine takes, and the way to and from breadths.
//!
//! A layout engine accepts more than numbers: a length may be left to the
//! engine (`Auto`) or not be given at all (`Undefined`). [`Val`] and [`UiRect`]
//! hold such lengths. Every breadth is one of them; going back succeeds only
//! for the two that carry a number.

use vstd::prelude::*;
use vstd::std_specs::convert::FromSpecImpl;
use vstd::std_specs::convert::TryFromSpecImpl;
use crate::breadth::Breadth;
use crate::error::BreadthConversionError;
use crate::rect::NumRect;

verus! {

/// A length as a flexbox layout engine takes it.
#[derive(Copy, Clone, PartialEq, Debug)]
pub enum Val<T> {
    /// No length is given.
    Undefined,
    /// The engine determines the length.
    Auto,
    /// A length in pixels.
    Px(T),
    /// A length in percent of a reference size.
    Percent(T),
}

/// A length of the layout engine for each edge of a box.
#[derive(Copy, Clone, PartialEq, Debug)]
pub struct UiRect<T> {
    pub left: Val<T>,
    pub right: Val<T>,
    pub top: Val<T>,
    pub bottom: Val<T>,
}

impl<T> Val<T> {
    /// The length carries a number: it is in pixels or in percent.
    pub open spec fn is_evaluatable(self) -> bool {
        self is Px || self is Percent
    }

    /// The breadth of the same unit and number, where the length has them.
    pub open spec fn to_breadth(self) -> Result<Breadth<T>, BreadthConversionError> {
        match self {
            Val::Px(inner) => Ok(Breadth::Px(inner)),
            Val::Percent(inner) => Ok(Breadth::Percent(inner)),
            _ => Err(BreadthConversionError::NonEvaluateable),
        }
    }
}

impl<T> Breadth<T> {
    /// The length of the same unit and number.
    pub open spec fn to_val(self) -> Val<T> {
        match self {
            Breadth::Px(inner) => Val::Px(inner),
            Breadth::Percent(inner) => Val::Percent(inner),
        }
    }
}

impl<T> NumRect<T> {
    /// Edge by edge, the length of the same unit and number.
    pub open spec fn to_ui_rect(self) -> UiRect<T> {
        UiRect {
            left: self.left.to_val(),
            right: self.right.to_val(),
            top: self.top.to_val(),
            bottom: self.bottom.to_val(),
        }
    }
}

impl<T: Copy> UiRect<T> {
    /// The rectangle with `value` on every edge.
    pub fn all(value: Val<T>) -> (out: Self)
        ensures
            out == (UiRect { left: value, right: value, top: value, bottom: value }),
    {
        UiRect { left: value, right: value, top: value, bottom: value }
    }
}

impl<T> FromSpecImpl<Breadth<T>> for Val<T> {
    open spec fn obeys_from_spec() -> bool {
        true
    }

    open spec fn from_spec(value: Breadth<T>) -> Val<T> {
        value.to_val()
    }
}

impl<T> From<Breadth<T>> for Val<T> {
    /// Every breadth is a length of the engine: pixels stay pixels, percent
    /// stays percent, and the number is kept.
    fn from(value: Breadth<T>) -> (out: Val<T>)
        ensures
            out == value.to_val(),
    {
        match value {
            Breadth::Px(inner) => Val::Px(inner),
            Breadth::Percent(inner) => Val::Percent(inner),
        }
    }
}

impl<T> TryFromSpecImpl<Val<T>> for Breadth<T> {
    open spec fn obeys_try_from_spec() -> bool {
        true
    }

    open spec fn try_from_spec(value: Val<T>) -> Result<Breadth<T>, BreadthConversionError> {
        value.to_breadth()
    }
}

impl<T> TryFrom<Val<T>> for Breadth<T> {
    type Error = BreadthConversionError;

    /// A length in pixels or percent is a breadth; an automatic or undefined
    /// one is not, and gives [`BreadthConversionError::NonEvaluateable`].
    fn try_from(value: Val<T>) -> (out: Result<Breadth<T>, BreadthConversionError>)
        ensures
            out == value.to_breadth(),
            out is Ok <==> value.is_evaluatable(),
    {
        match value {
            Val::Px(inner) => Ok(Breadth::Px(inner)),
            Val::Percent(inner) => Ok(Breadth::Percent(inner)),
            _ => Err(BreadthConversionError::NonEvaluateable),
        }
    }
}

impl<T> FromSpecImpl<NumRect<T>> for UiRect<T> {
    open spec fn obeys_from_spec() -> bool {
        true
    }

    open spec fn from_spec(rect: NumRect<T>) -> UiRect<T> {
        rect.to_ui_rect()
    }
}

impl<T> From<NumRect<T>> for UiRect<T> {
    /// Converts each edge as [`Val::from`] does.
    fn from(rect: NumRect<T>) -> (out: UiRect<T>)
        ensures
            out == rect.to_ui_rect(),
    {
        UiRect {
            left: Val::from(rect.left),
            right: Val::from(rect.right),
            top: Val::from(rect.top),
            bottom: Val::from(rect.bottom),
        }
    }
}

} // verus!
