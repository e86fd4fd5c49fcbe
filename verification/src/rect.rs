//! Four breadths, one per edge.

use vstd::prelude::*;
use crate::breadth::Breadth;

verus! {

/// A breadth for each edge of a box: a border, a padding. The four edges are
/// independent and nothing is asked of them: the rectangle only carries them.
#[derive(Clone, Copy, Debug)]
pub struct NumRect<T> {
    pub left: Breadth<T>,
    pub right: Breadth<T>,
    pub top: Breadth<T>,
    pub bottom: Breadth<T>,
}

impl<T: Default> NumRect<T> {
    /// Every edge is zero pixels.
    pub open spec fn is_zero(self) -> bool {
        &&& self.left.is_zero_px()
        &&& self.right.is_zero_px()
        &&& self.top.is_zero_px()
        &&& self.bottom.is_zero_px()
    }
}

impl<T: Default> Default for NumRect<T> {
    /// The rectangle whose four edges are zero pixels.
    fn default() -> (out: Self)
        ensures
            out.is_zero(),
    {
        NumRect {
            left: Breadth::default(),
            right: Breadth::default(),
            top: Breadth::default(),
            bottom: Breadth::default(),
        }
    }
}

impl<T: Copy> NumRect<T> {
    /// The rectangle with the four edges given.
    pub fn new(left: Breadth<T>, right: Breadth<T>, top: Breadth<T>, bottom: Breadth<T>) -> (out:
        Self)
        ensures
            out == (NumRect { left, right, top, bottom }),
    {
        NumRect { left, right, top, bottom }
    }

    /// The rectangle with `value` on every edge.
    pub fn all(value: Breadth<T>) -> (out: Self)
        ensures
            out == (NumRect { left: value, right: value, top: value, bottom: value }),
    {
        NumRect { left: value, right: value, top: value, bottom: value }
    }
}

impl<T: Copy + Default> NumRect<T> {
    /// `value` on the left and right edges, zero pixels above and below.
    pub fn horizontal(value: Breadth<T>) -> (out: Self)
        ensures
            out.left == value,
            out.right == value,
            out.top.is_zero_px(),
            out.bottom.is_zero_px(),
    {
        NumRect { left: value, right: value, top: Breadth::default(), bottom: Breadth::default() }
    }

    /// `value` on the top and bottom edges, zero pixels left and right.
    pub fn vertical(value: Breadth<T>) -> (out: Self)
        ensures
            out.top == value,
            out.bottom == value,
            out.left.is_zero_px(),
            out.right.is_zero_px(),
    {
        NumRect { left: Breadth::default(), right: Breadth::default(), top: value, bottom: value }
    }

    /// `value` on the left edge, zero pixels on the others.
    pub fn left(value: Breadth<T>) -> (out: Self)
        ensures
            out.left == value,
            out.right.is_zero_px(),
            out.top.is_zero_px(),
            out.bottom.is_zero_px(),
    {
        NumRect {
            left: value,
            right: Breadth::default(),
            top: Breadth::default(),
            bottom: Breadth::default(),
        }
    }

    /// `value` on the right edge, zero pixels on the others.
    pub fn right(value: Breadth<T>) -> (out: Self)
        ensures
            out.right == value,
            out.left.is_zero_px(),
            out.top.is_zero_px(),
            out.bottom.is_zero_px(),
    {
        NumRect {
            left: Breadth::default(),
            right: value,
            top: Breadth::default(),
            bottom: Breadth::default(),
        }
    }

    /// `value` on the top edge, zero pixels on the others.
    pub fn top(value: Breadth<T>) -> (out: Self)
        ensures
            out.top == value,
            out.left.is_zero_px(),
            out.right.is_zero_px(),
            out.bottom.is_zero_px(),
    {
        NumRect {
            left: Breadth::default(),
            right: Breadth::default(),
            top: value,
            bottom: Breadth::default(),
        }
    }

    /// `value` on the bottom edge, zero pixels on the others.
    pub fn bottom(value: Breadth<T>) -> (out: Self)
        ensures
            out.bottom == value,
            out.left.is_zero_px(),
            out.right.is_zero_px(),
            out.top.is_zero_px(),
    {
        NumRect {
            left: Breadth::default(),
            right: Breadth::default(),
            top: Breadth::default(),
            bottom: value,
        }
    }
}

} // verus!
