//! Lengths that always resolve to a number, for flexbox-style layout.
//!
//! A [`Breadth`] is either an absolute length in pixels or a percentage of a
//! reference size; a [`NumRect`] holds one breadth per edge. Both are generic
//! over the scalar that carries the number, and every operation is specified
//! through the outcome of that scalar's own arithmetic (see [`scalar`]).
//! [`Val`] and [`UiRect`] describe the lengths a layout engine accepts, which
//! may also be automatic or undefined, and the conversions to and from them.

pub mod breadth;
pub mod either;
pub mod error;
pub mod laws;
pub mod prelude;
pub mod rect;
pub mod scalar;
pub mod scale;
pub mod val;

pub use breadth::Breadth;
pub use either::Either;
pub use error::BreadthArithmeticError;
pub use error::BreadthConversionError;
pub use rect::NumRect;
pub use val::UiRect;
pub use val::Val;
