//! The names most callers want, for a single `use`.

pub use crate::breadth::Breadth;
pub use crate::rect::NumRect;
