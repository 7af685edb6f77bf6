//! Bounds of repetition counts: a scalar count or any range expression,
//! resolved to one uniform pair of lower and upper bounds.
pub mod bounds;
pub mod laws;
pub mod repeat;

pub use bounds::{Bound, RangeBounds};
pub use repeat::{many, IntoRangeBounds};
