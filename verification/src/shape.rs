//! Shapes used for layout, hit-testing and drawing.

pub mod line;
pub mod point;
pub mod rect;
pub mod triangle;
