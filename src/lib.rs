//! Integer 2D geometry primitives: points, sizes and axis-aligned rectangles,
//! with contracts over their mathematical (unbounded integer) meaning.

pub mod point;
pub mod size;
pub mod rectangle;
pub mod text;

pub use point::Point;
pub use size::Size;
pub use rectangle::Rectangle;
