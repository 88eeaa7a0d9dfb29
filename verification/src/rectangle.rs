//! An axis-aligned rectangle in screen or canvas coordinates.

use vstd::prelude::*;

verus! {

/// An axis-aligned rectangle with integer coordinates, used for scissor
/// rectangles and clip regions. The position is the top-left corner under
/// the top-left coordinate convention.
#[derive(Clone, Copy, Debug, PartialEq, Eq, Structural)]
pub struct Rectangle {
    /// The X coordinate of the rectangle.
    pub x: i32,
    /// The Y coordinate of the rectangle.
    pub y: i32,
    /// The width of the rectangle.
    pub width: i32,
    /// The height of the rectangle.
    pub height: i32,
}

impl Rectangle {
    /// Creates a new rectangle.
    pub fn new(x: i32, y: i32, width: i32, height: i32) -> (r: Rectangle)
        ensures
            r == (Rectangle { x, y, width, height }),
    {
        Rectangle { x, y, width, height }
    }
}

} // verus!
