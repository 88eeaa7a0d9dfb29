//! Canvas handles: off-screen render targets.

use vstd::prelude::*;

verus! {

/// A handle to an off-screen render target: a texture that can be drawn to
/// instead of the screen, with an optional multisample buffer.
///
/// Canvas rendering is upside-down relative to screen rendering, so while a
/// canvas is active the projection is built flipped and the front-face
/// winding is inverted. Switching away from a multisampled canvas issues a
/// resolve of its samples into its backing texture first.
#[derive(Clone, Copy, Debug, PartialEq, Eq, Structural)]
pub struct Canvas {
    /// The device handle identifying the render target.
    pub id: u64,
    /// The width of the canvas in pixels.
    pub width: i32,
    /// The height of the canvas in pixels.
    pub height: i32,
    /// Whether the canvas has a multisample buffer that must be resolved
    /// into the backing texture before the canvas is read or detached.
    pub multisample: bool,
    /// The device handle of the backing texture the canvas resolves into.
    pub texture_id: u64,
}

impl Canvas {
    /// Creates a canvas handle.
    pub fn new(id: u64, width: i32, height: i32, multisample: bool, texture_id: u64) -> (c: Canvas)
        ensures
            c == (Canvas { id, width, height, multisample, texture_id }),
    {
        Canvas { id, width, height, multisample, texture_id }
    }

    /// Whether the dimensions describe a drawable target.
    pub open spec fn wf(self) -> bool {
        self.width > 0 && self.height > 0
    }

    /// Returns the width and height of the canvas.
    pub fn size(&self) -> (s: (i32, i32))
        ensures
            s == (self.width, self.height),
    {
        (self.width, self.height)
    }
}

} // verus!
