//! Texture handles, as the render state tracker sees them.

use crate::device::FilterMode;
use vstd::prelude::*;

verus! {

/// A handle to a 2D texture owned by the graphics device.
///
/// The device side of a texture (its pixel storage) is out of scope here:
/// the renderer only needs a stable identity for the flush-on-change
/// comparison, and the dimensions and filter mode that describe it.
/// Textures are compared by value.
#[derive(Clone, Copy, Debug, PartialEq, Eq, Structural)]
pub struct Texture {
    /// The device handle identifying the texture.
    pub id: u64,
    /// The width of the texture in pixels.
    pub width: i32,
    /// The height of the texture in pixels.
    pub height: i32,
    /// The filter mode the texture samples with.
    pub filter_mode: FilterMode,
}

impl Texture {
    /// Creates a texture handle.
    pub fn new(id: u64, width: i32, height: i32, filter_mode: FilterMode) -> (t: Texture)
        ensures
            t == (Texture { id, width, height, filter_mode }),
    {
        Texture { id, width, height, filter_mode }
    }
}

} // verus!
