//! Shader handles, as the render state tracker sees them.

use vstd::prelude::*;

verus! {

/// A handle to a compiled shader program owned by the graphics device.
///
/// Compilation and uniform storage are device work and out of scope; the
/// renderer only needs a stable identity for the flush-on-change comparison
/// and for the draw call. Shaders are compared by value.
#[derive(Clone, Copy, Debug, PartialEq, Eq, Structural)]
pub struct Shader {
    /// The device handle identifying the shader program.
    pub id: u64,
}

impl Shader {
    /// Creates a shader handle.
    pub fn new(id: u64) -> (s: Shader)
        ensures
            s == (Shader { id }),
    {
        Shader { id }
    }
}

} // verus!
