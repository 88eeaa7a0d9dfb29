//! The graphics device boundary.
//!
//! The device itself (driver, GPU) is an external collaborator. The
//! renderer records every call it would make as a [`DeviceCommand`], in
//! order; the surrounding application replays the command sequence against
//! a real device. The contracts of the renderer say exactly which commands
//! each operation appends.

use crate::blend::BlendState;
use crate::color::Color;
use crate::geometry::{Transform, Vertex};
use crate::projection::Projection;
use crate::stencil::StencilState;
use vstd::prelude::*;

verus! {

/// The filter mode a texture or canvas samples with.
#[derive(Clone, Copy, Debug, PartialEq, Eq, Structural)]
pub enum FilterMode {
    /// Nearest-neighbour sampling.
    Nearest,
    /// Linear interpolation.
    Linear,
}

/// The vertex traversal direction that counts as a triangle's front face.
///
/// Screen rendering uses counter-clockwise front faces; canvas rendering is
/// upside down, so its front faces are clockwise.
#[derive(Clone, Copy, Debug, PartialEq, Eq, Structural)]
pub enum VertexWinding {
    /// Clockwise front faces.
    Clockwise,
    /// Counter-clockwise front faces.
    CounterClockwise,
}

/// Information about the device used to render graphics, as reported by the
/// driver at context creation.
#[derive(Clone, Debug)]
pub struct GraphicsDeviceInfo {
    /// The name of the company responsible for the driver.
    pub vendor: String,
    /// The name of the renderer, usually the physical device.
    pub renderer: String,
    /// The version of the graphics API in use.
    pub api_version: String,
    /// The version of the shading language in use.
    pub shader_language_version: String,
}

/// One call to the graphics device, recorded in the order the device would
/// observe it.
#[derive(Clone, Debug, PartialEq)]
pub enum DeviceCommand {
    /// Fill the static index buffer with the quad index pattern.
    SetIndexBufferData {
        /// The indices, six per sprite slot: `[0, 1, 2, 2, 3, 0]` offset by
        /// four per quad.
        indices: Vec<u32>,
    },
    /// Clear the current render target to a color.
    Clear(Color),
    /// Set the blend state.
    SetBlendState(BlendState),
    /// Set the stencil state.
    SetStencilState(StencilState),
    /// Clear the stencil buffer to a value.
    ClearStencil(u8),
    /// Set which color components are written.
    SetColorMask(bool, bool, bool, bool),
    /// Set the scissor rectangle, in the device's bottom-left convention.
    SetScissor {
        /// The X coordinate of the rectangle.
        x: i32,
        /// The Y coordinate of the rectangle, measured from the bottom.
        y: i32,
        /// The width of the rectangle.
        width: i32,
        /// The height of the rectangle.
        height: i32,
    },
    /// Enable or disable scissor testing.
    SetScissorTest(bool),
    /// Set the viewport in pixels.
    SetViewport {
        /// The X coordinate of the viewport.
        x: i32,
        /// The Y coordinate of the viewport.
        y: i32,
        /// The width of the viewport.
        width: i32,
        /// The height of the viewport.
        height: i32,
    },
    /// Bind a canvas as the render target, or the backbuffer for `None`.
    BindCanvas(Option<u64>),
    /// Resolve a multisampled canvas into its backing texture.
    ResolveCanvas {
        /// The handle of the canvas being resolved.
        canvas: u64,
        /// The handle of the texture the samples resolve into.
        target: u64,
    },
    /// Enable or disable face culling.
    SetCullFace(bool),
    /// Set which winding counts as a front face.
    SetFrontFace(VertexWinding),
    /// Apply the default uniforms to the active shader: the projection and
    /// transform to combine, and a neutral tint.
    ApplyUniforms {
        /// The projection in effect for the draw.
        projection: Projection,
        /// The global transform in effect for the draw.
        transform: Transform,
        /// The tint, neutral white.
        tint: Color,
    },
    /// Upload vertex data into the dynamic vertex buffer.
    UploadVertices {
        /// The vertices, four per pending quad.
        vertices: Vec<Vertex>,
        /// The element offset the upload starts at.
        offset: usize,
    },
    /// Issue one indexed draw call over the pending elements.
    Draw {
        /// The handle of the texture to sample.
        texture: u64,
        /// The handle of the shader program to run.
        shader: u64,
        /// The index offset the draw starts at.
        offset: usize,
        /// The number of indices drawn.
        element_count: usize,
    },
    /// Swap the output buffer to the display surface.
    SwapBuffers,
}

} // verus!
