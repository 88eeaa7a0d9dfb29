//! A verified core for a batched 2D quad renderer.
//!
//! Draw requests are transformed into device-space vertices, accumulated in a
//! bounded batch, and submitted to the graphics device in as few draw calls as
//! possible. State changes (texture, shader, blend state, canvas, ...) drain
//! the pending batch first, so that visual ordering is preserved.
//!
//! The graphics device itself is an external collaborator: instead of talking
//! to a driver, the context records the exact sequence of device commands it
//! would issue. The contracts pin down both the batching state machine and
//! that command sequence.

mod blend;
mod canvas;
mod color;
mod context;
mod device;
mod geometry;
mod params;
mod projection;
mod rectangle;
mod shader;
mod stencil;
mod texture;

pub use blend::{BlendFactor, BlendOperation, BlendState};
pub use canvas::Canvas;
pub use color::Color;
pub use context::{
    bind_commands, clear, clear_stencil, draw_shader_id, draw_winding, flush, flush_commands,
    get_default_filter_mode, get_device_info, get_transform_matrix, index_offset, index_pattern,
    lemma_batch_shape, lemma_resolve_precedes_bind, present, present_commands, push_quad,
    reset_blend_state, reset_canvas, reset_scissor, reset_shader, reset_transform_matrix,
    resolve_commands, same_settings, scissor_commands, set_blend_state, set_canvas, set_canvas_ex,
    set_color_mask, set_default_filter_mode, set_scissor, set_shader, set_shader_ex,
    set_stencil_state, set_texture, set_texture_ex, set_transform_matrix, set_viewport_size,
    target_projection, Context, DEFAULT_SHADER_ID, DEFAULT_TEXTURE_ID, MAX_INDICES, MAX_SPRITES,
    MAX_VERTICES,
};
pub use device::{DeviceCommand, FilterMode, GraphicsDeviceInfo, VertexWinding};
pub use geometry::{
    canonicalize_axis, fp_div, fp_div_exec, fp_mul, lemma_fp_div_bound, lemma_fp_div_exact,
    lemma_mul_bound, lemma_rotate_zero, lemma_scale_exact, rotate_point, rotate_x, rotate_y,
    scale_coord, Rotation, Transform, Vec2, Vertex, COORD_LIMIT, FP_ONE, SCALED_LIMIT, SCALE_LIMIT,
};
pub use params::{
    corner_vertex, lemma_flip_x_swaps_u, lemma_flip_y_swaps_v, lemma_identity_quad, quad_vertices,
    vertex_at, DrawParams,
};
pub use projection::{
    build_orthographic, clip_x_num, clip_y_num, lemma_corners_unflipped, lemma_flip_inverts_y,
    project, Projection,
};
pub use rectangle::Rectangle;
pub use shader::Shader;
pub use stencil::{StencilAction, StencilState, StencilTest};
pub use texture::Texture;
