//! The rendering context: batch buffer, render state tracker and
//! flush/present pipeline.
//!
//! Draw requests accumulate in a bounded batch. Every state-changing call
//! first drains the pending batch under the old state, so the device
//! observes draw calls in exactly the order their state became current.
//! Device calls are recorded as [`DeviceCommand`]s in the `commands` field.

use crate::blend::BlendState;
use crate::canvas::Canvas;
use crate::color::Color;
use crate::device::{DeviceCommand, FilterMode, GraphicsDeviceInfo, VertexWinding};
use crate::geometry::{
    canonicalize_axis, fp_mul, lemma_rotate_zero, rotate_point, rotate_x, rotate_y, Transform,
    Vec2, Vertex, COORD_LIMIT, FP_ONE, SCALED_LIMIT,
};
use crate::params::{quad_vertices, DrawParams};
use crate::projection::Projection;
use crate::rectangle::Rectangle;
use crate::shader::Shader;
use crate::stencil::StencilState;
use crate::texture::Texture;
use vstd::prelude::*;

verus! {

/// The most quads a single batch can hold.
pub const MAX_SPRITES: usize = 2048;

/// The most vertices a single batch can hold: four per quad. Kept under
/// 32767 so every vertex is addressable by a 16-bit index.
pub const MAX_VERTICES: usize = MAX_SPRITES * 4;

/// The most indices a single batch can hold: six per quad.
pub const MAX_INDICES: usize = MAX_SPRITES * 6;

/// The device handle of the built-in 1x1 white texture.
pub const DEFAULT_TEXTURE_ID: u64 = 0;

/// The device handle of the built-in shader program.
pub const DEFAULT_SHADER_ID: u64 = 0;

/// The rendering context: the exclusively owned state of the quad renderer.
///
/// The fields are public so that contracts and tests can speak about them
/// directly; all verified operations preserve [`Context::wf`].
pub struct Context {
    /// The texture drawn with, or `None` when none is bound yet.
    pub texture: Option<Texture>,
    /// The built-in 1x1 white texture.
    pub default_texture: Texture,
    /// The filter mode newly created textures and canvases default to.
    pub default_filter_mode: FilterMode,
    /// The shader override, or `None` for the built-in shader.
    pub shader: Option<Shader>,
    /// The built-in shader program.
    pub default_shader: Shader,
    /// The active canvas, or `None` when drawing to the screen.
    pub canvas: Option<Canvas>,
    /// The projection for the current render target.
    pub projection: Projection,
    /// The global transform applied to drawn geometry.
    pub transform: Transform,
    /// The pending batch: four vertices per pushed quad.
    pub vertex_data: Vec<Vertex>,
    /// The pending index count: six per pushed quad.
    pub element_count: usize,
    /// The blend state in effect.
    pub blend_state: BlendState,
    /// The logical width of the window.
    pub window_width: i32,
    /// The logical height of the window.
    pub window_height: i32,
    /// The physical (pixel) width of the window's surface.
    pub physical_width: i32,
    /// The physical (pixel) height of the window's surface.
    pub physical_height: i32,
    /// What the driver reported about the device.
    pub device_info: GraphicsDeviceInfo,
    /// Every device call made so far, in order.
    pub commands: Vec<DeviceCommand>,
}

impl Context {
    /// The context's invariant: the batch holds whole quads and stays within
    /// capacity, the tracked dimensions describe drawable targets, and the
    /// projection always belongs to the active render target (flipped for a
    /// canvas, unflipped for the screen).
    pub open spec fn wf(self) -> bool {
        &&& self.vertex_data@.len() % 4 == 0
        &&& self.element_count * 4 == self.vertex_data@.len() * 6
        &&& self.vertex_data@.len() <= MAX_VERTICES
        &&& self.element_count <= MAX_INDICES
        &&& self.window_width > 0
        &&& self.window_height > 0
        &&& self.physical_width >= 0
        &&& self.physical_height >= 0
        &&& self.projection.wf()
        &&& (self.canvas matches Some(c) ==> c.wf() && self.projection == (Projection {
            width: c.width,
            height: c.height,
            flipped: true,
        }))
        &&& (self.canvas is None ==> self.projection == (Projection {
            width: self.window_width,
            height: self.window_height,
            flipped: false,
        }))
    }
}

/// Whether two contexts agree on every piece of render state: everything
/// except the pending batch and the recorded commands.
pub open spec fn same_settings(a: Context, b: Context) -> bool {
    &&& b.texture == a.texture
    &&& b.default_texture == a.default_texture
    &&& b.default_filter_mode == a.default_filter_mode
    &&& b.shader == a.shader
    &&& b.default_shader == a.default_shader
    &&& b.canvas == a.canvas
    &&& b.projection == a.projection
    &&& b.transform == a.transform
    &&& b.blend_state == a.blend_state
    &&& b.window_width == a.window_width
    &&& b.window_height == a.window_height
    &&& b.physical_width == a.physical_width
    &&& b.physical_height == a.physical_height
    &&& b.device_info == a.device_info
}

/// The front-face winding a draw from this context uses: canvas rendering
/// is upside down, so its winding is the inverse of the screen's.
pub open spec fn draw_winding(c: Context) -> VertexWinding {
    if c.canvas is Some {
        VertexWinding::Clockwise
    } else {
        VertexWinding::CounterClockwise
    }
}

/// The shader handle a draw from this context uses: the override if one is
/// set, the built-in shader otherwise.
pub open spec fn draw_shader_id(c: Context) -> u64 {
    match c.shader {
        Some(s) => s.id,
        None => c.default_shader.id,
    }
}

/// The commands one flush of this context issues: nothing when the batch is
/// empty or no texture is bound, otherwise the uniform/cull/winding setup,
/// the vertex upload and exactly one draw call over the pending elements.
pub open spec fn flush_commands(c: Context) -> Seq<DeviceCommand> {
    if c.vertex_data@.len() == 0 || c.texture is None {
        Seq::empty()
    } else {
        seq![
            DeviceCommand::ApplyUniforms {
                projection: c.projection,
                transform: c.transform,
                tint: Color { r: 255, g: 255, b: 255, a: 255 },
            },
            DeviceCommand::SetCullFace(true),
            DeviceCommand::SetFrontFace(draw_winding(c)),
            DeviceCommand::UploadVertices { vertices: c.vertex_data, offset: 0 },
            DeviceCommand::Draw {
                texture: c.texture->Some_0.id,
                shader: draw_shader_id(c),
                offset: 0,
                element_count: c.element_count,
            },
        ]
    }
}

/// The quad index pattern: `[0, 1, 2, 2, 3, 0]`.
pub open spec fn index_offset(k: int) -> int {
    seq![0int, 1, 2, 2, 3, 0][k]
}

/// The contents of the static index buffer at position `i`: the quad index
/// pattern, offset by four for each earlier quad.
pub open spec fn index_pattern(i: int) -> int {
    4 * (i / 6) + index_offset(i % 6)
}

impl Context {
    /// Creates a rendering context for a window of the given logical and
    /// physical size, with an empty batch, no texture, shader or canvas
    /// bound, alpha blending, the identity transform and an unflipped
    /// screen projection. The one device call made is filling the static
    /// index buffer with the quad index pattern.
    pub fn new(
        window_width: i32,
        window_height: i32,
        physical_width: i32,
        physical_height: i32,
        device_info: GraphicsDeviceInfo,
    ) -> (ctx: Context)
        requires
            window_width > 0,
            window_height > 0,
            physical_width >= 0,
            physical_height >= 0,
        ensures
            ctx.wf(),
            ctx.texture is None,
            ctx.default_texture == (Texture {
                id: DEFAULT_TEXTURE_ID,
                width: 1i32,
                height: 1i32,
                filter_mode: FilterMode::Nearest,
            }),
            ctx.default_filter_mode == FilterMode::Nearest,
            ctx.shader is None,
            ctx.default_shader == (Shader { id: DEFAULT_SHADER_ID }),
            ctx.canvas is None,
            ctx.projection == (Projection {
                width: window_width,
                height: window_height,
                flipped: false,
            }),
            ctx.transform == Transform::identity_spec(),
            ctx.vertex_data@.len() == 0,
            ctx.element_count == 0,
            ctx.blend_state == BlendState::default_spec(),
            ctx.window_width == window_width,
            ctx.window_height == window_height,
            ctx.physical_width == physical_width,
            ctx.physical_height == physical_height,
            ctx.device_info == device_info,
            ctx.commands@.len() == 1,
            ctx.commands@[0] matches DeviceCommand::SetIndexBufferData { indices } && {
                &&& indices@.len() == MAX_INDICES
                &&& forall|j: int| 0 <= j < MAX_INDICES ==> indices@[j] == index_pattern(j)
            },
    {
        let mut indices: Vec<u32> = Vec::new();
        let mut i: usize = 0;
        while i < MAX_INDICES
            invariant
                i <= MAX_INDICES,
                indices@.len() == i,
                forall|j: int| 0 <= j < i ==> indices@[j] == index_pattern(j),
            decreases MAX_INDICES - i,
        {
            let base: u32 = ((i / 6) * 4) as u32;
            let k: usize = i % 6;
            let off: u32 = if k == 0 {
                0
            } else if k == 1 {
                1
            } else if k == 2 {
                2
            } else if k == 3 {
                2
            } else if k == 4 {
                3
            } else {
                0
            };
            assert(base + off == index_pattern(i as int));
            indices.push(base + off);
            i += 1;
        }

        let mut commands: Vec<DeviceCommand> = Vec::new();
        commands.push(DeviceCommand::SetIndexBufferData { indices });

        Context {
            texture: None,
            default_texture: Texture {
                id: DEFAULT_TEXTURE_ID,
                width: 1,
                height: 1,
                filter_mode: FilterMode::Nearest,
            },
            default_filter_mode: FilterMode::Nearest,
            shader: None,
            default_shader: Shader { id: DEFAULT_SHADER_ID },
            canvas: None,
            projection: Projection { width: window_width, height: window_height, flipped: false },
            transform: Transform::identity(),
            vertex_data: Vec::new(),
            element_count: 0,
            blend_state: BlendState::alpha(false),
            window_width,
            window_height,
            physical_width,
            physical_height,
            device_info,
            commands,
        }
    }
}

/// Clears the current render target (the screen, or the active canvas) to
/// the given color. Clearing is not batched: the device call is issued at
/// once and the pending batch is left alone.
pub fn clear(ctx: &mut Context, color: Color)
    requires
        old(ctx).wf(),
    ensures
        final(ctx).wf(),
        same_settings(*old(ctx), *final(ctx)),
        final(ctx).vertex_data@ == old(ctx).vertex_data@,
        final(ctx).element_count == old(ctx).element_count,
        final(ctx).commands@ == old(ctx).commands@.push(DeviceCommand::Clear(color)),
{
    ctx.commands.push(DeviceCommand::Clear(color));
}

/// Sends the queued batch to the graphics device.
///
/// A flush with an empty batch does nothing. A flush with no texture bound
/// silently drops the batch without a draw call: drawing without a texture
/// is meaningless, and steady-state rendering must not fail. Otherwise the
/// default uniforms are applied to the active shader, culling and the
/// winding for the current target are configured, the vertex data is
/// uploaded at offset zero and one indexed draw call covers exactly the
/// pending element count. The batch is empty afterwards; no render state
/// changes.
pub fn flush(ctx: &mut Context)
    requires
        old(ctx).wf(),
    ensures
        final(ctx).wf(),
        same_settings(*old(ctx), *final(ctx)),
        final(ctx).vertex_data@.len() == 0,
        final(ctx).element_count == 0,
        final(ctx).commands@ == old(ctx).commands@ + flush_commands(*old(ctx)),
{
    if ctx.vertex_data.len() != 0 {
        let texture_id: u64 = match &ctx.texture {
            None => {
                // A batch with no texture is dropped, not drawn.
                ctx.vertex_data = Vec::new();
                ctx.element_count = 0;
                assert(ctx.commands@ =~= old(ctx).commands@ + flush_commands(*old(ctx)));
                return ;
            },
            Some(t) => t.id,
        };

        let shader_id: u64 = match &ctx.shader {
            None => ctx.default_shader.id,
            Some(s) => s.id,
        };

        ctx.commands.push(
            DeviceCommand::ApplyUniforms {
                projection: ctx.projection,
                transform: ctx.transform,
                tint: Color::white(),
            },
        );
        ctx.commands.push(DeviceCommand::SetCullFace(true));

        // Canvas rendering is upside down, so its front faces wind the
        // other way around.
        let winding = if ctx.canvas.is_some() {
            VertexWinding::Clockwise
        } else {
            VertexWinding::CounterClockwise
        };
        ctx.commands.push(DeviceCommand::SetFrontFace(winding));

        let mut vertices: Vec<Vertex> = Vec::new();
        core::mem::swap(&mut vertices, &mut ctx.vertex_data);
        let element_count = ctx.element_count;
        ctx.element_count = 0;

        ctx.commands.push(DeviceCommand::UploadVertices { vertices, offset: 0 });
        ctx.commands.push(
            DeviceCommand::Draw { texture: texture_id, shader: shader_id, offset: 0, element_count },
        );

        assert(ctx.commands@ =~= old(ctx).commands@ + flush_commands(*old(ctx)));
    } else {
        assert(ctx.commands@ =~= old(ctx).commands@ + flush_commands(*old(ctx)));
    }
}

/// Rotates and translates one canonical corner of a quad by the draw
/// parameters. Trigonometry is skipped entirely when the rotation is
/// exactly zero; the fixed-point arithmetic makes that fast path exact, and
/// it agrees with the general path.
fn transform_corner(params: &DrawParams, fx: i64, fy: i64) -> (o: (i64, i64))
    requires
        params.wf(),
        -SCALED_LIMIT <= fx <= SCALED_LIMIT,
        -SCALED_LIMIT <= fy <= SCALED_LIMIT,
    ensures
        o.0 == params.position.x + rotate_x(params.rotation, fx as int, fy as int),
        o.1 == params.position.y + rotate_y(params.rotation, fx as int, fy as int),
{
    if params.rotation.sin == 0 && params.rotation.cos == FP_ONE {
        proof {
            lemma_rotate_zero(fx as int, fy as int);
        }
        (params.position.x + fx, params.position.y + fy)
    } else {
        let (rx, ry) = rotate_point(&params.rotation, fx, fy);
        (params.position.x + rx, params.position.y + ry)
    }
}

/// Appends one quad to the pending batch: four vertices and six indices.
///
/// The quad has opposite corners `(x1, y1)` and `(x2, y2)` in local space
/// and texture coordinates `(u1, v1)` to `(u2, v2)`; the draw parameters
/// supply origin, scale, rotation, position and tint. If the six new
/// indices would exceed the batch capacity, the pending batch is drained
/// first (exactly one implicit flush, state unchanged), so a push never
/// exceeds the static buffer capacity.
pub fn push_quad(
    ctx: &mut Context,
    x1: i64,
    y1: i64,
    x2: i64,
    y2: i64,
    u1: i64,
    v1: i64,
    u2: i64,
    v2: i64,
    params: &DrawParams,
)
    requires
        old(ctx).wf(),
        params.wf(),
        -COORD_LIMIT <= x1 <= COORD_LIMIT,
        -COORD_LIMIT <= y1 <= COORD_LIMIT,
        -COORD_LIMIT <= x2 <= COORD_LIMIT,
        -COORD_LIMIT <= y2 <= COORD_LIMIT,
    ensures
        final(ctx).wf(),
        same_settings(*old(ctx), *final(ctx)),
        old(ctx).element_count + 6 <= MAX_INDICES ==> {
            &&& final(ctx).commands@ == old(ctx).commands@
            &&& final(ctx).vertex_data@ == old(ctx).vertex_data@ + quad_vertices(
                *params,
                x1 as int,
                y1 as int,
                x2 as int,
                y2 as int,
                u1 as int,
                v1 as int,
                u2 as int,
                v2 as int,
            )
            &&& final(ctx).element_count == old(ctx).element_count + 6
        },
        old(ctx).element_count + 6 > MAX_INDICES ==> {
            &&& final(ctx).commands@ == old(ctx).commands@ + flush_commands(*old(ctx))
            &&& final(ctx).vertex_data@ == quad_vertices(
                *params,
                x1 as int,
                y1 as int,
                x2 as int,
                y2 as int,
                u1 as int,
                v1 as int,
                u2 as int,
                v2 as int,
            )
            &&& final(ctx).element_count == 6
        },
{
    if ctx.element_count + 6 > MAX_INDICES {
        flush(ctx);
    }
    let ghost base_vertices = ctx.vertex_data@;

    let fx0 = fp_mul(x1 - params.origin.x, params.scale.x);
    let fy0 = fp_mul(y1 - params.origin.y, params.scale.y);
    let fx20 = fp_mul(x2 - params.origin.x, params.scale.x);
    let fy20 = fp_mul(y2 - params.origin.y, params.scale.y);

    let (fx, fx2, su1, su2) = canonicalize_axis(fx0, fx20, u1, u2);
    let (fy, fy2, sv1, sv2) = canonicalize_axis(fy0, fy20, v1, v2);

    let (ox1, oy1) = transform_corner(params, fx, fy);
    let (ox2, oy2) = transform_corner(params, fx, fy2);
    let (ox3, oy3) = transform_corner(params, fx2, fy2);
    let (ox4, oy4) = transform_corner(params, fx2, fy);

    ctx.vertex_data.push(Vertex::new(Vec2::new(ox1, oy1), Vec2::new(su1, sv1), params.color));
    ctx.vertex_data.push(Vertex::new(Vec2::new(ox2, oy2), Vec2::new(su1, sv2), params.color));
    ctx.vertex_data.push(Vertex::new(Vec2::new(ox3, oy3), Vec2::new(su2, sv2), params.color));
    ctx.vertex_data.push(Vertex::new(Vec2::new(ox4, oy4), Vec2::new(su2, sv1), params.color));

    ctx.element_count = ctx.element_count + 6;

    assert(ctx.vertex_data@ =~= base_vertices + quad_vertices(
        *params,
        x1 as int,
        y1 as int,
        x2 as int,
        y2 as int,
        u1 as int,
        v1 as int,
        u2 as int,
        v2 as int,
    ));
}

/// Sets the texture used for future drawing operations, draining the batch
/// first if this is a change.
pub fn set_texture(ctx: &mut Context, texture: &Texture)
    requires
        old(ctx).wf(),
    ensures
        final(ctx).wf(),
        final(ctx).texture == Some(*texture),
        same_settings(Context { texture: Some(*texture), ..*old(ctx) }, *final(ctx)),
        Some(*texture) == old(ctx).texture ==> *final(ctx) == *old(ctx),
        Some(*texture) != old(ctx).texture ==> {
            &&& final(ctx).commands@ == old(ctx).commands@ + flush_commands(*old(ctx))
            &&& final(ctx).vertex_data@.len() == 0
            &&& final(ctx).element_count == 0
        },
{
    set_texture_ex(ctx, Some(*texture));
}

/// Sets or unsets the texture used for future drawing operations.
///
/// Setting the value already current is a no-op; a different value drains
/// the pending batch under the old texture first. No device call is made:
/// the texture is carried by the next draw call.
pub fn set_texture_ex(ctx: &mut Context, texture: Option<Texture>)
    requires
        old(ctx).wf(),
    ensures
        final(ctx).wf(),
        final(ctx).texture == texture,
        same_settings(Context { texture, ..*old(ctx) }, *final(ctx)),
        texture == old(ctx).texture ==> *final(ctx) == *old(ctx),
        texture != old(ctx).texture ==> {
            &&& final(ctx).commands@ == old(ctx).commands@ + flush_commands(*old(ctx))
            &&& final(ctx).vertex_data@.len() == 0
            &&& final(ctx).element_count == 0
        },
{
    if !option_texture_eq(&texture, &ctx.texture) {
        flush(ctx);
        ctx.texture = texture;
    }
}

/// Compares two optional textures by value.
fn option_texture_eq(a: &Option<Texture>, b: &Option<Texture>) -> (r: bool)
    ensures
        r == (a == b),
{
    match (a, b) {
        (None, None) => true,
        (Some(x), Some(y)) => *x == *y,
        _ => false,
    }
}

/// Compares two optional shaders by value.
fn option_shader_eq(a: &Option<Shader>, b: &Option<Shader>) -> (r: bool)
    ensures
        r == (a == b),
{
    match (a, b) {
        (None, None) => true,
        (Some(x), Some(y)) => *x == *y,
        _ => false,
    }
}

/// Compares two optional canvases by value.
fn option_canvas_eq(a: &Option<Canvas>, b: &Option<Canvas>) -> (r: bool)
    ensures
        r == (a == b),
{
    match (a, b) {
        (None, None) => true,
        (Some(x), Some(y)) => *x == *y,
        _ => false,
    }
}

/// Sets the blend state used for future drawing operations.
///
/// Setting the value already current is a no-op; a different value drains
/// the pending batch under the old blend state, then applies the new state
/// to the device.
pub fn set_blend_state(ctx: &mut Context, blend_state: BlendState)
    requires
        old(ctx).wf(),
    ensures
        final(ctx).wf(),
        final(ctx).blend_state == blend_state,
        same_settings(Context { blend_state, ..*old(ctx) }, *final(ctx)),
        blend_state == old(ctx).blend_state ==> *final(ctx) == *old(ctx),
        blend_state != old(ctx).blend_state ==> {
            &&& final(ctx).commands@ == old(ctx).commands@ + flush_commands(*old(ctx))
                + seq![DeviceCommand::SetBlendState(blend_state)]
            &&& final(ctx).vertex_data@.len() == 0
            &&& final(ctx).element_count == 0
        },
{
    if !(blend_state == ctx.blend_state) {
        flush(ctx);
        ctx.blend_state = blend_state;
        ctx.commands.push(DeviceCommand::SetBlendState(blend_state));
        assert(ctx.commands@ =~= old(ctx).commands@ + flush_commands(*old(ctx))
            + seq![DeviceCommand::SetBlendState(blend_state)]);
    }
}

/// Resets the blend state to the default: non-premultiplied alpha blending.
///
/// A no-op when the default is already current; otherwise the pending
/// batch is drained under the old blend state and the default is applied
/// to the device.
pub fn reset_blend_state(ctx: &mut Context)
    requires
        old(ctx).wf(),
    ensures
        final(ctx).wf(),
        final(ctx).blend_state == BlendState::default_spec(),
        same_settings(
            Context { blend_state: BlendState::default_spec(), ..*old(ctx) },
            *final(ctx),
        ),
        old(ctx).blend_state == BlendState::default_spec() ==> *final(ctx) == *old(ctx),
        old(ctx).blend_state != BlendState::default_spec() ==> {
            &&& final(ctx).commands@ == old(ctx).commands@ + flush_commands(*old(ctx))
                + seq![DeviceCommand::SetBlendState(BlendState::default_spec())]
            &&& final(ctx).vertex_data@.len() == 0
            &&& final(ctx).element_count == 0
        },
{
    set_blend_state(ctx, BlendState::alpha(false));
}

/// Sets the shader used for future drawing operations, draining the batch
/// first if this is a change.
pub fn set_shader(ctx: &mut Context, shader: &Shader)
    requires
        old(ctx).wf(),
    ensures
        final(ctx).wf(),
        final(ctx).shader == Some(*shader),
        same_settings(Context { shader: Some(*shader), ..*old(ctx) }, *final(ctx)),
        Some(*shader) == old(ctx).shader ==> *final(ctx) == *old(ctx),
        Some(*shader) != old(ctx).shader ==> {
            &&& final(ctx).commands@ == old(ctx).commands@ + flush_commands(*old(ctx))
            &&& final(ctx).vertex_data@.len() == 0
            &&& final(ctx).element_count == 0
        },
{
    set_shader_ex(ctx, Some(*shader));
}

/// Resets the renderer to the built-in shader.
///
/// A no-op when no override is set; otherwise the pending batch is drained
/// under the old shader first.
pub fn reset_shader(ctx: &mut Context)
    requires
        old(ctx).wf(),
    ensures
        final(ctx).wf(),
        final(ctx).shader is None,
        same_settings(Context { shader: None, ..*old(ctx) }, *final(ctx)),
        old(ctx).shader is None ==> *final(ctx) == *old(ctx),
        old(ctx).shader is Some ==> {
            &&& final(ctx).commands@ == old(ctx).commands@ + flush_commands(*old(ctx))
            &&& final(ctx).vertex_data@.len() == 0
            &&& final(ctx).element_count == 0
        },
{
    set_shader_ex(ctx, None);
}

/// Sets or unsets the shader override.
///
/// Setting the value already current is a no-op; a different value drains
/// the pending batch under the old shader first. No device call is made:
/// the shader is carried by the next draw call.
pub fn set_shader_ex(ctx: &mut Context, shader: Option<Shader>)
    requires
        old(ctx).wf(),
    ensures
        final(ctx).wf(),
        final(ctx).shader == shader,
        same_settings(Context { shader, ..*old(ctx) }, *final(ctx)),
        shader == old(ctx).shader ==> *final(ctx) == *old(ctx),
        shader != old(ctx).shader ==> {
            &&& final(ctx).commands@ == old(ctx).commands@ + flush_commands(*old(ctx))
            &&& final(ctx).vertex_data@.len() == 0
            &&& final(ctx).element_count == 0
        },
{
    if !option_shader_eq(&shader, &ctx.shader) {
        flush(ctx);
        ctx.shader = shader;
    }
}

/// The commands that detaching this context's canvas issues: a resolve of
/// its samples into its backing texture when it is multisampled, nothing
/// otherwise.
pub open spec fn resolve_commands(c: Context) -> Seq<DeviceCommand> {
    match c.canvas {
        Some(cv) => if cv.multisample {
            seq![DeviceCommand::ResolveCanvas { canvas: cv.id, target: cv.texture_id }]
        } else {
            Seq::empty()
        },
        None => Seq::empty(),
    }
}

/// The commands that binding a new render target issues: the viewport for
/// its pixel dimensions, then the bind itself.
pub open spec fn bind_commands(c: Context, canvas: Option<Canvas>) -> Seq<DeviceCommand> {
    match canvas {
        None => seq![
            DeviceCommand::SetViewport {
                x: 0,
                y: 0,
                width: c.physical_width,
                height: c.physical_height,
            },
            DeviceCommand::BindCanvas(None),
        ],
        Some(r) => seq![
            DeviceCommand::SetViewport { x: 0, y: 0, width: r.width, height: r.height },
            DeviceCommand::BindCanvas(Some(r.id)),
        ],
    }
}

/// The projection a render target uses: the window's dimensions unflipped
/// for the screen, the canvas's dimensions flipped for a canvas (canvas
/// rendering is upside down).
pub open spec fn target_projection(c: Context, canvas: Option<Canvas>) -> Projection {
    match canvas {
        None => Projection { width: c.window_width, height: c.window_height, flipped: false },
        Some(r) => Projection { width: r.width, height: r.height, flipped: true },
    }
}

/// Resolves the active canvas if it is multisampled: its samples are
/// written into its backing texture. No state changes.
fn resolve_canvas(ctx: &mut Context)
    requires
        old(ctx).wf(),
    ensures
        final(ctx).wf(),
        same_settings(*old(ctx), *final(ctx)),
        final(ctx).vertex_data@ == old(ctx).vertex_data@,
        final(ctx).element_count == old(ctx).element_count,
        final(ctx).commands@ == old(ctx).commands@ + resolve_commands(*old(ctx)),
{
    let do_resolve: Option<(u64, u64)> = match &ctx.canvas {
        Some(c) => if c.multisample {
            Some((c.id, c.texture_id))
        } else {
            None
        },
        None => None,
    };
    match do_resolve {
        Some((canvas, target)) => {
            ctx.commands.push(DeviceCommand::ResolveCanvas { canvas, target });
            assert(ctx.commands@ =~= old(ctx).commands@ + resolve_commands(*old(ctx)));
        },
        None => {
            assert(ctx.commands@ =~= old(ctx).commands@ + resolve_commands(*old(ctx)));
        },
    }
}

/// Redirects all drawing commands to the given canvas, draining the batch
/// first if this is a change.
pub fn set_canvas(ctx: &mut Context, canvas: &Canvas)
    requires
        old(ctx).wf(),
        canvas.wf(),
    ensures
        final(ctx).wf(),
        final(ctx).canvas == Some(*canvas),
        Some(*canvas) == old(ctx).canvas ==> *final(ctx) == *old(ctx),
        Some(*canvas) != old(ctx).canvas ==> {
            &&& final(ctx).projection == target_projection(*old(ctx), Some(*canvas))
            &&& same_settings(
                (Context {
                    canvas: Some(*canvas),
                    projection: target_projection(*old(ctx), Some(*canvas)),
                    ..(*old(ctx))
                }),
                *final(ctx),
            )
            &&& final(ctx).commands@ == old(ctx).commands@ + flush_commands(*old(ctx))
                + resolve_commands(*old(ctx)) + bind_commands(*old(ctx), Some(*canvas))
            &&& final(ctx).vertex_data@.len() == 0
            &&& final(ctx).element_count == 0
        },
{
    set_canvas_ex(ctx, Some(*canvas));
}

/// Sets the renderer back to drawing to the screen directly.
pub fn reset_canvas(ctx: &mut Context)
    requires
        old(ctx).wf(),
    ensures
        final(ctx).wf(),
        final(ctx).canvas is None,
        old(ctx).canvas is None ==> *final(ctx) == *old(ctx),
        old(ctx).canvas is Some ==> {
            &&& final(ctx).projection == target_projection(*old(ctx), None)
            &&& same_settings(
                (Context {
                    canvas: None,
                    projection: target_projection(*old(ctx), None),
                    ..(*old(ctx))
                }),
                *final(ctx),
            )
            &&& final(ctx).commands@ == old(ctx).commands@ + flush_commands(*old(ctx))
                + resolve_commands(*old(ctx)) + bind_commands(*old(ctx), None)
            &&& final(ctx).vertex_data@.len() == 0
            &&& final(ctx).element_count == 0
        },
{
    set_canvas_ex(ctx, None);
}

/// Sets or unsets the active canvas.
///
/// Setting the value already current is a no-op. Otherwise the pending
/// batch is drained under the old target, the outgoing canvas is resolved
/// if it is multisampled, and the new target is bound: its projection is
/// rebuilt (flipped for canvases, unflipped for the screen) and the device
/// viewport is set to its pixel dimensions.
pub fn set_canvas_ex(ctx: &mut Context, canvas: Option<Canvas>)
    requires
        old(ctx).wf(),
        canvas matches Some(c) ==> c.wf(),
    ensures
        final(ctx).wf(),
        final(ctx).canvas == canvas,
        canvas == old(ctx).canvas ==> *final(ctx) == *old(ctx),
        canvas != old(ctx).canvas ==> {
            &&& final(ctx).projection == target_projection(*old(ctx), canvas)
            &&& same_settings(
                (Context {
                    canvas,
                    projection: target_projection(*old(ctx), canvas),
                    ..(*old(ctx))
                }),
                *final(ctx),
            )
            &&& final(ctx).commands@ == old(ctx).commands@ + flush_commands(*old(ctx))
                + resolve_commands(*old(ctx)) + bind_commands(*old(ctx), canvas)
            &&& final(ctx).vertex_data@.len() == 0
            &&& final(ctx).element_count == 0
        },
{
    if !option_canvas_eq(&canvas, &ctx.canvas) {
        flush(ctx);
        resolve_canvas(ctx);

        ctx.canvas = canvas;

        match &ctx.canvas {
            None => {
                ctx.projection = Projection {
                    width: ctx.window_width,
                    height: ctx.window_height,
                    flipped: false,
                };
                ctx.commands.push(
                    DeviceCommand::SetViewport {
                        x: 0,
                        y: 0,
                        width: ctx.physical_width,
                        height: ctx.physical_height,
                    },
                );
                ctx.commands.push(DeviceCommand::BindCanvas(None));
            },
            Some(r) => {
                let (width, height) = r.size();

                ctx.projection = Projection { width, height, flipped: true };
                ctx.commands.push(DeviceCommand::SetViewport { x: 0, y: 0, width, height });
                ctx.commands.push(DeviceCommand::BindCanvas(Some(r.id)));
            },
        }

        assert(ctx.commands@ =~= old(ctx).commands@ + flush_commands(*old(ctx))
            + resolve_commands(*old(ctx)) + bind_commands(*old(ctx), canvas));
    }
}

/// The commands one call to [`present`] issues: a drain of the pending
/// batch, then the detach of any active canvas (resolving it if it is
/// multisampled and rebinding the screen), and finally the buffer swap.
pub open spec fn present_commands(c: Context) -> Seq<DeviceCommand> {
    flush_commands(c) + (if c.canvas is Some {
        resolve_commands(c) + bind_commands(c, None)
    } else {
        Seq::empty()
    }) + seq![DeviceCommand::SwapBuffers]
}

/// Presents the result of the frame's drawing commands to the screen.
///
/// The pending batch is always flushed first, and the buffer swap is the
/// last device call of the frame. This renderer's explicit policy for
/// cross-frame state: the shader override and the canvas are reset (the
/// next frame starts with the built-in shader, drawing to the screen),
/// while the texture, blend state and transform persist.
pub fn present(ctx: &mut Context)
    requires
        old(ctx).wf(),
    ensures
        final(ctx).wf(),
        final(ctx).shader is None,
        final(ctx).canvas is None,
        final(ctx).projection == target_projection(*old(ctx), None),
        same_settings(
            (Context {
                shader: None,
                canvas: None,
                projection: target_projection(*old(ctx), None),
                ..(*old(ctx))
            }),
            *final(ctx),
        ),
        final(ctx).vertex_data@.len() == 0,
        final(ctx).element_count == 0,
        final(ctx).commands@ == old(ctx).commands@ + present_commands(*old(ctx)),
{
    flush(ctx);
    set_shader_ex(ctx, None);
    set_canvas_ex(ctx, None);
    ctx.commands.push(DeviceCommand::SwapBuffers);
    assert(ctx.commands@ =~= old(ctx).commands@ + present_commands(*old(ctx)));
}

/// Returns the filter mode that newly created textures and canvases use.
pub fn get_default_filter_mode(ctx: &Context) -> (m: FilterMode)
    ensures
        m == ctx.default_filter_mode,
{
    ctx.default_filter_mode
}

/// Sets the filter mode that newly created textures and canvases use.
/// This is bookkeeping only: no flush and no device call.
pub fn set_default_filter_mode(ctx: &mut Context, filter_mode: FilterMode)
    requires
        old(ctx).wf(),
    ensures
        final(ctx).wf(),
        final(ctx).default_filter_mode == filter_mode,
        same_settings(
            Context { default_filter_mode: filter_mode, ..*old(ctx) },
            *final(ctx),
        ),
        final(ctx).vertex_data@ == old(ctx).vertex_data@,
        final(ctx).element_count == old(ctx).element_count,
        final(ctx).commands@ == old(ctx).commands@,
{
    ctx.default_filter_mode = filter_mode;
}

/// Returns the current global transform matrix.
pub fn get_transform_matrix(ctx: &Context) -> (t: Transform)
    ensures
        t == ctx.transform,
{
    ctx.transform
}

/// Sets the global transform matrix, applied to all subsequent draw calls.
///
/// The pending batch is always drained first: the transform reaches the
/// device through the shader's uniforms, which must not change mid-batch.
pub fn set_transform_matrix(ctx: &mut Context, matrix: Transform)
    requires
        old(ctx).wf(),
    ensures
        final(ctx).wf(),
        final(ctx).transform == matrix,
        same_settings((Context { transform: matrix, ..(*old(ctx)) }), *final(ctx)),
        final(ctx).vertex_data@.len() == 0,
        final(ctx).element_count == 0,
        final(ctx).commands@ == old(ctx).commands@ + flush_commands(*old(ctx)),
{
    flush(ctx);
    ctx.transform = matrix;
}

/// Resets the global transform matrix to the identity.
pub fn reset_transform_matrix(ctx: &mut Context)
    requires
        old(ctx).wf(),
    ensures
        final(ctx).wf(),
        final(ctx).transform == Transform::identity_spec(),
        same_settings(
            (Context { transform: Transform::identity_spec(), ..(*old(ctx)) }),
            *final(ctx),
        ),
        final(ctx).vertex_data@.len() == 0,
        final(ctx).element_count == 0,
        final(ctx).commands@ == old(ctx).commands@ + flush_commands(*old(ctx)),
{
    set_transform_matrix(ctx, Transform::identity());
}

/// The scissor command a target issues for a rectangle given in top-left
/// coordinates. The device uses bottom-left coordinates, so the Y component
/// is flipped when targeting the screen - but not when targeting a canvas:
/// canvas rendering is already upside down, so there the flip cancels out.
pub open spec fn scissor_commands(c: Context, r: Rectangle) -> Seq<DeviceCommand> {
    match c.canvas {
        None => seq![
            DeviceCommand::SetScissor {
                x: r.x,
                y: (c.physical_height - (r.y + r.height)) as i32,
                width: r.width,
                height: r.height,
            },
            DeviceCommand::SetScissorTest(true),
        ],
        Some(_) => seq![
            DeviceCommand::SetScissor { x: r.x, y: r.y, width: r.width, height: r.height },
            DeviceCommand::SetScissorTest(true),
        ],
    }
}

/// Sets the scissor rectangle, given in top-left screen or canvas
/// coordinates, and enables scissor testing.
///
/// The pending batch is always drained first: the scissor is device state
/// that must not change mid-batch. The rectangle is not affected by the
/// transform matrix.
pub fn set_scissor(ctx: &mut Context, scissor_rect: Rectangle)
    requires
        old(ctx).wf(),
        old(ctx).canvas is None ==> {
            &&& i32::MIN <= scissor_rect.y + scissor_rect.height <= i32::MAX
            &&& i32::MIN <= old(ctx).physical_height - (scissor_rect.y + scissor_rect.height)
                <= i32::MAX
        },
    ensures
        final(ctx).wf(),
        same_settings(*old(ctx), *final(ctx)),
        final(ctx).vertex_data@.len() == 0,
        final(ctx).element_count == 0,
        final(ctx).commands@ == old(ctx).commands@ + flush_commands(*old(ctx))
            + scissor_commands(*old(ctx), scissor_rect),
{
    flush(ctx);

    match &ctx.canvas {
        None => {
            // The device uses bottom-left coordinates while the public
            // convention is top-left, so flip the Y component here.
            ctx.commands.push(
                DeviceCommand::SetScissor {
                    x: scissor_rect.x,
                    y: ctx.physical_height - (scissor_rect.y + scissor_rect.height),
                    width: scissor_rect.width,
                    height: scissor_rect.height,
                },
            );
        },
        Some(_) => {
            // Canvas rendering is upside down already, so no flip here.
            ctx.commands.push(
                DeviceCommand::SetScissor {
                    x: scissor_rect.x,
                    y: scissor_rect.y,
                    width: scissor_rect.width,
                    height: scissor_rect.height,
                },
            );
        },
    }
    ctx.commands.push(DeviceCommand::SetScissorTest(true));

    assert(ctx.commands@ =~= old(ctx).commands@ + flush_commands(*old(ctx)) + scissor_commands(
        *old(ctx),
        scissor_rect,
    ));
}

/// Disables the scissor rectangle, draining the pending batch first.
pub fn reset_scissor(ctx: &mut Context)
    requires
        old(ctx).wf(),
    ensures
        final(ctx).wf(),
        same_settings(*old(ctx), *final(ctx)),
        final(ctx).vertex_data@.len() == 0,
        final(ctx).element_count == 0,
        final(ctx).commands@ == old(ctx).commands@ + flush_commands(*old(ctx))
            + seq![DeviceCommand::SetScissorTest(false)],
{
    flush(ctx);
    ctx.commands.push(DeviceCommand::SetScissorTest(false));
    assert(ctx.commands@ =~= old(ctx).commands@ + flush_commands(*old(ctx))
        + seq![DeviceCommand::SetScissorTest(false)]);
}

/// Sets the global stencil behavior, draining the pending batch first:
/// stencil state is device state that must not change mid-batch.
pub fn set_stencil_state(ctx: &mut Context, state: StencilState)
    requires
        old(ctx).wf(),
    ensures
        final(ctx).wf(),
        same_settings(*old(ctx), *final(ctx)),
        final(ctx).vertex_data@.len() == 0,
        final(ctx).element_count == 0,
        final(ctx).commands@ == old(ctx).commands@ + flush_commands(*old(ctx))
            + seq![DeviceCommand::SetStencilState(state)],
{
    flush(ctx);
    ctx.commands.push(DeviceCommand::SetStencilState(state));
    assert(ctx.commands@ =~= old(ctx).commands@ + flush_commands(*old(ctx))
        + seq![DeviceCommand::SetStencilState(state)]);
}

/// Clears the stencil buffer to the given value, draining the pending
/// batch first.
pub fn clear_stencil(ctx: &mut Context, value: u8)
    requires
        old(ctx).wf(),
    ensures
        final(ctx).wf(),
        same_settings(*old(ctx), *final(ctx)),
        final(ctx).vertex_data@.len() == 0,
        final(ctx).element_count == 0,
        final(ctx).commands@ == old(ctx).commands@ + flush_commands(*old(ctx))
            + seq![DeviceCommand::ClearStencil(value)],
{
    flush(ctx);
    ctx.commands.push(DeviceCommand::ClearStencil(value));
    assert(ctx.commands@ =~= old(ctx).commands@ + flush_commands(*old(ctx))
        + seq![DeviceCommand::ClearStencil(value)]);
}

/// Sets which color components are written to the target, draining the
/// pending batch first. Useful together with [`set_stencil_state`] to draw
/// to the stencil buffer without drawing visible pixels.
pub fn set_color_mask(ctx: &mut Context, red: bool, green: bool, blue: bool, alpha: bool)
    requires
        old(ctx).wf(),
    ensures
        final(ctx).wf(),
        same_settings(*old(ctx), *final(ctx)),
        final(ctx).vertex_data@.len() == 0,
        final(ctx).element_count == 0,
        final(ctx).commands@ == old(ctx).commands@ + flush_commands(*old(ctx))
            + seq![DeviceCommand::SetColorMask(red, green, blue, alpha)],
{
    flush(ctx);
    ctx.commands.push(DeviceCommand::SetColorMask(red, green, blue, alpha));
    assert(ctx.commands@ =~= old(ctx).commands@ + flush_commands(*old(ctx))
        + seq![DeviceCommand::SetColorMask(red, green, blue, alpha)]);
}

/// Records a new window size.
///
/// When drawing to the screen, the projection is rebuilt for the new
/// logical size and the device viewport is set to the new physical size;
/// while a canvas is active only the bookkeeping changes, and the new sizes
/// take effect when the canvas is detached.
pub fn set_viewport_size(
    ctx: &mut Context,
    width: i32,
    height: i32,
    physical_width: i32,
    physical_height: i32,
)
    requires
        old(ctx).wf(),
        width > 0,
        height > 0,
        physical_width >= 0,
        physical_height >= 0,
    ensures
        final(ctx).wf(),
        final(ctx).window_width == width,
        final(ctx).window_height == height,
        final(ctx).physical_width == physical_width,
        final(ctx).physical_height == physical_height,
        final(ctx).vertex_data@ == old(ctx).vertex_data@,
        final(ctx).element_count == old(ctx).element_count,
        old(ctx).canvas is None ==> {
            &&& final(ctx).projection == (Projection { width, height, flipped: false })
            &&& same_settings(
                (Context {
                    window_width: width,
                    window_height: height,
                    physical_width,
                    physical_height,
                    projection: Projection { width, height, flipped: false },
                    ..(*old(ctx))
                }),
                *final(ctx),
            )
            &&& final(ctx).commands@ == old(ctx).commands@
                + seq![DeviceCommand::SetViewport {
                    x: 0,
                    y: 0,
                    width: physical_width,
                    height: physical_height,
                }]
        },
        old(ctx).canvas is Some ==> {
            &&& same_settings(
                (Context {
                    window_width: width,
                    window_height: height,
                    physical_width,
                    physical_height,
                    ..(*old(ctx))
                }),
                *final(ctx),
            )
            &&& final(ctx).commands@ == old(ctx).commands@
        },
{
    ctx.window_width = width;
    ctx.window_height = height;
    ctx.physical_width = physical_width;
    ctx.physical_height = physical_height;

    if ctx.canvas.is_none() {
        ctx.projection = Projection { width, height, flipped: false };
        ctx.commands.push(
            DeviceCommand::SetViewport { x: 0, y: 0, width: physical_width, height: physical_height },
        );
        assert(ctx.commands@ =~= old(ctx).commands@
            + seq![DeviceCommand::SetViewport {
                x: 0,
                y: 0,
                width: physical_width,
                height: physical_height,
            }]);
    }
}

/// Returns what the driver reported about the rendering device.
pub fn get_device_info(ctx: &Context) -> (info: &GraphicsDeviceInfo)
    ensures
        *info == ctx.device_info,
{
    &ctx.device_info
}

/// In a well-formed context the batch always holds whole quads: after any
/// number of pushes the element count is six per quad and the vertex list
/// four per quad, until a flush resets both to zero.
pub proof fn lemma_batch_shape(c: Context)
    requires
        c.wf(),
    ensures
        c.element_count % 6 == 0,
        c.vertex_data@.len() % 4 == 0,
        c.element_count == 6 * (c.vertex_data@.len() as int / 4),
        c.vertex_data@.len() == 4 * (c.element_count as int / 6),
        c.element_count as int / 6 == c.vertex_data@.len() as int / 4,
{
    let len = c.vertex_data@.len() as int;
    let quads = len / 4;
    vstd::arithmetic::div_mod::lemma_fundamental_div_mod(len, 4);
    assert(len == 4 * quads);
    assert(c.element_count == 6 * quads);
    vstd::arithmetic::div_mod::lemma_div_by_multiple(6 * quads, 6);
    assert(6 * quads == quads * 6) by (nonlinear_arith);
    vstd::arithmetic::div_mod::lemma_mod_multiples_basic(quads, 6);
}

/// Switching render targets resolves a multisampled outgoing canvas before
/// the incoming target is bound: in the command sequence a canvas switch
/// appends, the resolve of the old canvas stands strictly before the bind
/// of the new target.
pub proof fn lemma_resolve_precedes_bind(c: Context, canvas: Option<Canvas>)
    requires
        c.canvas matches Some(a) && a.multisample,
    ensures
        ({
            let s = flush_commands(c) + resolve_commands(c) + bind_commands(c, canvas);
            let i = flush_commands(c).len() as int;
            &&& s[i] == (DeviceCommand::ResolveCanvas {
                canvas: c.canvas->Some_0.id,
                target: c.canvas->Some_0.texture_id,
            })
            &&& s[s.len() - 1] == (match canvas {
                None => DeviceCommand::BindCanvas(None),
                Some(r) => DeviceCommand::BindCanvas(Some(r.id)),
            })
            &&& i < s.len() - 1
        }),
{
}

} // verus!
