//! Per-draw parameters: position, scale, origin, rotation, tint and clip.

use crate::color::Color;
use crate::geometry::{
    lemma_rotate_zero, lemma_scale_exact, rotate_x, rotate_y, scale_coord, Rotation, Vec2, Vertex,
    COORD_LIMIT, FP_ONE, SCALE_LIMIT,
};
use crate::rectangle::Rectangle;
use vstd::prelude::*;

verus! {

/// The parameters of one draw request: a pure value, one instance per call.
///
/// A default instance draws at position `(0, 0)` with the identity scale
/// and rotation, the origin at `(0, 0)`, a white tint and no clip region.
#[derive(Clone, Copy, Debug)]
pub struct DrawParams {
    /// The position the graphic is drawn at.
    pub position: Vec2,
    /// The fixed-point scale (units of [`FP_ONE`]); negative components
    /// flip the graphic around the origin.
    pub scale: Vec2,
    /// The pivot that scaling and rotation are relative to.
    pub origin: Vec2,
    /// The rotation around the origin.
    pub rotation: Rotation,
    /// The color the graphic is multiplied by.
    pub color: Color,
    /// The region of the source graphic to draw, or `None` for all of it.
    pub clip: Option<Rectangle>,
}

impl DrawParams {
    /// The default draw parameters.
    pub open spec fn default_spec() -> DrawParams {
        DrawParams {
            position: Vec2 { x: 0, y: 0 },
            scale: Vec2 { x: FP_ONE, y: FP_ONE },
            origin: Vec2 { x: 0, y: 0 },
            rotation: Rotation::zero_spec(),
            color: Color { r: 255, g: 255, b: 255, a: 255 },
            clip: None,
        }
    }

    /// Whether every component is within the bounds the quad transform
    /// accepts without overflowing.
    pub open spec fn wf(self) -> bool {
        &&& -COORD_LIMIT <= self.position.x <= COORD_LIMIT
        &&& -COORD_LIMIT <= self.position.y <= COORD_LIMIT
        &&& -COORD_LIMIT <= self.origin.x <= COORD_LIMIT
        &&& -COORD_LIMIT <= self.origin.y <= COORD_LIMIT
        &&& -SCALE_LIMIT <= self.scale.x <= SCALE_LIMIT
        &&& -SCALE_LIMIT <= self.scale.y <= SCALE_LIMIT
        &&& self.rotation.wf()
    }

    /// Creates a new set of draw parameters, all at their defaults.
    pub fn new() -> (p: DrawParams)
        ensures
            p == DrawParams::default_spec(),
    {
        DrawParams {
            position: Vec2::zero(),
            scale: Vec2 { x: FP_ONE, y: FP_ONE },
            origin: Vec2::zero(),
            rotation: Rotation::zero(),
            color: Color::white(),
            clip: None,
        }
    }

    /// Sets the position that the graphic is drawn at.
    pub fn position(self, position: Vec2) -> (p: DrawParams)
        ensures
            p == (DrawParams { position, ..self }),
    {
        DrawParams { position, ..self }
    }

    /// Sets the scale the graphic is drawn at, in units of [`FP_ONE`].
    /// A negative component flips the graphic around the origin.
    pub fn scale(self, scale: Vec2) -> (p: DrawParams)
        ensures
            p == (DrawParams { scale, ..self }),
    {
        DrawParams { scale, ..self }
    }

    /// Sets the origin: positioning, scaling and rotation are relative to
    /// this point.
    pub fn origin(self, origin: Vec2) -> (p: DrawParams)
        ensures
            p == (DrawParams { origin, ..self }),
    {
        DrawParams { origin, ..self }
    }

    /// Sets the rotation of the graphic.
    pub fn rotation(self, rotation: Rotation) -> (p: DrawParams)
        ensures
            p == (DrawParams { rotation, ..self }),
    {
        DrawParams { rotation, ..self }
    }

    /// Sets the color the graphic is multiplied by; white draws it
    /// unchanged.
    pub fn color(self, color: Color) -> (p: DrawParams)
        ensures
            p == (DrawParams { color, ..self }),
    {
        DrawParams { color, ..self }
    }

    /// Sets the region of the source graphic to draw.
    pub fn clip(self, clip: Rectangle) -> (p: DrawParams)
        ensures
            p == (DrawParams { clip: Some(clip), ..self }),
    {
        DrawParams { clip: Some(clip), ..self }
    }
}

impl Default for DrawParams {
    /// The default draw parameters.
    fn default() -> (p: Self)
        ensures
            p == DrawParams::default_spec(),
    {
        DrawParams::new()
    }
}

/// One vertex of a transformed quad: the scaled, canonicalized corner
/// `(fx, fy)` rotated and translated by the draw parameters, carrying the
/// texture coordinate `(u, v)` and the parameters' tint.
pub open spec fn vertex_at(p: DrawParams, fx: int, fy: int, u: int, v: int) -> Vertex {
    Vertex {
        position: Vec2 {
            x: (p.position.x + rotate_x(p.rotation, fx, fy)) as i64,
            y: (p.position.y + rotate_y(p.rotation, fx, fy)) as i64,
        },
        uv: Vec2 { x: u as i64, y: v as i64 },
        color: p.color,
    }
}

/// The four vertices one quad contributes to the batch, in the fixed
/// winding top-left, bottom-left, bottom-right, top-right.
///
/// Each corner is moved relative to the origin and scaled; if scaling
/// flipped an axis, the corner coordinates of that axis are swapped
/// together with its texture coordinates, which keeps the drawn texture
/// un-mirrored. Both axes may swap in the same call. The canonical corners
/// are then rotated and translated by the position.
pub open spec fn quad_vertices(
    p: DrawParams,
    x1: int,
    y1: int,
    x2: int,
    y2: int,
    u1: int,
    v1: int,
    u2: int,
    v2: int,
) -> Seq<Vertex> {
    let fx_raw = scale_coord(x1, p.origin.x as int, p.scale.x as int);
    let fx2_raw = scale_coord(x2, p.origin.x as int, p.scale.x as int);
    let fy_raw = scale_coord(y1, p.origin.y as int, p.scale.y as int);
    let fy2_raw = scale_coord(y2, p.origin.y as int, p.scale.y as int);
    let xflip = fx2_raw < fx_raw;
    let yflip = fy2_raw < fy_raw;
    let fx = if xflip { fx2_raw } else { fx_raw };
    let fx2 = if xflip { fx_raw } else { fx2_raw };
    let su1 = if xflip { u2 } else { u1 };
    let su2 = if xflip { u1 } else { u2 };
    let fy = if yflip { fy2_raw } else { fy_raw };
    let fy2 = if yflip { fy_raw } else { fy2_raw };
    let sv1 = if yflip { v2 } else { v1 };
    let sv2 = if yflip { v1 } else { v2 };
    seq![
        vertex_at(p, fx, fy, su1, sv1),
        vertex_at(p, fx, fy2, su1, sv2),
        vertex_at(p, fx2, fy2, su2, sv2),
        vertex_at(p, fx2, fy, su2, sv1),
    ]
}

/// With no rotation and the origin at `(0, 0)`, the transform is exact:
/// each output vertex is the position plus the input corner, with the
/// texture coordinates unswapped. There is no drift of any kind.
pub proof fn lemma_identity_quad(
    p: DrawParams,
    x1: int,
    y1: int,
    x2: int,
    y2: int,
    u1: int,
    v1: int,
    u2: int,
    v2: int,
)
    requires
        p.wf(),
        p.origin == (Vec2 { x: 0i64, y: 0i64 }),
        p.scale == (Vec2 { x: FP_ONE, y: FP_ONE }),
        p.rotation == Rotation::zero_spec(),
        -COORD_LIMIT <= x1 <= COORD_LIMIT,
        -COORD_LIMIT <= y1 <= COORD_LIMIT,
        -COORD_LIMIT <= x2 <= COORD_LIMIT,
        -COORD_LIMIT <= y2 <= COORD_LIMIT,
        x1 <= x2,
        y1 <= y2,
    ensures
        quad_vertices(p, x1, y1, x2, y2, u1, v1, u2, v2) =~= seq![
            corner_vertex(p, x1, y1, u1, v1),
            corner_vertex(p, x1, y2, u1, v2),
            corner_vertex(p, x2, y2, u2, v2),
            corner_vertex(p, x2, y1, u2, v1),
        ],
{
    lemma_scale_exact(x1, 0, 1);
    lemma_scale_exact(x2, 0, 1);
    lemma_scale_exact(y1, 0, 1);
    lemma_scale_exact(y2, 0, 1);
    assert(p.scale.x as int == 1 * (FP_ONE as int));
    lemma_rotate_zero(x1, y1);
    lemma_rotate_zero(x1, y2);
    lemma_rotate_zero(x2, y2);
    lemma_rotate_zero(x2, y1);
}

/// A vertex placed at the position plus an untransformed corner: what the
/// quad transform emits when scale, rotation and origin are all neutral.
pub open spec fn corner_vertex(p: DrawParams, x: int, y: int, u: int, v: int) -> Vertex {
    Vertex {
        position: Vec2 { x: (p.position.x + x) as i64, y: (p.position.y + y) as i64 },
        uv: Vec2 { x: u as i64, y: v as i64 },
        color: p.color,
    }
}

/// A horizontal flip (scale `(-1, 1)`, no rotation) swaps `u1`/`u2` in the
/// emitted texture coordinates and leaves `v1`/`v2` unchanged: the drawn
/// texture stays un-mirrored.
pub proof fn lemma_flip_x_swaps_u(
    p: DrawParams,
    x1: int,
    y1: int,
    x2: int,
    y2: int,
    u1: int,
    v1: int,
    u2: int,
    v2: int,
)
    requires
        p.scale == (Vec2 { x: (-FP_ONE) as i64, y: FP_ONE }),
        p.rotation == Rotation::zero_spec(),
        x1 < x2,
        y1 <= y2,
    ensures
        ({
            let q = quad_vertices(p, x1, y1, x2, y2, u1, v1, u2, v2);
            &&& q[0].uv == (Vec2 { x: u2 as i64, y: v1 as i64 })
            &&& q[1].uv == (Vec2 { x: u2 as i64, y: v2 as i64 })
            &&& q[2].uv == (Vec2 { x: u1 as i64, y: v2 as i64 })
            &&& q[3].uv == (Vec2 { x: u1 as i64, y: v1 as i64 })
        }),
{
    lemma_scale_exact(x1, p.origin.x as int, -1);
    lemma_scale_exact(x2, p.origin.x as int, -1);
    lemma_scale_exact(y1, p.origin.y as int, 1);
    lemma_scale_exact(y2, p.origin.y as int, 1);
    assert(p.scale.x as int == -1 * (FP_ONE as int));
    assert(p.scale.y as int == 1 * (FP_ONE as int));
}

/// A vertical flip (scale `(1, -1)`, no rotation) swaps `v1`/`v2` in the
/// emitted texture coordinates and leaves `u1`/`u2` unchanged.
pub proof fn lemma_flip_y_swaps_v(
    p: DrawParams,
    x1: int,
    y1: int,
    x2: int,
    y2: int,
    u1: int,
    v1: int,
    u2: int,
    v2: int,
)
    requires
        p.scale == (Vec2 { x: FP_ONE, y: (-FP_ONE) as i64 }),
        p.rotation == Rotation::zero_spec(),
        x1 <= x2,
        y1 < y2,
    ensures
        ({
            let q = quad_vertices(p, x1, y1, x2, y2, u1, v1, u2, v2);
            &&& q[0].uv == (Vec2 { x: u1 as i64, y: v2 as i64 })
            &&& q[1].uv == (Vec2 { x: u1 as i64, y: v1 as i64 })
            &&& q[2].uv == (Vec2 { x: u2 as i64, y: v1 as i64 })
            &&& q[3].uv == (Vec2 { x: u2 as i64, y: v2 as i64 })
        }),
{
    lemma_scale_exact(x1, p.origin.x as int, 1);
    lemma_scale_exact(x2, p.origin.x as int, 1);
    lemma_scale_exact(y1, p.origin.y as int, -1);
    lemma_scale_exact(y2, p.origin.y as int, -1);
    assert(p.scale.x as int == 1 * (FP_ONE as int));
    assert(p.scale.y as int == -1 * (FP_ONE as int));
}

} // verus!
