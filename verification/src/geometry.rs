//! Geometry primitives and the quad transform.
//!
//! Coordinates are integers; scale factors and rotations are fixed-point
//! values with denominator [`FP_ONE`], so the whole transform is plain
//! integer arithmetic, with division truncated toward zero. A scale of
//! `FP_ONE` is the identity, `-FP_ONE` is a flip, and a rotation is carried
//! as its fixed-point sine and cosine, with `(0, FP_ONE)` meaning no
//! rotation, which the transform applies exactly.

use crate::color::Color;
use vstd::arithmetic::div_mod::{lemma_div_by_multiple, lemma_div_is_ordered};
use vstd::prelude::*;

verus! {

/// The fixed-point unit: scale factors and rotation sines/cosines are
/// expressed in 1/65536ths.
pub const FP_ONE: i64 = 65536;

/// Bound on the magnitude of coordinates, positions and origins accepted by
/// the quad transform, chosen so that every intermediate product fits in an
/// `i64`.
pub const COORD_LIMIT: i64 = 16777216;

/// Bound on the magnitude of fixed-point scale factors accepted by the quad
/// transform (a factor of 256 in either direction).
pub const SCALE_LIMIT: i64 = 16777216;

/// Bound on the magnitude of a coordinate after the scaling step:
/// `2 * COORD_LIMIT * SCALE_LIMIT / FP_ONE`.
pub const SCALED_LIMIT: i64 = 8589934592;

/// A two-component integer vector.
#[derive(Clone, Copy, Debug, PartialEq, Eq, Structural)]
pub struct Vec2 {
    /// The X component.
    pub x: i64,
    /// The Y component.
    pub y: i64,
}

impl Vec2 {
    /// Creates a vector from its components.
    pub fn new(x: i64, y: i64) -> (v: Vec2)
        ensures
            v == (Vec2 { x, y }),
    {
        Vec2 { x, y }
    }

    /// The zero vector.
    pub fn zero() -> (v: Vec2)
        ensures
            v == (Vec2 { x: 0i64, y: 0i64 }),
    {
        Vec2 { x: 0, y: 0 }
    }
}

/// A rotation, carried as the fixed-point sine and cosine of the angle.
///
/// The renderer never evaluates trigonometric functions itself: callers
/// provide the sine and cosine (in units of [`FP_ONE`]), and `(0, FP_ONE)`
/// is the identity rotation, which the transform applies exactly.
#[derive(Clone, Copy, Debug, PartialEq, Eq, Structural)]
pub struct Rotation {
    /// The sine of the angle, in units of [`FP_ONE`].
    pub sin: i64,
    /// The cosine of the angle, in units of [`FP_ONE`].
    pub cos: i64,
}

impl Rotation {
    /// Creates a rotation from a fixed-point sine and cosine.
    pub fn new(sin: i64, cos: i64) -> (r: Rotation)
        ensures
            r == (Rotation { sin, cos }),
    {
        Rotation { sin, cos }
    }

    /// The identity rotation.
    pub fn zero() -> (r: Rotation)
        ensures
            r == Rotation::zero_spec(),
    {
        Rotation { sin: 0, cos: FP_ONE }
    }

    /// The identity rotation.
    pub open spec fn zero_spec() -> Rotation {
        Rotation { sin: 0, cos: FP_ONE }
    }

    /// Whether this is exactly the identity rotation, which takes the exact
    /// fast path through the quad transform.
    pub open spec fn is_zero(self) -> bool {
        self == Rotation::zero_spec()
    }

    /// Whether the sine and cosine are within the fixed-point unit circle's
    /// bounding box.
    pub open spec fn wf(self) -> bool {
        -FP_ONE <= self.sin <= FP_ONE && -FP_ONE <= self.cos <= FP_ONE
    }
}

/// A 2D affine transform with fixed-point entries (denominator [`FP_ONE`]),
/// applied to all drawn geometry through the shader's combined matrix.
///
/// The renderer itself never multiplies matrices: the transform is carried
/// to the device alongside the projection, and compared by value.
#[derive(Clone, Copy, Debug, PartialEq, Eq, Structural)]
pub struct Transform {
    /// Row 0, column 0, in units of [`FP_ONE`].
    pub m00: i64,
    /// Row 0, column 1, in units of [`FP_ONE`].
    pub m01: i64,
    /// Row 1, column 0, in units of [`FP_ONE`].
    pub m10: i64,
    /// Row 1, column 1, in units of [`FP_ONE`].
    pub m11: i64,
    /// The X translation.
    pub tx: i64,
    /// The Y translation.
    pub ty: i64,
}

impl Transform {
    /// The identity transform.
    pub open spec fn identity_spec() -> Transform {
        Transform { m00: FP_ONE, m01: 0, m10: 0, m11: FP_ONE, tx: 0, ty: 0 }
    }

    /// The identity transform.
    pub fn identity() -> (t: Transform)
        ensures
            t == Transform::identity_spec(),
    {
        Transform { m00: FP_ONE, m01: 0, m10: 0, m11: FP_ONE, tx: 0, ty: 0 }
    }
}

/// One vertex of a quad: a device-space position, a texture coordinate and
/// a color. Immutable once pushed; quads contribute four vertices each.
#[derive(Clone, Copy, Debug, PartialEq, Eq, Structural)]
pub struct Vertex {
    /// The position in device space.
    pub position: Vec2,
    /// The texture coordinate.
    pub uv: Vec2,
    /// The color the vertex is tinted with.
    pub color: Color,
}

impl Vertex {
    /// Creates a vertex.
    pub fn new(position: Vec2, uv: Vec2, color: Color) -> (v: Vertex)
        ensures
            v == (Vertex { position, uv, color }),
    {
        Vertex { position, uv, color }
    }
}

/// Division by [`FP_ONE`] truncated toward zero, as the executable `/`
/// operator computes it on signed integers.
pub open spec fn fp_div(a: int) -> int {
    if a >= 0 {
        a / (FP_ONE as int)
    } else {
        -((-a) / (FP_ONE as int))
    }
}

/// A coordinate moved relative to the origin and scaled by a fixed-point
/// factor: the first step of the quad transform.
pub open spec fn scale_coord(x: int, origin: int, scale: int) -> int {
    fp_div((x - origin) * scale)
}

/// The X component of a point rotated by `r` (fixed-point).
pub open spec fn rotate_x(r: Rotation, fx: int, fy: int) -> int {
    fp_div(r.cos * fx - r.sin * fy)
}

/// The Y component of a point rotated by `r` (fixed-point).
pub open spec fn rotate_y(r: Rotation, fx: int, fy: int) -> int {
    fp_div(r.sin * fx + r.cos * fy)
}

/// Multiples of the fixed-point unit divide exactly.
pub proof fn lemma_fp_div_exact(k: int)
    ensures
        fp_div(k * FP_ONE) == k,
{
    if k >= 0 {
        lemma_div_by_multiple(k, FP_ONE as int);
    } else {
        lemma_div_by_multiple(-k, FP_ONE as int);
        assert(-(k * (FP_ONE as int)) == (-k) * (FP_ONE as int)) by (nonlinear_arith);
    }
}

/// The identity rotation moves nothing.
pub proof fn lemma_rotate_zero(fx: int, fy: int)
    ensures
        rotate_x(Rotation::zero_spec(), fx, fy) == fx,
        rotate_y(Rotation::zero_spec(), fx, fy) == fy,
{
    let r = Rotation::zero_spec();
    assert(r.cos * fx - r.sin * fy == fx * FP_ONE) by (nonlinear_arith)
        requires
            r.cos == FP_ONE && r.sin == 0,
    ;
    assert(r.sin * fx + r.cos * fy == fy * FP_ONE) by (nonlinear_arith)
        requires
            r.cos == FP_ONE && r.sin == 0,
    ;
    lemma_fp_div_exact(fx);
    lemma_fp_div_exact(fy);
}

/// A scale that is a whole multiple of the unit acts exactly.
pub proof fn lemma_scale_exact(x: int, origin: int, k: int)
    ensures
        scale_coord(x, origin, k * FP_ONE) == (x - origin) * k,
{
    assert((x - origin) * (k * (FP_ONE as int)) == ((x - origin) * k) * (FP_ONE as int))
        by (nonlinear_arith);
    lemma_fp_div_exact((x - origin) * k);
}

/// Truncated fixed-point division shrinks magnitudes: a bound on the input
/// divides through to the output.
pub proof fn lemma_fp_div_bound(a: int, bound: int)
    requires
        -bound <= a <= bound,
        0 <= bound,
    ensures
        -(bound / (FP_ONE as int)) <= fp_div(a) <= bound / (FP_ONE as int),
{
    if a >= 0 {
        lemma_div_is_ordered(a, bound, FP_ONE as int);
        vstd::arithmetic::div_mod::lemma_div_pos_is_pos(a, FP_ONE as int);
    } else {
        lemma_div_is_ordered(-a, bound, FP_ONE as int);
        vstd::arithmetic::div_mod::lemma_div_pos_is_pos(-a, FP_ONE as int);
    }
}

/// A product of bounded factors is bounded: `|a| <= ab` and `|b| <= bb`
/// give `|a * b| <= ab * bb`.
pub proof fn lemma_mul_bound(a: int, ab: int, b: int, bb: int)
    requires
        -ab <= a <= ab,
        -bb <= b <= bb,
    ensures
        -(ab * bb) <= a * b <= ab * bb,
{
    assert(-(ab * bb) <= a * b <= ab * bb) by (nonlinear_arith)
        requires
            -ab <= a <= ab && -bb <= b <= bb,
    ;
}

/// Divides by [`FP_ONE`] with truncation toward zero.
pub fn fp_div_exec(a: i64) -> (r: i64)
    requires
        i64::MIN < a,
    ensures
        r == fp_div(a as int),
{
    if a >= 0 {
        a / FP_ONE
    } else {
        -((-a) / FP_ONE)
    }
}

/// Computes `(a * s) / FP_ONE` with truncation toward zero, the fixed-point
/// product of the scaling step of the quad transform.
pub fn fp_mul(a: i64, s: i64) -> (r: i64)
    requires
        -2 * COORD_LIMIT <= a <= 2 * COORD_LIMIT,
        -SCALE_LIMIT <= s <= SCALE_LIMIT,
    ensures
        r == fp_div(a * s),
        -SCALED_LIMIT <= r <= SCALED_LIMIT,
{
    proof {
        lemma_mul_bound(a as int, 2 * COORD_LIMIT as int, s as int, SCALE_LIMIT as int);
        lemma_fp_div_bound(a * s, 2 * (COORD_LIMIT as int) * (SCALE_LIMIT as int));
        assert(2 * (COORD_LIMIT as int) * (SCALE_LIMIT as int) / (FP_ONE as int)
            == SCALED_LIMIT as int);
    }
    let p: i64 = a * s;
    fp_div_exec(p)
}

/// Rotates a scaled point by `r`, in fixed-point arithmetic.
pub fn rotate_point(r: &Rotation, fx: i64, fy: i64) -> (p: (i64, i64))
    requires
        r.wf(),
        -SCALED_LIMIT <= fx <= SCALED_LIMIT,
        -SCALED_LIMIT <= fy <= SCALED_LIMIT,
    ensures
        p.0 == rotate_x(*r, fx as int, fy as int),
        p.1 == rotate_y(*r, fx as int, fy as int),
        -2 * SCALED_LIMIT <= p.0 <= 2 * SCALED_LIMIT,
        -2 * SCALED_LIMIT <= p.1 <= 2 * SCALED_LIMIT,
{
    proof {
        lemma_mul_bound(r.cos as int, FP_ONE as int, fx as int, SCALED_LIMIT as int);
        lemma_mul_bound(r.sin as int, FP_ONE as int, fy as int, SCALED_LIMIT as int);
        lemma_mul_bound(r.sin as int, FP_ONE as int, fx as int, SCALED_LIMIT as int);
        lemma_mul_bound(r.cos as int, FP_ONE as int, fy as int, SCALED_LIMIT as int);
        lemma_fp_div_bound(r.cos * fx - r.sin * fy, 2 * (FP_ONE as int) * (SCALED_LIMIT as int));
        lemma_fp_div_bound(r.sin * fx + r.cos * fy, 2 * (FP_ONE as int) * (SCALED_LIMIT as int));
        assert(2 * (FP_ONE as int) * (SCALED_LIMIT as int) / (FP_ONE as int)
            == 2 * SCALED_LIMIT as int);
    }
    let xr: i64 = r.cos * fx - r.sin * fy;
    let yr: i64 = r.sin * fx + r.cos * fy;
    (fp_div_exec(xr), fp_div_exec(yr))
}

/// Canonicalizes one axis of a quad: if scaling flipped the axis (the far
/// coordinate came out below the near one), the two coordinates are swapped
/// and the matching texture coordinates are swapped with them, so the
/// texture is not mirrored by the flip.
pub fn canonicalize_axis(a: i64, b: i64, ta: i64, tb: i64) -> (r: (i64, i64, i64, i64))
    ensures
        b < a ==> r == (b, a, tb, ta),
        a <= b ==> r == (a, b, ta, tb),
{
    if b < a {
        (b, a, tb, ta)
    } else {
        (a, b, ta, tb)
    }
}

} // verus!
