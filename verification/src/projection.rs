//! Orthographic projection: mapping viewport coordinates to clip space.
//!
//! The projection matrix of a 2D viewport has only two entries that vary,
//! both rational in the viewport size, so the projection is carried exactly
//! as its width, height and orientation. Applying it to a point yields the
//! clip coordinates as exact fractions: `clip_x = (2x - w) / w` and, for an
//! unflipped (screen) target, `clip_y = (h - 2y) / h`, which maps `(0, 0)`
//! to the top-left clip corner `(-1, 1)` and `(w, h)` to the bottom-right
//! `(1, -1)`. A flipped (canvas) target inverts the vertical mapping.

use vstd::prelude::*;

verus! {

/// An orthographic projection of a `width` by `height` viewport onto clip
/// space, with near/far planes fixed at -1/1.
///
/// `flipped` is false for screen targets (top-left origin: top maps to clip
/// Y = 1) and true for canvas targets, which are rendered upside down.
#[derive(Clone, Copy, Debug, PartialEq, Eq, Structural)]
pub struct Projection {
    /// The viewport width.
    pub width: i32,
    /// The viewport height.
    pub height: i32,
    /// Whether the vertical mapping is inverted (canvas targets).
    pub flipped: bool,
}

impl Projection {
    /// Whether the viewport has drawable dimensions.
    pub open spec fn wf(self) -> bool {
        self.width > 0 && self.height > 0
    }
}

/// The numerator of the clip-space X coordinate of `x` under `p`; the
/// denominator is `p.width`.
pub open spec fn clip_x_num(p: Projection, x: int) -> int {
    2 * x - p.width
}

/// The numerator of the clip-space Y coordinate of `y` under `p`; the
/// denominator is `p.height`.
pub open spec fn clip_y_num(p: Projection, y: int) -> int {
    if p.flipped {
        2 * y - p.height
    } else {
        p.height - 2 * y
    }
}

/// Builds the orthographic projection for a viewport.
///
/// `flipped` must be false for rendering directly to the screen and true
/// for rendering to a canvas: canvas content is rendered upside down so
/// that it is stored right-side-up.
pub fn build_orthographic(width: i32, height: i32, flipped: bool) -> (p: Projection)
    ensures
        p == (Projection { width, height, flipped }),
{
    Projection { width, height, flipped }
}

/// Applies the projection to a point, returning the clip-space coordinates
/// as fractions `(x_num, x_den, y_num, y_den)`.
pub fn project(p: &Projection, x: i32, y: i32) -> (clip: (i64, i64, i64, i64))
    ensures
        clip.0 == clip_x_num(*p, x as int),
        clip.1 == p.width as int,
        clip.2 == clip_y_num(*p, y as int),
        clip.3 == p.height as int,
{
    let xn: i64 = 2 * (x as i64) - (p.width as i64);
    let yn: i64 = if p.flipped {
        2 * (y as i64) - (p.height as i64)
    } else {
        (p.height as i64) - 2 * (y as i64)
    };
    (xn, p.width as i64, yn, p.height as i64)
}

/// An unflipped projection maps the viewport's corners to the clip-space
/// corners under the top-left convention: `(0, 0)` to the top-left corner
/// `(-1, 1)` and `(width, height)` to the bottom-right corner `(1, -1)`.
pub proof fn lemma_corners_unflipped(p: Projection)
    requires
        p.wf(),
        !p.flipped,
    ensures
        clip_x_num(p, 0) == -p.width,
        clip_y_num(p, 0) == p.height,
        clip_x_num(p, p.width as int) == p.width,
        clip_y_num(p, p.height as int) == -p.height,
{
}

/// Flipping a projection inverts exactly the vertical mapping: clip X is
/// unchanged and clip Y is negated, for every point.
pub proof fn lemma_flip_inverts_y(width: i32, height: i32, x: int, y: int)
    ensures
        clip_x_num(Projection { width, height, flipped: true }, x) == clip_x_num(
            Projection { width, height, flipped: false },
            x,
        ),
        clip_y_num(Projection { width, height, flipped: true }, y) == -clip_y_num(
            Projection { width, height, flipped: false },
            y,
        ),
{
}

} // verus!
