//! The quad transform: exactness, flips, rotation, winding order.

use tetra::{
    push_quad, Context, DrawParams, GraphicsDeviceInfo, Rotation, Vec2, FP_ONE,
};

fn new_context() -> Context {
    Context::new(
        640,
        480,
        640,
        480,
        GraphicsDeviceInfo {
            vendor: String::from("test vendor"),
            renderer: String::from("test renderer"),
            api_version: String::from("1.0"),
            shader_language_version: String::from("1.0"),
        },
    )
}

fn positions(ctx: &Context) -> Vec<(i64, i64)> {
    ctx.vertex_data
        .iter()
        .map(|v| (v.position.x, v.position.y))
        .collect()
}

fn uvs(ctx: &Context) -> Vec<(i64, i64)> {
    ctx.vertex_data.iter().map(|v| (v.uv.x, v.uv.y)).collect()
}

#[test]
fn identity_transform_is_exact() {
    let mut ctx = new_context();
    let params = DrawParams::new().position(Vec2::new(100, 200));
    push_quad(&mut ctx, 0, 0, 16, 8, 0, 0, 1, 1, &params);
    // Winding: top-left, bottom-left, bottom-right, top-right.
    assert_eq!(
        positions(&ctx),
        vec![(100, 200), (100, 208), (116, 208), (116, 200)]
    );
    assert_eq!(uvs(&ctx), vec![(0, 0), (0, 1), (1, 1), (1, 0)]);
}

#[test]
fn negative_x_scale_swaps_u_keeps_v() {
    let mut ctx = new_context();
    let params = DrawParams::new().scale(Vec2::new(-FP_ONE, FP_ONE));
    push_quad(&mut ctx, 0, 0, 16, 8, 0, 0, 1, 1, &params);
    // The corners were flipped back into ascending order...
    assert_eq!(positions(&ctx), vec![(-16, 0), (-16, 8), (0, 8), (0, 0)]);
    // ...so u1/u2 are swapped and v1/v2 are unchanged.
    assert_eq!(uvs(&ctx), vec![(1, 0), (1, 1), (0, 1), (0, 0)]);
}

#[test]
fn negative_y_scale_swaps_v_keeps_u() {
    let mut ctx = new_context();
    let params = DrawParams::new().scale(Vec2::new(FP_ONE, -FP_ONE));
    push_quad(&mut ctx, 0, 0, 16, 8, 0, 0, 1, 1, &params);
    assert_eq!(positions(&ctx), vec![(0, -8), (0, 0), (16, 0), (16, -8)]);
    assert_eq!(uvs(&ctx), vec![(0, 1), (0, 0), (1, 0), (1, 1)]);
}

#[test]
fn both_axes_may_swap_in_the_same_call() {
    let mut ctx = new_context();
    let params = DrawParams::new().scale(Vec2::new(-FP_ONE, -FP_ONE));
    push_quad(&mut ctx, 0, 0, 16, 8, 0, 0, 1, 1, &params);
    assert_eq!(uvs(&ctx), vec![(1, 1), (1, 0), (0, 0), (0, 1)]);
}

#[test]
fn origin_shifts_before_scaling() {
    let mut ctx = new_context();
    // Scaling is relative to the origin, not the quad's top-left corner.
    let params = DrawParams::new()
        .origin(Vec2::new(8, 4))
        .scale(Vec2::new(2 * FP_ONE, 2 * FP_ONE));
    push_quad(&mut ctx, 0, 0, 16, 8, 0, 0, 1, 1, &params);
    assert_eq!(
        positions(&ctx),
        vec![(-16, -8), (-16, 8), (16, 8), (16, -8)]
    );
}

#[test]
fn quarter_turn_rotation_is_exact() {
    let mut ctx = new_context();
    // A quarter turn: sine one, cosine zero.
    let params = DrawParams::new().rotation(Rotation::new(FP_ONE, 0));
    push_quad(&mut ctx, 0, 0, 16, 8, 0, 0, 1, 1, &params);
    // (x, y) maps to (-y, x).
    assert_eq!(positions(&ctx), vec![(0, 0), (-8, 0), (-8, 16), (0, 16)]);
}

#[test]
fn rotation_happens_after_origin_and_scale() {
    let mut ctx = new_context();
    let params = DrawParams::new()
        .origin(Vec2::new(16, 0))
        .rotation(Rotation::new(FP_ONE, 0))
        .position(Vec2::new(50, 60));
    push_quad(&mut ctx, 0, 0, 16, 8, 0, 0, 1, 1, &params);
    // Corners relative to the origin are (-16..0, 0..8); a quarter turn
    // maps (x, y) to (-y, x), then the position translates.
    assert_eq!(
        positions(&ctx),
        vec![(50, 44), (42, 44), (42, 60), (50, 60)]
    );
}

#[test]
fn fractional_scale_truncates_toward_zero() {
    let mut ctx = new_context();
    // Scale by one half: odd coordinates truncate toward zero.
    let params = DrawParams::new().scale(Vec2::new(FP_ONE / 2, FP_ONE / 2));
    push_quad(&mut ctx, -3, 0, 5, 7, 0, 0, 1, 1, &params);
    assert_eq!(positions(&ctx), vec![(-1, 0), (-1, 3), (2, 3), (2, 0)]);
}

#[test]
fn general_rotation_truncates_toward_zero() {
    let mut ctx = new_context();
    // Roughly thirty degrees: sine 0.5 exactly, cosine 56756/65536.
    let params = DrawParams::new().rotation(Rotation::new(FP_ONE / 2, 56756));
    push_quad(&mut ctx, 0, 0, 16, 8, 0, 0, 1, 1, &params);
    // Each corner (x, y) maps to ((cos*x - sin*y) / FP_ONE truncated,
    //                             (sin*x + cos*y) / FP_ONE truncated).
    assert_eq!(
        positions(&ctx),
        vec![(0, 0), (-4, 6), (9, 14), (13, 8)]
    );
}

#[test]
fn tint_color_is_carried_on_every_vertex() {
    let mut ctx = new_context();
    let tint = tetra::Color::rgba(10, 20, 30, 40);
    let params = DrawParams::new().color(tint);
    push_quad(&mut ctx, 0, 0, 16, 8, 0, 0, 1, 1, &params);
    assert!(ctx.vertex_data.iter().all(|v| v.color == tint));
}
