//! Blend and stencil constructors, defaults, and small value types.

use tetra::{
    get_default_filter_mode, get_device_info, get_transform_matrix, set_default_filter_mode,
    BlendFactor, BlendOperation, BlendState, Color, Context, DrawParams, FilterMode,
    GraphicsDeviceInfo, Rotation, StencilAction, StencilState, StencilTest, Transform, Vec2,
    FP_ONE,
};

fn new_context() -> Context {
    Context::new(
        640,
        480,
        640,
        480,
        GraphicsDeviceInfo {
            vendor: String::from("acme"),
            renderer: String::from("pixelpusher 9000"),
            api_version: String::from("4.6"),
            shader_language_version: String::from("4.60"),
        },
    )
}

#[test]
fn alpha_blend_uses_source_alpha_unless_premultiplied() {
    let straight = BlendState::alpha(false);
    assert_eq!(straight.color_operation, BlendOperation::Add);
    assert_eq!(straight.color_src, BlendFactor::SrcAlpha);
    assert_eq!(straight.color_dst, BlendFactor::OneMinusSrcAlpha);
    assert_eq!(straight.alpha_operation, BlendOperation::Add);
    assert_eq!(straight.alpha_src, BlendFactor::One);
    assert_eq!(straight.alpha_dst, BlendFactor::OneMinusSrcAlpha);

    let premultiplied = BlendState::alpha(true);
    assert_eq!(premultiplied.color_src, BlendFactor::One);
    assert_eq!(premultiplied.color_dst, BlendFactor::OneMinusSrcAlpha);
}

#[test]
fn add_blend_leaves_target_alpha_alone() {
    let s = BlendState::add(false);
    assert_eq!(s.color_operation, BlendOperation::Add);
    assert_eq!(s.color_src, BlendFactor::SrcAlpha);
    assert_eq!(s.color_dst, BlendFactor::One);
    assert_eq!(s.alpha_src, BlendFactor::Zero);
    assert_eq!(s.alpha_dst, BlendFactor::One);
    assert_eq!(BlendState::add(true).color_src, BlendFactor::One);
}

#[test]
fn subtract_blend_reverse_subtracts_from_target() {
    let s = BlendState::subtract(false);
    assert_eq!(s.color_operation, BlendOperation::ReverseSubtract);
    assert_eq!(s.alpha_operation, BlendOperation::ReverseSubtract);
    assert_eq!(s.color_src, BlendFactor::SrcAlpha);
    assert_eq!(s.color_dst, BlendFactor::One);
}

#[test]
fn multiply_blend_factors_by_destination() {
    let s = BlendState::multiply();
    assert_eq!(s.color_src, BlendFactor::Dst);
    assert_eq!(s.color_dst, BlendFactor::Zero);
    assert_eq!(s.alpha_src, BlendFactor::Dst);
    assert_eq!(s.alpha_dst, BlendFactor::Zero);
}

#[test]
fn default_blend_state_is_straight_alpha() {
    assert_eq!(BlendState::default(), BlendState::alpha(false));
}

#[test]
fn disabled_stencil_keeps_everything() {
    let s = StencilState::disabled();
    assert!(!s.enabled);
    assert_eq!(s.action, StencilAction::Keep);
    assert_eq!(s.test, StencilTest::Always);
    assert_eq!(s.reference_value, 0);
    assert_eq!(s.write_mask, 0x00);
    assert_eq!(s.read_mask, 0x00);
}

#[test]
fn write_stencil_always_passes_with_full_masks() {
    let s = StencilState::write(StencilAction::Increment, 7);
    assert!(s.enabled);
    assert_eq!(s.action, StencilAction::Increment);
    assert_eq!(s.test, StencilTest::Always);
    assert_eq!(s.reference_value, 7);
    assert_eq!(s.write_mask, 0xFF);
    assert_eq!(s.read_mask, 0xFF);
}

#[test]
fn read_stencil_keeps_buffer_and_tests() {
    let s = StencilState::read(StencilTest::EqualTo, 3);
    assert!(s.enabled);
    assert_eq!(s.action, StencilAction::Keep);
    assert_eq!(s.test, StencilTest::EqualTo);
    assert_eq!(s.reference_value, 3);
}

#[test]
fn default_draw_params_are_neutral() {
    let p = DrawParams::default();
    assert_eq!(p.position, Vec2::new(0, 0));
    assert_eq!(p.scale, Vec2::new(FP_ONE, FP_ONE));
    assert_eq!(p.origin, Vec2::new(0, 0));
    assert_eq!(p.rotation, Rotation::zero());
    assert_eq!(p.color, Color::white());
    assert!(p.clip.is_none());
}

#[test]
fn draw_params_builders_set_one_field_each() {
    let p = DrawParams::new()
        .position(Vec2::new(1, 2))
        .scale(Vec2::new(3, 4))
        .origin(Vec2::new(5, 6))
        .rotation(Rotation::new(7, 8))
        .color(Color::rgb(9, 10, 11))
        .clip(tetra::Rectangle::new(1, 2, 3, 4));
    assert_eq!(p.position, Vec2::new(1, 2));
    assert_eq!(p.scale, Vec2::new(3, 4));
    assert_eq!(p.origin, Vec2::new(5, 6));
    assert_eq!(p.rotation, Rotation::new(7, 8));
    assert_eq!(p.color, Color::rgb(9, 10, 11));
    assert_eq!(p.clip, Some(tetra::Rectangle::new(1, 2, 3, 4)));
}

#[test]
fn filter_mode_round_trips_through_the_context() {
    let mut ctx = new_context();
    assert_eq!(get_default_filter_mode(&ctx), FilterMode::Nearest);
    set_default_filter_mode(&mut ctx, FilterMode::Linear);
    assert_eq!(get_default_filter_mode(&ctx), FilterMode::Linear);
}

#[test]
fn device_info_is_reported_back() {
    let ctx = new_context();
    let info = get_device_info(&ctx);
    assert_eq!(info.vendor, "acme");
    assert_eq!(info.renderer, "pixelpusher 9000");
    assert_eq!(info.api_version, "4.6");
    assert_eq!(info.shader_language_version, "4.60");
}

#[test]
fn new_context_starts_with_identity_transform() {
    let ctx = new_context();
    assert_eq!(get_transform_matrix(&ctx), Transform::identity());
    assert_eq!(
        Transform::identity(),
        Transform {
            m00: FP_ONE,
            m01: 0,
            m10: 0,
            m11: FP_ONE,
            tx: 0,
            ty: 0
        }
    );
}

#[test]
fn colors_compare_by_component() {
    assert_eq!(Color::white(), Color::rgba(255, 255, 255, 255));
    assert_eq!(Color::black(), Color::rgb(0, 0, 0));
    assert_ne!(Color::rgb(1, 2, 3), Color::rgb(1, 2, 4));
}
