//! Clearing, scissor coordinates, stencil, color mask and window sizing.

use tetra::{
    clear, clear_stencil, push_quad, reset_scissor, set_canvas, set_color_mask, set_scissor,
    set_stencil_state, set_viewport_size, Canvas, Color, Context, DeviceCommand, DrawParams,
    GraphicsDeviceInfo, Projection, Rectangle, StencilAction, StencilState,
};

fn new_context() -> Context {
    Context::new(
        800,
        600,
        800,
        600,
        GraphicsDeviceInfo {
            vendor: String::from("test vendor"),
            renderer: String::from("test renderer"),
            api_version: String::from("1.0"),
            shader_language_version: String::from("1.0"),
        },
    )
}

#[test]
fn clear_issues_device_clear_without_flushing() {
    let mut ctx = new_context();
    let params = DrawParams::new();
    push_quad(&mut ctx, 0, 0, 16, 16, 0, 0, 1, 1, &params);
    clear(&mut ctx, Color::rgb(3, 5, 7));
    // The batch is untouched; the clear reached the device directly.
    assert_eq!(ctx.element_count, 6);
    assert_eq!(
        ctx.commands.last().unwrap(),
        &DeviceCommand::Clear(Color::rgb(3, 5, 7))
    );
}

#[test]
fn screen_scissor_flips_y_to_bottom_left() {
    let mut ctx = new_context();
    set_scissor(&mut ctx, Rectangle::new(10, 20, 100, 50));
    // Physical height 600: y = 600 - (20 + 50) = 530.
    assert_eq!(
        ctx.commands[ctx.commands.len() - 2],
        DeviceCommand::SetScissor {
            x: 10,
            y: 530,
            width: 100,
            height: 50
        }
    );
    assert_eq!(
        ctx.commands.last().unwrap(),
        &DeviceCommand::SetScissorTest(true)
    );
}

#[test]
fn canvas_scissor_is_not_flipped() {
    let mut ctx = new_context();
    let canvas = Canvas::new(20, 256, 256, false, 21);
    set_canvas(&mut ctx, &canvas);
    set_scissor(&mut ctx, Rectangle::new(10, 20, 100, 50));
    // Canvas rendering is already upside down: no flip.
    assert_eq!(
        ctx.commands[ctx.commands.len() - 2],
        DeviceCommand::SetScissor {
            x: 10,
            y: 20,
            width: 100,
            height: 50
        }
    );
}

#[test]
fn reset_scissor_disables_the_test() {
    let mut ctx = new_context();
    set_scissor(&mut ctx, Rectangle::new(0, 0, 10, 10));
    reset_scissor(&mut ctx);
    assert_eq!(
        ctx.commands.last().unwrap(),
        &DeviceCommand::SetScissorTest(false)
    );
}

#[test]
fn stencil_state_and_clear_reach_the_device() {
    let mut ctx = new_context();
    let state = StencilState::write(StencilAction::Replace, 1);
    set_stencil_state(&mut ctx, state);
    assert_eq!(
        ctx.commands.last().unwrap(),
        &DeviceCommand::SetStencilState(state)
    );
    clear_stencil(&mut ctx, 9);
    assert_eq!(ctx.commands.last().unwrap(), &DeviceCommand::ClearStencil(9));
}

#[test]
fn stencil_changes_flush_the_pending_batch() {
    let mut ctx = new_context();
    let texture = tetra::Texture::new(5, 16, 16, tetra::FilterMode::Nearest);
    tetra::set_texture(&mut ctx, &texture);
    let params = DrawParams::new();
    push_quad(&mut ctx, 0, 0, 16, 16, 0, 0, 1, 1, &params);
    set_stencil_state(&mut ctx, StencilState::disabled());
    assert_eq!(ctx.element_count, 0);
    assert!(ctx
        .commands
        .iter()
        .any(|c| matches!(c, DeviceCommand::Draw { .. })));
}

#[test]
fn color_mask_reaches_the_device() {
    let mut ctx = new_context();
    set_color_mask(&mut ctx, true, false, true, false);
    assert_eq!(
        ctx.commands.last().unwrap(),
        &DeviceCommand::SetColorMask(true, false, true, false)
    );
}

#[test]
fn viewport_size_rebuilds_screen_projection() {
    let mut ctx = new_context();
    set_viewport_size(&mut ctx, 1024, 768, 2048, 1536);
    assert_eq!(
        ctx.projection,
        Projection {
            width: 1024,
            height: 768,
            flipped: false
        }
    );
    assert_eq!(
        ctx.commands.last().unwrap(),
        &DeviceCommand::SetViewport {
            x: 0,
            y: 0,
            width: 2048,
            height: 1536
        }
    );
}

#[test]
fn viewport_size_under_canvas_only_bookkeeps() {
    let mut ctx = new_context();
    let canvas = Canvas::new(20, 256, 256, false, 21);
    set_canvas(&mut ctx, &canvas);
    let commands_before = ctx.commands.len();
    let projection_before = ctx.projection;
    set_viewport_size(&mut ctx, 1024, 768, 2048, 1536);
    assert_eq!(ctx.commands.len(), commands_before);
    assert_eq!(ctx.projection, projection_before);
    // The new size takes effect when the canvas is detached.
    tetra::reset_canvas(&mut ctx);
    assert_eq!(
        ctx.projection,
        Projection {
            width: 1024,
            height: 768,
            flipped: false
        }
    );
}

#[test]
fn scissor_reaching_bottom_edge_maps_to_zero() {
    let mut ctx = new_context();
    // A scissor rectangle reaching exactly the bottom edge maps to y = 0.
    set_scissor(&mut ctx, Rectangle::new(0, 100, 50, 500));
    assert_eq!(
        ctx.commands[ctx.commands.len() - 2],
        DeviceCommand::SetScissor {
            x: 0,
            y: 0,
            width: 50,
            height: 500
        }
    );
}
