//! Batch accumulation, capacity and flush behaviour.

use tetra::{
    flush, push_quad, set_texture, Context, DeviceCommand, DrawParams, FilterMode,
    GraphicsDeviceInfo, Texture, MAX_INDICES, MAX_VERTICES,
};

fn new_context() -> Context {
    Context::new(
        640,
        480,
        640,
        480,
        GraphicsDeviceInfo {
            vendor: String::from("test vendor"),
            renderer: String::from("test renderer"),
            api_version: String::from("1.0"),
            shader_language_version: String::from("1.0"),
        },
    )
}

fn draw_count(ctx: &Context) -> usize {
    ctx.commands
        .iter()
        .filter(|c| matches!(c, DeviceCommand::Draw { .. }))
        .count()
}

#[test]
fn push_counts_are_six_and_four_per_quad() {
    let mut ctx = new_context();
    let params = DrawParams::new();
    for n in 1..=10u64 {
        push_quad(&mut ctx, 0, 0, 16, 16, 0, 0, 1, 1, &params);
        assert_eq!(ctx.element_count, 6 * n as usize);
        assert_eq!(ctx.vertex_data.len(), 4 * n as usize);
    }
}

#[test]
fn flush_resets_counts_to_zero() {
    let mut ctx = new_context();
    let texture = Texture::new(3, 16, 16, FilterMode::Nearest);
    set_texture(&mut ctx, &texture);
    let params = DrawParams::new();
    push_quad(&mut ctx, 0, 0, 16, 16, 0, 0, 1, 1, &params);
    push_quad(&mut ctx, 16, 0, 32, 16, 0, 0, 1, 1, &params);
    assert_eq!(ctx.element_count, 12);
    assert_eq!(ctx.vertex_data.len(), 8);
    flush(&mut ctx);
    assert_eq!(ctx.element_count, 0);
    assert_eq!(ctx.vertex_data.len(), 0);
    assert_eq!(draw_count(&ctx), 1);
}

#[test]
fn push_2049_quads_flushes_exactly_once() {
    let mut ctx = new_context();
    let texture = Texture::new(3, 16, 16, FilterMode::Nearest);
    set_texture(&mut ctx, &texture);
    let params = DrawParams::new();
    for _ in 0..2049 {
        push_quad(&mut ctx, 0, 0, 16, 16, 0, 0, 1, 1, &params);
        assert!(ctx.element_count <= MAX_INDICES);
        assert!(ctx.vertex_data.len() <= MAX_VERTICES);
    }
    // Exactly one implicit flush mid-sequence, so exactly one draw call...
    assert_eq!(draw_count(&ctx), 1);
    // ...and the final batch holds exactly one quad's worth of geometry.
    assert_eq!(ctx.element_count, 6);
    assert_eq!(ctx.vertex_data.len(), 4);
    // The flushed draw call covered the full batch.
    let draw = ctx
        .commands
        .iter()
        .find(|c| matches!(c, DeviceCommand::Draw { .. }))
        .unwrap();
    match draw {
        DeviceCommand::Draw { element_count, .. } => assert_eq!(*element_count, MAX_INDICES),
        _ => unreachable!(),
    }
}

#[test]
fn exactly_2048_quads_do_not_flush() {
    let mut ctx = new_context();
    let texture = Texture::new(3, 16, 16, FilterMode::Nearest);
    set_texture(&mut ctx, &texture);
    let params = DrawParams::new();
    for _ in 0..2048 {
        push_quad(&mut ctx, 0, 0, 16, 16, 0, 0, 1, 1, &params);
    }
    assert_eq!(draw_count(&ctx), 0);
    assert_eq!(ctx.element_count, MAX_INDICES);
    assert_eq!(ctx.vertex_data.len(), MAX_VERTICES);
}

#[test]
fn flush_without_texture_drops_batch_silently() {
    let mut ctx = new_context();
    let params = DrawParams::new();
    push_quad(&mut ctx, 0, 0, 16, 16, 0, 0, 1, 1, &params);
    let commands_before = ctx.commands.len();
    flush(&mut ctx);
    // The batch is cleared as a no-op: no draw call reaches the device.
    assert_eq!(ctx.element_count, 0);
    assert_eq!(ctx.vertex_data.len(), 0);
    assert_eq!(ctx.commands.len(), commands_before);
    assert_eq!(draw_count(&ctx), 0);
}

#[test]
fn flush_with_empty_batch_is_a_noop() {
    let mut ctx = new_context();
    let texture = Texture::new(3, 16, 16, FilterMode::Nearest);
    set_texture(&mut ctx, &texture);
    let commands_before = ctx.commands.len();
    flush(&mut ctx);
    assert_eq!(ctx.commands.len(), commands_before);
}

#[test]
fn flush_uploads_then_draws_pending_elements() {
    let mut ctx = new_context();
    let texture = Texture::new(9, 16, 16, FilterMode::Linear);
    set_texture(&mut ctx, &texture);
    let params = DrawParams::new();
    push_quad(&mut ctx, 0, 0, 16, 16, 0, 0, 1, 1, &params);
    let base = ctx.commands.len();
    flush(&mut ctx);
    assert_eq!(ctx.commands.len(), base + 5);
    assert!(matches!(
        ctx.commands[base],
        DeviceCommand::ApplyUniforms { .. }
    ));
    assert_eq!(ctx.commands[base + 1], DeviceCommand::SetCullFace(true));
    match &ctx.commands[base + 3] {
        DeviceCommand::UploadVertices { vertices, offset } => {
            assert_eq!(vertices.len(), 4);
            assert_eq!(*offset, 0);
        }
        other => panic!("expected an upload, found {:?}", other),
    }
    assert_eq!(
        ctx.commands[base + 4],
        DeviceCommand::Draw {
            texture: 9,
            shader: 0,
            offset: 0,
            element_count: 6,
        }
    );
}

#[test]
fn index_buffer_holds_offset_quad_pattern() {
    let ctx = new_context();
    match &ctx.commands[0] {
        DeviceCommand::SetIndexBufferData { indices } => {
            assert_eq!(indices.len(), MAX_INDICES);
            assert_eq!(&indices[0..12], &[0, 1, 2, 2, 3, 0, 4, 5, 6, 6, 7, 4]);
            assert_eq!(indices[MAX_INDICES - 1], (MAX_VERTICES - 1) as u32 - 3);
        }
        other => panic!("expected the index upload, found {:?}", other),
    }
}
