use gl_context::buffer::{Buffer, BufferType};
use gl_context::context::{DrawMode, GlContext, Mat4, COLOR_BUFFER_BIT, ONE_MINUS_SRC_ALPHA, SRC_ALPHA};
use gl_context::rectangle::{quad_indices, quad_vertices, Coordinates, Rectangle};
use gl_context::render_target::{draw_indices, draw_vertices};
use gl_context::shaders::{OurShader, ShaderAttribute};

fn stock_attributes() -> Vec<ShaderAttribute> {
    vec![
        ShaderAttribute { name: String::from("position"), size: 3 },
        ShaderAttribute { name: String::from("color"), size: 3 },
        ShaderAttribute { name: String::from("texcoord"), size: 2 },
    ]
}

fn mat_of(seed: u32) -> Mat4 {
    let mut bits = [0u32; 16];
    let mut i = 0;
    while i < 16 {
        bits[i] = seed + i as u32;
        i += 1;
    }
    Mat4 { bits }
}

#[test]
fn each_draw_runs_under_the_transform_of_its_own_call() {
    let mut ctx = GlContext::new();
    let shader = OurShader::new(&mut ctx, "vs", "fs", stock_attributes());
    let mut vertices: Buffer<f32> = Buffer::new(&mut ctx, BufferType::Array);
    let mut indices: Buffer<u16> = Buffer::new(&mut ctx, BufferType::IndexArray);
    vertices.push(&[0.0; 24]);
    let n = vertices.len();
    vertices.upload_data(&mut ctx, 0, n, true);
    indices.set_data(&[0, 1, 2]);
    let n = indices.len();
    indices.upload_data(&mut ctx, 0, n, true);

    let first_transform = mat_of(100);
    let second_transform = mat_of(900);
    draw_indices(
        &mut ctx,
        DrawMode::Triangles,
        &vertices,
        &indices,
        Some(&shader),
        &first_transform,
    );
    draw_indices(
        &mut ctx,
        DrawMode::Triangles,
        &vertices,
        &indices,
        Some(&shader),
        &second_transform,
    );

    assert_eq!(ctx.draw_count(), 2);
    // No uniform state leaks between the calls: the first record still
    // carries the first transform after the second draw.
    assert_eq!(ctx.draw_at(0).transform, Some(first_transform));
    assert_eq!(ctx.draw_at(1).transform, Some(second_transform));
    assert_eq!(ctx.draw_at(0).program, Some(shader.program()));

    indices.destroy(&mut ctx);
    vertices.destroy(&mut ctx);
    shader.destroy(&mut ctx);
}

#[test]
fn a_draw_observes_the_device_store_not_the_mirror() {
    let mut ctx = GlContext::new();
    let shader = OurShader::new(&mut ctx, "vs", "fs", stock_attributes());
    let vertices: Buffer<f32> = Buffer::new(&mut ctx, BufferType::Array);
    let mut indices: Buffer<u16> = Buffer::new(&mut ctx, BufferType::IndexArray);

    indices.set_data(&[0, 1, 2]);
    let n = indices.len();
    indices.upload_data(&mut ctx, 0, n, true);
    // Mutate the mirror after the upload: the next draw must not see it.
    indices.push(&[0, 2, 3]);

    let transform = mat_of(7);
    draw_indices(&mut ctx, DrawMode::Triangles, &vertices, &indices, Some(&shader), &transform);
    assert_eq!(ctx.draw_at(0).indices, vec![0, 1, 2]);
    assert_eq!(ctx.draw_at(0).count, 3);

    // Upload, and the next draw sees the full mirror.
    let n = indices.len();
    indices.upload_data(&mut ctx, 0, n, true);
    draw_indices(&mut ctx, DrawMode::Triangles, &vertices, &indices, Some(&shader), &transform);
    assert_eq!(ctx.draw_at(1).indices, vec![0, 1, 2, 0, 2, 3]);
    assert_eq!(ctx.draw_at(1).count, 6);

    indices.destroy(&mut ctx);
    vertices.destroy(&mut ctx);
    shader.destroy(&mut ctx);
}

#[test]
fn every_submission_forces_the_alpha_blend_policy() {
    let mut ctx = GlContext::new();
    let vertices: Buffer<f32> = Buffer::new(&mut ctx, BufferType::Array);
    let mut indices: Buffer<u16> = Buffer::new(&mut ctx, BufferType::IndexArray);
    indices.set_data(&[0]);
    let n = indices.len();
    indices.upload_data(&mut ctx, 0, n, true);

    draw_indices(&mut ctx, DrawMode::Points, &vertices, &indices, None, &mat_of(1));
    assert_eq!(SRC_ALPHA, 0x0302);
    assert_eq!(ONE_MINUS_SRC_ALPHA, 0x0303);
    // A draw without a shader runs under no program and no transform.
    assert_eq!(ctx.draw_at(0).program, None);
    assert_eq!(ctx.draw_at(0).transform, None);

    indices.destroy(&mut ctx);
    vertices.destroy(&mut ctx);
}

#[test]
fn quad_vertices_interleave_position_color_and_texcoords() {
    let pos = Coordinates { x1: -1.0f32, y1: -1.0, x2: 1.0, y2: 1.0 };
    let quad = quad_vertices(pos, (1.0, 0.0, 0.0), 0.0, 1.0);
    let expected: Vec<f32> = vec![
        -1.0, -1.0, 0.0, 1.0, 0.0, 0.0, 0.0, 0.0, //
        1.0, -1.0, 0.0, 1.0, 0.0, 0.0, 1.0, 0.0, //
        1.0, 1.0, 0.0, 1.0, 0.0, 0.0, 1.0, 1.0, //
        -1.0, 1.0, 0.0, 1.0, 0.0, 0.0, 0.0, 1.0,
    ];
    assert_eq!(quad, expected);
    assert_eq!(quad_indices(), vec![0, 1, 2, 0, 2, 3]);
}

#[test]
fn a_rectangle_uploads_its_quad_and_draws_it_indexed() {
    let mut ctx = GlContext::new();
    let pos = Coordinates { x1: -1.0f32, y1: -1.0, x2: 1.0, y2: 1.0 };
    let rect = Rectangle::new(&mut ctx, pos, (1.0, 0.0, 0.0), 0.0, 1.0);
    assert_eq!(ctx.live_handles(), 2);

    rect.draw_transformed(&mut ctx, &mat_of(3));
    assert_eq!(ctx.draw_count(), 1);
    assert_eq!(ctx.draw_at(0).indices, vec![0, 1, 2, 0, 2, 3]);
    assert_eq!(ctx.draw_at(0).count, 6);
    assert_eq!(ctx.draw_at(0).transform, None);

    let none = rect.destroy(&mut ctx);
    assert!(none.is_none());
    assert_eq!(ctx.live_handles(), 0);
}

#[test]
fn a_rectangle_with_a_shader_draws_under_it() {
    let mut ctx = GlContext::new();
    let shader = OurShader::new(&mut ctx, "vs", "fs", stock_attributes());
    let program = shader.program();
    let pos = Coordinates { x1: 0.0f32, y1: 0.0, x2: 2.0, y2: 3.0 };
    let mut rect = Rectangle::new(&mut ctx, pos, (0.0, 1.0, 0.0), 0.0, 1.0);
    rect.set_shader(Some(shader));
    assert!(rect.get_shader().is_some());

    let transform = mat_of(11);
    rect.draw_transformed(&mut ctx, &transform);
    assert_eq!(ctx.draw_at(0).program, Some(program));
    assert_eq!(ctx.draw_at(0).transform, Some(transform));

    rect.set_position(&mut ctx, Coordinates { x1: 5.0, y1: 5.0, x2: 6.0, y2: 6.0 });
    rect.draw_transformed(&mut ctx, &transform);
    assert_eq!(ctx.draw_count(), 2);

    let shader = rect.destroy(&mut ctx).unwrap();
    shader.destroy(&mut ctx);
    assert_eq!(ctx.live_handles(), 0);
}

#[test]
fn a_transform_carries_the_exact_scalar_bits() {
    // The layer hands matrices through bit-for-bit; build one from a
    // real matrix the way a native adapter would.
    let matrix = nalgebra::Matrix4::<f32>::identity();
    let mut bits = [0u32; 16];
    for (i, v) in matrix.as_slice().iter().enumerate() {
        bits[i] = v.to_bits();
    }
    let mat = Mat4 { bits };
    assert_eq!(mat.bits[0], 1.0f32.to_bits());
    assert_eq!(mat.bits[1], 0.0f32.to_bits());
    assert_eq!(mat.bits[5], 1.0f32.to_bits());
}

#[test]
fn the_non_indexed_variant_draws_sequential_vertices() {
    let mut ctx = GlContext::new();
    let shader = OurShader::new(&mut ctx, "vs", "fs", stock_attributes());
    let mut vertices: Buffer<f32> = Buffer::new(&mut ctx, BufferType::Array);
    vertices.push(&[0.25; 16]);
    let n = vertices.len();
    vertices.upload_data(&mut ctx, 0, n, false);

    let transform = mat_of(55);
    draw_vertices(&mut ctx, DrawMode::TriangleStrip, &vertices, Some(&shader), &transform, 0, 2);

    let record = ctx.draw_at(0);
    assert!(!record.indexed);
    assert_eq!(record.first, 0);
    assert_eq!(record.count, 2);
    assert_eq!(record.element_buffer, None);
    assert_eq!(record.transform, Some(transform));
    assert!(record.indices.is_empty());

    vertices.destroy(&mut ctx);
    shader.destroy(&mut ctx);
}

#[test]
fn clears_are_kept_in_program_order() {
    let mut ctx = GlContext::new();
    assert_eq!(ctx.clear_count(), 0);
    ctx.clear_color(0, 0, 0, 0x3F800000);
    ctx.clear(COLOR_BUFFER_BIT);
    ctx.clear(COLOR_BUFFER_BIT);
    assert_eq!(ctx.clear_count(), 2);
}

#[test]
fn draw_modes_use_the_backend_numbering() {
    assert_eq!(DrawMode::Points.gl_mode(), 0);
    assert_eq!(DrawMode::Lines.gl_mode(), 1);
    assert_eq!(DrawMode::LineLoop.gl_mode(), 2);
    assert_eq!(DrawMode::LineStrip.gl_mode(), 3);
    assert_eq!(DrawMode::Triangles.gl_mode(), 4);
    assert_eq!(DrawMode::TriangleStrip.gl_mode(), 5);
    assert_eq!(DrawMode::TriangleFan.gl_mode(), 6);
}
