use gl_context::context::{GlContext, COMPILE_STATUS, FRAGMENT_SHADER, VERTEX_SHADER};
use gl_context::shaders::{OurShader, ShaderAttribute, ShaderType};

fn stock_attributes() -> Vec<ShaderAttribute> {
    vec![
        ShaderAttribute { name: String::from("position"), size: 3 },
        ShaderAttribute { name: String::from("color"), size: 3 },
        ShaderAttribute { name: String::from("texcoord"), size: 2 },
    ]
}

#[test]
fn shader_type_codes_match_the_backend_numbering() {
    assert_eq!(ShaderType::Vertex.gl_type(), VERTEX_SHADER);
    assert_eq!(ShaderType::Fragment.gl_type(), FRAGMENT_SHADER);
}

#[test]
fn stride_is_the_sum_of_the_component_counts() {
    let mut ctx = GlContext::new();
    let shader = OurShader::new(&mut ctx, "vertex source", "fragment source", stock_attributes());

    // 3 + 3 + 2 scalars per record; four bytes per scalar.
    assert_eq!(shader.attribute_size(), 8);
    assert_eq!(shader.stride_bytes(), 32);

    shader.destroy(&mut ctx);
    assert_eq!(ctx.live_handles(), 0);
}

#[test]
fn offset_of_each_attribute_is_the_sum_of_the_counts_before_it() {
    let mut ctx = GlContext::new();
    let shader = OurShader::new(&mut ctx, "vertex source", "fragment source", stock_attributes());

    assert_eq!(shader.offset_of(0), 0);
    assert_eq!(shader.offset_of(1), 3);
    assert_eq!(shader.offset_of(2), 6);
    assert_eq!(shader.offset_of(3), 8);

    shader.destroy(&mut ctx);
}

#[test]
fn offsets_follow_any_attribute_list() {
    let mut ctx = GlContext::new();
    let attributes = vec![
        ShaderAttribute { name: String::from("a"), size: 4 },
        ShaderAttribute { name: String::from("b"), size: 1 },
        ShaderAttribute { name: String::from("c"), size: 2 },
    ];
    let shader = OurShader::new(&mut ctx, "vs", "fs", attributes);

    assert_eq!(shader.attribute_size(), 7);
    assert_eq!(shader.offset_of(1), 4);
    assert_eq!(shader.offset_of(2), 5);
    assert_eq!(shader.stride_bytes(), 28);

    shader.destroy(&mut ctx);
}

#[test]
fn construction_creates_and_destruction_releases_three_handles() {
    let mut ctx = GlContext::new();
    let before = ctx.live_handles();
    let shader = OurShader::new(&mut ctx, "vs", "fs", stock_attributes());
    assert_eq!(ctx.live_handles(), before + 3);
    shader.destroy(&mut ctx);
    assert_eq!(ctx.live_handles(), before);
}

#[test]
fn the_model_backend_reports_every_stage_as_compiled() {
    let mut ctx = GlContext::new();
    let stage = ctx.create_shader(ShaderType::Vertex);
    ctx.shader_source(stage, "whatever the compiler may think of this");
    assert_eq!(ctx.get_shader_parameter(stage, COMPILE_STATUS), Some(0));
    ctx.compile_shader(stage);
    assert_eq!(ctx.get_shader_parameter(stage, COMPILE_STATUS), Some(1));
    assert_eq!(ctx.get_shader_info_log(stage), None);
    ctx.delete_shader(stage);
}
