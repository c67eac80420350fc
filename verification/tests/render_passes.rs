//! Lighting programs, frame buffers, and model drawing.

use safegl::context::{Context, GlCall};
use safegl::error::Error;
use safegl::mesh::Mesh;
use safegl::model::{Model, TexturedMesh};
use safegl::render::{DirectionalProgram, FrameBuffer, PointLightProgram};
use safegl::shader::{Shader, ShaderProgram};
use safegl::texture::TextureImage2D;
use safegl::types::{
    BufferAttribute, DataType, FrameBufferAttachment, ShaderType, TextureFormat,
    VertexAttributeSize,
};

const LIT_VERTEX_SRC: &str =
    "uniform mat4 model; uniform mat4 view; uniform mat4 projection; void main() {}";

const DIRECTIONAL_FRAGMENT_SRC: &str = "uniform vec3 view_pos; uniform float material.shininess; \
     uniform vec3 light.direction; uniform vec3 light.ambient; uniform vec3 light.diffuse; \
     uniform vec3 light.specular; void main() {}";

const POINT_FRAGMENT_SRC: &str = "uniform vec3 view_pos; uniform float material.shininess; \
     uniform vec3 light.position; uniform vec3 light.ambient; uniform vec3 light.diffuse; \
     uniform vec3 light.specular; uniform float light.attenuation_linear; \
     uniform float light.attenuation_quadratic; void main() {}";

#[test]
fn directional_program_resolves_every_uniform() {
    let mut ctx = Context::new();
    let program =
        DirectionalProgram::new(&mut ctx, LIT_VERTEX_SRC, DIRECTIONAL_FRAGMENT_SRC).unwrap();
    // Locations name the first stage source referencing each name.
    assert_eq!(program.model, 0);
    assert_eq!(program.view_pos, 1);
    assert_eq!(program.direction, 1);
}

#[test]
fn directional_program_with_a_missing_uniform_fails() {
    let mut ctx = Context::new();
    let result = DirectionalProgram::new(&mut ctx, LIT_VERTEX_SRC, "void main() {}");
    assert!(matches!(result, Err(Error::MissingUniform(_))));
}

#[test]
fn point_light_program_resolves_and_sets_its_light() {
    let mut ctx = Context::new();
    let program =
        PointLightProgram::new(&mut ctx, LIT_VERTEX_SRC, POINT_FRAGMENT_SRC).unwrap();
    let before = ctx.calls.len();
    program
        .set_light(
            &mut ctx,
            32.0f32.to_bits(),
            0.2f32.to_bits(),
            1.0f32.to_bits(),
            1.0f32.to_bits(),
            0.12f32.to_bits(),
            0.032f32.to_bits(),
        )
        .unwrap();
    assert_eq!(ctx.calls.len() - before, 6);
    assert!(matches!(
        ctx.calls[before],
        GlCall::Uniform1F { bits, .. } if bits == 32.0f32.to_bits()
    ));
}

#[test]
fn set_mvp_enables_the_program_first() {
    let mut ctx = Context::new();
    let program =
        DirectionalProgram::new(&mut ctx, LIT_VERTEX_SRC, DIRECTIONAL_FRAGMENT_SRC).unwrap();
    let identity_bits = [0u32; 16];
    let before = ctx.calls.len();
    program
        .set_mvp(
            &mut ctx,
            &identity_bits,
            &identity_bits,
            &identity_bits,
            &[0, 0, 0],
        )
        .unwrap();
    assert!(matches!(ctx.calls[before], GlCall::UseProgram { .. }));
    assert_eq!(ctx.current_program, program.shader.id);
}

fn frame_shader(ctx: &mut Context) -> ShaderProgram {
    let vertex = Shader::new(ctx, "void main() {}", ShaderType::Vertex).unwrap();
    let fragment = Shader::new(
        ctx,
        "uniform sampler2D frame_texture[4]; void main() { frame_texture[0]; frame_texture[1]; }",
        ShaderType::Fragment,
    )
    .unwrap();
    let shaders = vec![vertex, fragment];
    let program = ShaderProgram::new(ctx, &shaders).unwrap();
    for shader in shaders {
        shader.destroy(ctx);
    }
    program
}

#[test]
fn frame_buffer_attaches_its_colour_texture_on_bind() {
    let mut ctx = Context::new();
    let shader = frame_shader(&mut ctx);
    let frame_buffer =
        FrameBuffer::new(&mut ctx, &shader, "frame_texture[0]", 0, 64, 64).unwrap();
    let before = ctx.calls.len();
    frame_buffer.bind(&mut ctx).unwrap();
    let segment = &ctx.calls[before..];
    assert_eq!(segment.len(), 6);
    assert!(matches!(
        segment[5],
        GlCall::FrameBufferTexture2D {
            attachment: FrameBufferAttachment::Colour(0),
            texture_id,
            ..
        } if texture_id == frame_buffer.texture_image_id
    ));
    assert_eq!(ctx.bound_frame_buffer, frame_buffer.frame_buffer_id);
}

#[test]
fn display_buffer_restores_frame_buffer_zero() {
    let mut ctx = Context::new();
    let shader = frame_shader(&mut ctx);
    let frame_buffer =
        FrameBuffer::new(&mut ctx, &shader, "frame_texture[1]", 1, 64, 64).unwrap();
    frame_buffer.bind(&mut ctx).unwrap();
    FrameBuffer::enable_display_buffer(&mut ctx).unwrap();
    assert_eq!(ctx.bound_frame_buffer, 0);
}

#[test]
fn frame_buffer_with_unknown_sampler_fails() {
    let mut ctx = Context::new();
    let shader = frame_shader(&mut ctx);
    let result = FrameBuffer::new(&mut ctx, &shader, "unknown_sampler", 0, 64, 64);
    assert!(matches!(result, Err(Error::MissingUniform(_))));
}

fn material_program(ctx: &mut Context) -> ShaderProgram {
    let vertex = Shader::new(ctx, "void main() {}", ShaderType::Vertex).unwrap();
    let fragment = Shader::new(
        ctx,
        "uniform sampler2D material.diffuse; uniform sampler2D material.specular; void main() {}",
        ShaderType::Fragment,
    )
    .unwrap();
    let shaders = vec![vertex, fragment];
    let program = ShaderProgram::new(ctx, &shaders).unwrap();
    for shader in shaders {
        shader.destroy(ctx);
    }
    program
}

fn one_by_one_texture(ctx: &mut Context) -> TextureImage2D {
    let pixels = [0u8; 3];
    TextureImage2D::load_from_memory(ctx, &pixels, TextureFormat::RGB, 1, 1).unwrap()
}

#[test]
fn model_draws_every_present_material_group() {
    let mut ctx = Context::new();
    let program = material_program(&mut ctx);
    let diffuse = one_by_one_texture(&mut ctx);
    let specular = one_by_one_texture(&mut ctx);
    let vertices = [0u8; 36];
    let layout = vec![BufferAttribute::of_size_and_type(
        0,
        VertexAttributeSize::Triple,
        DataType::F32,
    )];
    program.enable(&mut ctx).unwrap();
    let mesh = Mesh::new(&mut ctx, &vertices, 3, &layout, None, None).unwrap();
    let model = Model {
        textured_meshes: vec![
            None,
            Some(TexturedMesh { diffuse, specular, meshes: vec![mesh] }),
        ],
    };
    let before = ctx.calls.len();
    model.draw(&mut ctx, &program).unwrap();
    let draws = ctx.calls[before..]
        .iter()
        .filter(|c| matches!(c, GlCall::DrawArrays { count: 3, .. }))
        .count();
    assert_eq!(draws, 1);
}

#[test]
fn model_with_no_materials_draws_nothing_and_succeeds() {
    let mut ctx = Context::new();
    let program = material_program(&mut ctx);
    let model = Model { textured_meshes: vec![None, None] };
    let before = ctx.calls.len();
    model.draw(&mut ctx, &program).unwrap();
    assert_eq!(ctx.calls.len(), before);
}
