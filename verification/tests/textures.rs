//! Texture uploads and the sampler-binding proxy.

use safegl::context::{Context, GlCall};
use safegl::error::Error;
use safegl::shader::{Shader, ShaderProgram};
use safegl::texture::{
    CubeMap, ImageData, ShaderProgramTexture, TextureCubeMap, TextureImage2D,
};
use safegl::types::{ShaderType, TextureFormat, TextureTarget};

fn sampler_program(ctx: &mut Context) -> ShaderProgram {
    let vertex = Shader::new(ctx, "void main() {}", ShaderType::Vertex).unwrap();
    let fragment = Shader::new(
        ctx,
        "uniform sampler2D sprite; void main() { sprite; }",
        ShaderType::Fragment,
    )
    .unwrap();
    let shaders = vec![vertex, fragment];
    let program = ShaderProgram::new(ctx, &shaders).unwrap();
    for shader in shaders {
        shader.destroy(ctx);
    }
    program
}

fn grey_face(width: u32, height: u32) -> ImageData {
    ImageData {
        pixels: vec![127u8; (width * height * 3) as usize],
        width,
        height,
        format: TextureFormat::RGB,
    }
}

#[test]
fn load_from_memory_uploads_the_pixels_once() {
    let mut ctx = Context::new();
    let pixels = [255u8; 4 * 4 * 3];
    let texture =
        TextureImage2D::load_from_memory(&mut ctx, &pixels, TextureFormat::RGB, 4, 4).unwrap();
    let uploads: Vec<&GlCall> = ctx
        .calls
        .iter()
        .filter(|c| matches!(c, GlCall::TexImage2D { .. }))
        .collect();
    assert_eq!(uploads.len(), 1);
    assert!(matches!(
        uploads[0],
        GlCall::TexImage2D { width: 4, height: 4, byte_len: 48, has_data: true, .. }
    ));
    assert!(ctx.texture_is_live(texture.id));
}

#[test]
fn cube_map_uploads_six_faces_into_one_handle() {
    let mut ctx = Context::new();
    let faces = CubeMap {
        right: grey_face(2, 2),
        left: grey_face(2, 2),
        top: grey_face(2, 2),
        bottom: grey_face(2, 2),
        back: grey_face(2, 2),
        front: grey_face(2, 2),
    };
    let texture = TextureCubeMap::load_from_memory(&mut ctx, &faces).unwrap();
    let face_uploads = ctx
        .calls
        .iter()
        .filter(|c| {
            matches!(
                c,
                GlCall::TexImage2D { target: TextureTarget::CubeMapFace(_), .. }
            )
        })
        .count();
    assert_eq!(face_uploads, 6);
    let gens = ctx
        .calls
        .iter()
        .filter(|c| matches!(c, GlCall::GenTexture { .. }))
        .count();
    assert_eq!(gens, 1);
    assert!(ctx.texture_is_live(texture.id));
}

#[test]
fn texture_unit_is_selected_before_the_texture_is_bound() {
    let mut ctx = Context::new();
    let program = sampler_program(&mut ctx);
    let pixels = [0u8; 3];
    let texture =
        TextureImage2D::load_from_memory(&mut ctx, &pixels, TextureFormat::RGB, 1, 1).unwrap();
    let proxy =
        ShaderProgramTexture::new(&mut ctx, &texture, &program, "sprite", 3).unwrap();
    let before = ctx.calls.len();
    proxy.draw(&mut ctx).unwrap();
    let segment = &ctx.calls[before..];
    assert_eq!(segment.len(), 2);
    assert!(matches!(segment[0], GlCall::ActiveTexture { unit: 3 }));
    assert!(matches!(
        segment[1],
        GlCall::BindTexture { target: TextureTarget::Image2D, .. }
    ));
}

#[test]
fn missing_sampler_name_is_a_missing_resource_error() {
    let mut ctx = Context::new();
    let program = sampler_program(&mut ctx);
    let pixels = [0u8; 3];
    let texture =
        TextureImage2D::load_from_memory(&mut ctx, &pixels, TextureFormat::RGB, 1, 1).unwrap();
    let result = ShaderProgramTexture::new(&mut ctx, &texture, &program, "nothing", 0);
    assert!(matches!(result, Err(Error::MissingUniform(_))));
}

#[test]
fn texture_unit_out_of_range_fails_the_bind() {
    let mut ctx = Context::new();
    let program = sampler_program(&mut ctx);
    let pixels = [0u8; 3];
    let texture =
        TextureImage2D::load_from_memory(&mut ctx, &pixels, TextureFormat::RGB, 1, 1).unwrap();
    let proxy =
        ShaderProgramTexture::new(&mut ctx, &texture, &program, "sprite", 40).unwrap();
    let result = proxy.draw(&mut ctx);
    assert!(matches!(
        result,
        Err(Error::Driver(safegl::sys::Error::InvalidEnum))
    ));
}

#[test]
fn texture_destroy_issues_one_delete() {
    let mut ctx = Context::new();
    let pixels = [0u8; 3];
    let texture =
        TextureImage2D::load_from_memory(&mut ctx, &pixels, TextureFormat::RGB, 1, 1).unwrap();
    let id = texture.id;
    texture.destroy(&mut ctx);
    let deletes = ctx
        .calls
        .iter()
        .filter(|c| matches!(c, GlCall::DeleteTexture { id: deleted } if *deleted == id))
        .count();
    assert_eq!(deletes, 1);
    assert!(!ctx.texture_is_live(id));
}
