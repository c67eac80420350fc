//! The scene-asset layer: record-described meshes and material textures.

use safegl::assets::{Attribute, AttributeType, IndexedMesh, PointsMesh, Texture, Vertex};
use safegl::context::{Context, GlCall};
use safegl::error::Error;
use safegl::shader::{Shader, ShaderProgram};
use safegl::texture::ImageData;
use safegl::types::{DataType, ShaderType, TextureFormat, TextureTarget};

struct PositionNormalUv;

impl Vertex for PositionNormalUv {
    // The specification-level view of the declared fields is ghost code and
    // never runs; only the executable declaration below is exercised.
    fn spec_attributes() -> vstd::seq::Seq<Attribute> {
        panic!()
    }

    fn attributes() -> Vec<Attribute> {
        vec![
            Attribute { attribute_type: AttributeType::F32, count: 3 },
            Attribute { attribute_type: AttributeType::F32, count: 3 },
            Attribute { attribute_type: AttributeType::F32, count: 2 },
        ]
    }
}

fn enabled_program(ctx: &mut Context) -> ShaderProgram {
    let vertex = Shader::new(ctx, "void main() {}", ShaderType::Vertex).unwrap();
    let program = ShaderProgram::new(ctx, std::slice::from_ref(&vertex)).unwrap();
    vertex.destroy(ctx);
    program.enable(ctx).unwrap();
    program
}

#[test]
fn indexed_mesh_draws_by_its_index_count() {
    let mut ctx = Context::new();
    let _program = enabled_program(&mut ctx);
    let vertices = [PositionNormalUv, PositionNormalUv, PositionNormalUv];
    let indices: [u32; 6] = [0, 1, 2, 2, 1, 0];
    let mesh = IndexedMesh::new(&mut ctx, &indices, &vertices, Vec::new()).unwrap();
    assert_eq!(mesh.num_indices, 6);
    let before = ctx.calls.len();
    mesh.draw(&mut ctx).unwrap();
    let draws: Vec<&GlCall> = ctx.calls[before..]
        .iter()
        .filter(|c| matches!(c, GlCall::DrawElements { .. }))
        .collect();
    assert_eq!(draws.len(), 1);
    assert!(matches!(
        draws[0],
        GlCall::DrawElements { count: 6, index_type: DataType::U32, .. }
    ));
}

#[test]
fn indexed_mesh_describes_fields_with_running_offsets() {
    let mut ctx = Context::new();
    let _program = enabled_program(&mut ctx);
    let vertices = [PositionNormalUv];
    let indices: [u32; 3] = [0, 0, 0];
    let _mesh = IndexedMesh::new(&mut ctx, &indices, &vertices, Vec::new()).unwrap();
    let described: Vec<(u32, u32, u32)> = ctx
        .calls
        .iter()
        .filter_map(|c| match c {
            GlCall::VertexAttributePointer { index, stride, offset, .. } => {
                Some((*index, *stride, *offset))
            },
            _ => None,
        })
        .collect();
    assert_eq!(described, vec![(0, 32, 0), (1, 32, 12), (2, 32, 24)]);
}

#[test]
fn points_mesh_draw_size_is_records_times_components() {
    let mut ctx = Context::new();
    let _program = enabled_program(&mut ctx);
    let vertices = [PositionNormalUv, PositionNormalUv];
    let mesh = PointsMesh::new(&mut ctx, &vertices, Vec::new()).unwrap();
    assert_eq!(mesh.num_points, 2 * 8);
    let before = ctx.calls.len();
    mesh.draw(&mut ctx).unwrap();
    let draws = ctx.calls[before..]
        .iter()
        .filter(|c| matches!(c, GlCall::DrawArrays { count: 16, .. }))
        .count();
    assert_eq!(draws, 1);
}

#[test]
fn indexed_mesh_destroy_deletes_each_handle_once() {
    let mut ctx = Context::new();
    let _program = enabled_program(&mut ctx);
    let vertices = [PositionNormalUv];
    let indices: [u32; 3] = [0, 0, 0];
    let mesh = IndexedMesh::new(&mut ctx, &indices, &vertices, Vec::new()).unwrap();
    let before = ctx.calls.len();
    let _textures = mesh.destroy(&mut ctx);
    let segment = &ctx.calls[before..];
    assert_eq!(segment.len(), 3);
    assert!(matches!(segment[0], GlCall::DeleteBuffer { .. }));
    assert!(matches!(segment[1], GlCall::DeleteBuffer { .. }));
    assert!(matches!(segment[2], GlCall::DeleteVertexArray { .. }));
}

fn material_program(ctx: &mut Context) -> ShaderProgram {
    let vertex = Shader::new(ctx, "void main() {}", ShaderType::Vertex).unwrap();
    let fragment = Shader::new(
        ctx,
        "uniform sampler2D surface; void main() { surface; }",
        ShaderType::Fragment,
    )
    .unwrap();
    let shaders = vec![vertex, fragment];
    let program = ShaderProgram::new(ctx, &shaders).unwrap();
    for shader in shaders {
        shader.destroy(ctx);
    }
    program
}

#[test]
fn asset_texture_resolves_its_sampler_and_uploads() {
    let mut ctx = Context::new();
    let program = material_program(&mut ctx);
    let image = ImageData {
        pixels: vec![9u8; 2 * 2 * 4],
        width: 2,
        height: 2,
        format: TextureFormat::RGBA,
    };
    let texture =
        Texture::from_memory_2d(&mut ctx, &program, "surface", 0, &image).unwrap();
    assert!(ctx.texture_is_live(texture.id));
    let uploads = ctx
        .calls
        .iter()
        .filter(|c| matches!(c, GlCall::TexImage2D { target: TextureTarget::Image2D, .. }))
        .count();
    assert_eq!(uploads, 1);
    let sampler_sets = ctx
        .calls
        .iter()
        .filter(|c| matches!(c, GlCall::Uniform1I { value: 0, .. }))
        .count();
    assert_eq!(sampler_sets, 1);
}

#[test]
fn asset_texture_with_unknown_sampler_fails() {
    let mut ctx = Context::new();
    let program = material_program(&mut ctx);
    let image = ImageData {
        pixels: vec![9u8; 3],
        width: 1,
        height: 1,
        format: TextureFormat::RGB,
    };
    let result = Texture::from_memory_2d(&mut ctx, &program, "absent", 0, &image);
    assert!(matches!(result, Err(Error::MissingUniform(_))));
}
