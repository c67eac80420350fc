//! Mesh composition and the four-way draw dispatch.

use safegl::context::{Context, GlCall};
use safegl::error::Error;
use safegl::mesh::Mesh;
use safegl::shader::{Shader, ShaderProgram};
use safegl::types::{BufferAttribute, DataType, DrawMode, ShaderType, VertexAttributeSize};

fn position_layout() -> Vec<BufferAttribute> {
    vec![BufferAttribute::of_size_and_type(
        0,
        VertexAttributeSize::Triple,
        DataType::F32,
    )]
}

fn enable_any_program(ctx: &mut Context) -> ShaderProgram {
    let vertex = Shader::new(ctx, "void main() {}", ShaderType::Vertex).unwrap();
    let program = ShaderProgram::new(ctx, std::slice::from_ref(&vertex)).unwrap();
    vertex.destroy(ctx);
    program.enable(ctx).unwrap();
    program
}

fn draw_calls(calls: &[GlCall]) -> Vec<GlCall> {
    calls
        .iter()
        .filter(|c| {
            matches!(
                c,
                GlCall::DrawArrays { .. }
                    | GlCall::DrawArraysInstanced { .. }
                    | GlCall::DrawElements { .. }
                    | GlCall::DrawElementsInstanced { .. }
            )
        })
        .copied()
        .collect()
}

#[test]
fn three_vertices_draw_one_non_indexed_call_of_count_three() {
    let mut ctx = Context::new();
    let _program = enable_any_program(&mut ctx);
    let vertices = [0u8; 36];
    let mesh = Mesh::new(&mut ctx, &vertices, 3, &position_layout(), None, None).unwrap();
    let before = ctx.calls.len();
    mesh.draw(&mut ctx, DrawMode::Triangles).unwrap();
    let issued = draw_calls(&ctx.calls[before..]);
    assert_eq!(
        issued,
        vec![GlCall::DrawArrays { mode: DrawMode::Triangles, starting_index: 0, count: 3 }]
    );
}

#[test]
fn indexed_mesh_draws_by_index_count_not_vertex_count() {
    let mut ctx = Context::new();
    let _program = enable_any_program(&mut ctx);
    let vertices = [0u8; 48];
    let indices: [u32; 6] = [0, 1, 2, 2, 3, 0];
    let mesh = Mesh::new(
        &mut ctx,
        &vertices,
        4,
        &position_layout(),
        Some(&indices),
        None,
    )
    .unwrap();
    let before = ctx.calls.len();
    mesh.draw(&mut ctx, DrawMode::Triangles).unwrap();
    let issued = draw_calls(&ctx.calls[before..]);
    assert_eq!(
        issued,
        vec![GlCall::DrawElements {
            mode: DrawMode::Triangles,
            count: 6,
            index_type: DataType::U32,
        }]
    );
}

#[test]
fn indexed_instanced_mesh_draws_by_index_and_instance_counts() {
    let mut ctx = Context::new();
    let _program = enable_any_program(&mut ctx);
    let vertices = [0u8; 48];
    let indices: [u32; 6] = [0, 1, 2, 2, 3, 0];
    let instance_layout = vec![BufferAttribute {
        index: 1,
        size: VertexAttributeSize::Triple,
        data_type: DataType::F32,
        divisor: 1,
    }];
    let instance_data = [0u8; 60];
    let mesh = Mesh::new(
        &mut ctx,
        &vertices,
        4,
        &position_layout(),
        Some(&indices),
        Some((&instance_data, 5, &instance_layout)),
    )
    .unwrap();
    let before = ctx.calls.len();
    mesh.draw(&mut ctx, DrawMode::Triangles).unwrap();
    let issued = draw_calls(&ctx.calls[before..]);
    assert_eq!(
        issued,
        vec![GlCall::DrawElementsInstanced {
            mode: DrawMode::Triangles,
            count: 6,
            index_type: DataType::U32,
            instances: 5,
        }]
    );
}

#[test]
fn instanced_non_indexed_mesh_draws_vertex_count_with_instances() {
    let mut ctx = Context::new();
    let _program = enable_any_program(&mut ctx);
    let vertices = [0u8; 36];
    let instance_layout = vec![BufferAttribute {
        index: 1,
        size: VertexAttributeSize::Triple,
        data_type: DataType::F32,
        divisor: 1,
    }];
    let instance_data = [0u8; 24];
    let mesh = Mesh::new(
        &mut ctx,
        &vertices,
        3,
        &position_layout(),
        None,
        Some((&instance_data, 2, &instance_layout)),
    )
    .unwrap();
    let before = ctx.calls.len();
    mesh.draw(&mut ctx, DrawMode::Triangles).unwrap();
    let issued = draw_calls(&ctx.calls[before..]);
    assert_eq!(
        issued,
        vec![GlCall::DrawArraysInstanced {
            mode: DrawMode::Triangles,
            starting_index: 0,
            count: 3,
            instances: 2,
        }]
    );
}

#[test]
fn draw_rebinds_and_unbinds_the_vertex_array() {
    let mut ctx = Context::new();
    let _program = enable_any_program(&mut ctx);
    let vertices = [0u8; 36];
    let mesh = Mesh::new(&mut ctx, &vertices, 3, &position_layout(), None, None).unwrap();
    assert_eq!(ctx.bound_vertex_array, 0);
    let before = ctx.calls.len();
    mesh.draw(&mut ctx, DrawMode::Points).unwrap();
    let segment = &ctx.calls[before..];
    assert_eq!(segment.len(), 3);
    assert!(matches!(segment[0], GlCall::BindVertexArray { id } if id != 0));
    assert!(matches!(segment[2], GlCall::BindVertexArray { id: 0 }));
    assert_eq!(ctx.bound_vertex_array, 0);
}

#[test]
fn draw_without_a_program_in_use_fails_with_a_state_error() {
    let mut ctx = Context::new();
    let vertices = [0u8; 36];
    let mesh = Mesh::new(&mut ctx, &vertices, 3, &position_layout(), None, None).unwrap();
    let result = mesh.draw(&mut ctx, DrawMode::Triangles);
    assert!(matches!(
        result,
        Err(Error::Driver(safegl::sys::Error::InvalidOperation))
    ));
}

#[test]
fn failed_mesh_construction_releases_every_created_handle() {
    let mut ctx = Context::new();
    let vertices = [0u8; 36];
    let bad_layout = vec![BufferAttribute::of_size_and_type(
        42,
        VertexAttributeSize::Triple,
        DataType::F32,
    )];
    let result = Mesh::new(&mut ctx, &vertices, 3, &bad_layout, None, None);
    assert!(matches!(
        result,
        Err(Error::Driver(safegl::sys::Error::InvalidValue))
    ));
    let gens = ctx
        .calls
        .iter()
        .filter(|c| matches!(c, GlCall::GenBuffer { .. } | GlCall::GenVertexArray { .. }))
        .count();
    let deletes = ctx
        .calls
        .iter()
        .filter(|c| matches!(c, GlCall::DeleteBuffer { .. } | GlCall::DeleteVertexArray { .. }))
        .count();
    assert_eq!(gens, deletes);
    assert!(ctx.buffers.iter().all(|alive| !alive));
    assert!(ctx.vertex_arrays.iter().all(|vao| !vao.alive));
}

#[test]
fn mesh_destroy_deletes_all_owned_handles_once() {
    let mut ctx = Context::new();
    let vertices = [0u8; 36];
    let indices: [u32; 3] = [0, 1, 2];
    let mesh = Mesh::new(
        &mut ctx,
        &vertices,
        3,
        &position_layout(),
        Some(&indices),
        None,
    )
    .unwrap();
    let before = ctx.calls.len();
    mesh.destroy(&mut ctx);
    let segment = &ctx.calls[before..];
    assert_eq!(segment.len(), 3);
    assert!(matches!(segment[0], GlCall::DeleteVertexArray { .. }));
    assert!(matches!(segment[1], GlCall::DeleteBuffer { .. }));
    assert!(matches!(segment[2], GlCall::DeleteBuffer { .. }));
    assert!(ctx.buffers.iter().all(|alive| !alive));
}
