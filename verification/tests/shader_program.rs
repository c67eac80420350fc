//! Shader compilation, program linking, and uniform resolution.

use safegl::context::Context;
use safegl::sys;
use safegl::types::ShaderParameter;
use safegl::error::Error;
use safegl::shader::{Shader, ShaderProgram};
use safegl::types::ShaderType;

const VERTEX_SRC: &str = "uniform mat4 model; uniform mat4 view; void main() { model; view; }";

const FRAGMENT_SRC: &str = "uniform vec3 tint; void main() { tint; }";

#[test]
fn valid_source_compiles() {
    let mut ctx = Context::new();
    let shader = Shader::new(&mut ctx, VERTEX_SRC, ShaderType::Vertex).unwrap();
    shader.destroy(&mut ctx);
}

#[test]
fn invalid_source_fails_with_a_non_empty_log() {
    let mut ctx = Context::new();
    let result = Shader::new(&mut ctx, "not a shader at all", ShaderType::Fragment);
    match result {
        Err(Error::ShaderCompile(log)) => assert!(!log.is_empty()),
        other => panic!("expected a compile error, got {:?}", other.is_ok()),
    }
}

#[test]
fn failed_compile_releases_the_shader_handle() {
    let mut ctx = Context::new();
    let _ = Shader::new(&mut ctx, "broken", ShaderType::Vertex);
    assert!(ctx.shaders.iter().all(|s| !s.alive));
}

#[test]
fn source_with_interior_nul_is_rejected_before_the_driver() {
    let mut ctx = Context::new();
    let result = Shader::new(&mut ctx, "void main() {}\0 trailing", ShaderType::Vertex);
    assert!(matches!(
        result,
        Err(Error::Driver(safegl::sys::Error::InvalidValue))
    ));
}

#[test]
fn two_stages_link_and_detach() {
    let mut ctx = Context::new();
    let vertex = Shader::new(&mut ctx, VERTEX_SRC, ShaderType::Vertex).unwrap();
    let fragment = Shader::new(&mut ctx, FRAGMENT_SRC, ShaderType::Fragment).unwrap();
    let shaders = vec![vertex, fragment];
    let program = ShaderProgram::new(&mut ctx, &shaders).unwrap();
    // The shaders were detached after the link; the caller may destroy them.
    for shader in shaders {
        shader.destroy(&mut ctx);
    }
    program.enable(&mut ctx).unwrap();
    assert_eq!(ctx.current_program, program.id);
}

#[test]
fn duplicate_stages_fail_to_link_with_a_log() {
    let mut ctx = Context::new();
    let first = Shader::new(&mut ctx, FRAGMENT_SRC, ShaderType::Fragment).unwrap();
    let second = Shader::new(&mut ctx, "void main() {}", ShaderType::Fragment).unwrap();
    let shaders = vec![first, second];
    let result = ShaderProgram::new(&mut ctx, &shaders);
    match result {
        Err(Error::ProgramLink(log)) => assert!(!log.is_empty()),
        other => panic!("expected a link error, got {:?}", other.is_ok()),
    }
}

#[test]
fn uniform_referenced_in_vertex_stage_resolves() {
    let mut ctx = Context::new();
    let vertex = Shader::new(&mut ctx, VERTEX_SRC, ShaderType::Vertex).unwrap();
    let fragment = Shader::new(&mut ctx, FRAGMENT_SRC, ShaderType::Fragment).unwrap();
    let shaders = vec![vertex, fragment];
    let program = ShaderProgram::new(&mut ctx, &shaders).unwrap();
    assert!(program.locate_uniform(&mut ctx, "model").is_ok());
}

#[test]
fn uniform_referenced_in_fragment_stage_resolves() {
    let mut ctx = Context::new();
    let vertex = Shader::new(&mut ctx, VERTEX_SRC, ShaderType::Vertex).unwrap();
    let fragment = Shader::new(&mut ctx, FRAGMENT_SRC, ShaderType::Fragment).unwrap();
    let shaders = vec![vertex, fragment];
    let program = ShaderProgram::new(&mut ctx, &shaders).unwrap();
    assert!(program.locate_uniform(&mut ctx, "tint").is_ok());
}

#[test]
fn missing_uniform_is_a_missing_resource_error_never_a_driver_error() {
    let mut ctx = Context::new();
    let vertex = Shader::new(&mut ctx, VERTEX_SRC, ShaderType::Vertex).unwrap();
    let fragment = Shader::new(&mut ctx, FRAGMENT_SRC, ShaderType::Fragment).unwrap();
    let shaders = vec![vertex, fragment];
    let program = ShaderProgram::new(&mut ctx, &shaders).unwrap();
    let result = program.locate_uniform(&mut ctx, "absent_name");
    match result {
        Err(Error::MissingUniform(name)) => assert_eq!(name, "absent_name"),
        other => panic!("expected a missing-uniform error, got {:?}", other.is_ok()),
    }
}

#[test]
fn uniform_location_names_the_first_referencing_stage() {
    let mut ctx = Context::new();
    let vertex = Shader::new(&mut ctx, VERTEX_SRC, ShaderType::Vertex).unwrap();
    let fragment = Shader::new(&mut ctx, FRAGMENT_SRC, ShaderType::Fragment).unwrap();
    let shaders = vec![vertex, fragment];
    let program = ShaderProgram::new(&mut ctx, &shaders).unwrap();
    assert_eq!(program.locate_uniform(&mut ctx, "model").unwrap(), 0);
    assert_eq!(program.locate_uniform(&mut ctx, "tint").unwrap(), 1);
}

#[test]
fn shader_state_words_report_compile_outcome_and_sizes() {
    let mut ctx = Context::new();
    let id = sys::create_shader(&mut ctx, ShaderType::Vertex);
    sys::set_shader_source(&mut ctx, id, "void main() {}").unwrap();
    sys::compile_shader(&mut ctx, id).unwrap();
    assert_eq!(
        sys::get_shader_parameter(&mut ctx, id, ShaderParameter::CompileStatus),
        Ok(1)
    );
    assert_eq!(
        sys::get_shader_parameter(&mut ctx, id, ShaderParameter::SourceLength),
        Ok("void main() {}".len() as u32)
    );
    assert_eq!(
        sys::get_shader_parameter(&mut ctx, id, ShaderParameter::InfoLogLength),
        Ok(0)
    );

    sys::set_shader_source(&mut ctx, id, "broken").unwrap();
    sys::compile_shader(&mut ctx, id).unwrap();
    assert_eq!(
        sys::get_shader_parameter(&mut ctx, id, ShaderParameter::CompileStatus),
        Ok(0)
    );
    let log_len = sys::get_shader_parameter(&mut ctx, id, ShaderParameter::InfoLogLength).unwrap();
    assert!(log_len > 0);
    let log = sys::get_shader_info_log(&mut ctx, id, log_len).unwrap();
    assert_eq!(log.len() as u32, log_len);
    let truncated = sys::get_shader_info_log(&mut ctx, id, 6).unwrap();
    assert_eq!(truncated.len(), 6);
    assert!(log.starts_with(&truncated));
    sys::delete_shader(&mut ctx, id).unwrap();
}

#[test]
fn shader_source_reads_back_what_was_uploaded() {
    let mut ctx = Context::new();
    let id = sys::create_shader(&mut ctx, ShaderType::Fragment);
    sys::set_shader_source(&mut ctx, id, "void main() { }").unwrap();
    let len = sys::get_shader_parameter(&mut ctx, id, ShaderParameter::SourceLength).unwrap();
    let text = sys::get_shader_source(&mut ctx, id, len).unwrap();
    assert_eq!(text, "void main() { }");
    sys::delete_shader(&mut ctx, id).unwrap();
}

#[test]
fn program_destroy_clears_the_program_in_use() {
    let mut ctx = Context::new();
    let vertex = Shader::new(&mut ctx, VERTEX_SRC, ShaderType::Vertex).unwrap();
    let shaders = vec![vertex];
    let program = ShaderProgram::new(&mut ctx, &shaders).unwrap();
    program.enable(&mut ctx).unwrap();
    program.destroy(&mut ctx);
    assert_eq!(ctx.current_program, 0);
}
