//! Lighting-pass compositions: shader programs with their uniform locations
//! resolved up front, and off-screen frame buffers that render into textures
//! later composed onto the display buffer. Floating-point uniform payloads
//! cross this layer as raw 32-bit patterns; the driver does not interpret
//! them here.

use vstd::prelude::*;

use crate::context::{Context, GlCall, ProgramObj};
use crate::error::Error;
use crate::shader::{Shader, ShaderProgram};
use crate::strutil::spec_contains;
use crate::sys;
use crate::types::{
    BufferBit, DataType, Feature, FrameBufferAttachment, FrameBufferTarget, MAX_SOURCE_LEN,
    MAX_TEXTURE_UNITS, NO_ERROR, RenderBufferStorageFormat, ShaderType, TextureFormat,
    TextureParameterName, TextureParameterValue, TextureTarget,
};

verus! {

/// Bit pattern of the 32-bit floating-point value one.
pub const ONE_F32_BITS: u32 = 0x3f800000;

/// A source can cross the boundary and the modelled front end accepts it.
pub open spec fn spec_source_valid(s: Seq<char>) -> bool {
    !s.contains('\0') && s.len() <= MAX_SOURCE_LEN && sys::spec_source_accepted(s)
}

/// A uniform name is referenced by one of the two stage sources.
pub open spec fn spec_name_in_sources(vs: Seq<char>, fs: Seq<char>, name: Seq<char>) -> bool {
    spec_contains(vs, name) || spec_contains(fs, name)
}

/// The location a name resolves to in a two-stage program: the first stage
/// source that references it.
pub open spec fn spec_two_stage_location(vs: Seq<char>, fs: Seq<char>, name: Seq<char>) -> u32 {
    if spec_contains(vs, name) {
        0u32
    } else {
        1u32
    }
}

/// A two-element source list resolves a name to the first element that
/// references it.
proof fn lemma_uniform_index_two(sources: Seq<String>, name: Seq<char>)
    requires
        sources.len() == 2,
    ensures
        sys::spec_uniform_source_index(sources, name) == (if spec_contains(sources[0]@, name) {
            0int
        } else if spec_contains(sources[1]@, name) {
            1int
        } else {
            -1int
        }),
{
    assert(sources.skip(1).len() == 1);
    assert(sources.skip(1)[0] == sources[1]);
    assert(sources.skip(1).skip(1).len() == 0);
    assert(sys::spec_uniform_source_index(sources.skip(1).skip(1), name) == -1);
    assert(sys::spec_uniform_source_index(sources.skip(1), name) == (if spec_contains(
        sources[1]@,
        name,
    ) {
        0int
    } else {
        -1int
    }));
}

/// In a two-stage program a name is active exactly when one of the two
/// stage sources references it.
proof fn lemma_active_two(p: ProgramObj, vs: Seq<char>, fs: Seq<char>, name: Seq<char>)
    requires
        p.linked_sources@.len() == 2,
        p.linked_sources@[0]@ == vs,
        p.linked_sources@[1]@ == fs,
    ensures
        sys::spec_uniform_active(p, name) == spec_name_in_sources(vs, fs, name),
{
    if sys::spec_uniform_active(p, name) {
        let i = choose|i: int|
            0 <= i < p.linked_sources@.len() && spec_contains(#[trigger] p.linked_sources@[i]@, name);
        if i == 0 {
        } else {
            assert(i == 1);
        }
    }
    if spec_contains(vs, name) {
        assert(spec_contains(p.linked_sources@[0]@, name));
        assert(sys::spec_uniform_active(p, name));
    } else if spec_contains(fs, name) {
        assert(spec_contains(p.linked_sources@[1]@, name));
        assert(sys::spec_uniform_active(p, name));
    }
}

/// Compiles a vertex and a fragment stage and links them into one program.
/// Succeeds exactly when both sources are valid; the program's uniform names
/// then resolve against exactly these two sources.
fn link_two_stage_program(ctx: &mut Context, vertex_src: &str, fragment_src: &str) -> (r: Result<
    ShaderProgram,
    Error,
>)
    requires
        old(ctx).wf(),
        old(ctx).error == NO_ERROR,
        old(ctx).shaders@.len() + 2 <= u32::MAX,
        old(ctx).programs@.len() < u32::MAX,
    ensures
        final(ctx).wf(),
        final(ctx).error == NO_ERROR,
        final(ctx).same_binds(*old(ctx)),
        final(ctx).buffers == old(ctx).buffers,
        final(ctx).vertex_arrays == old(ctx).vertex_arrays,
        final(ctx).textures == old(ctx).textures,
        final(ctx).frame_buffers == old(ctx).frame_buffers,
        final(ctx).render_buffers == old(ctx).render_buffers,
        (r is Ok) == (spec_source_valid(vertex_src@) && spec_source_valid(fragment_src@)),
        r matches Ok(p) ==> {
            &&& p.valid(*final(ctx))
            &&& !old(ctx).program_live(p.id)
            &&& final(ctx).program_at(p.id).linked_sources@.len() == 2
            &&& final(ctx).program_at(p.id).linked_sources@[0]@ == vertex_src@
            &&& final(ctx).program_at(p.id).linked_sources@[1]@ == fragment_src@
        },
{
    let vertex_shader = match Shader::new(ctx, vertex_src, ShaderType::Vertex) {
        Ok(s) => s,
        Err(e) => {
            return Err(e);
        },
    };
    let fragment_shader = match Shader::new(ctx, fragment_src, ShaderType::Fragment) {
        Ok(s) => s,
        Err(e) => {
            vertex_shader.destroy(ctx);
            return Err(e);
        },
    };
    let mut stages: Vec<Shader> = Vec::new();
    stages.push(vertex_shader);
    stages.push(fragment_shader);
    let program = match ShaderProgram::new(ctx, stages.as_slice()) {
        Ok(p) => p,
        Err(e) => {
            proof {
                assert(false);
            }
            return Err(e);
        },
    };
    let fragment_shader = match stages.pop() {
        Some(s) => s,
        None => {
            proof {
                assert(false);
            }
            return Err(Error::Driver(sys::Error::InvalidOperation));
        },
    };
    let vertex_shader = match stages.pop() {
        Some(s) => s,
        None => {
            proof {
                assert(false);
            }
            return Err(Error::Driver(sys::Error::InvalidOperation));
        },
    };
    fragment_shader.destroy(ctx);
    vertex_shader.destroy(ctx);
    Ok(program)
}

/// A program lit by one directional light, with every uniform location
/// resolved at construction.
pub struct DirectionalProgram {
    pub shader: ShaderProgram,
    pub model: u32,
    pub view: u32,
    pub projection: u32,
    pub view_pos: u32,
    pub material_shininess: u32,
    pub direction: u32,
    pub ambient: u32,
    pub diffuse: u32,
    pub specular: u32,
}

impl DirectionalProgram {
    /// The owned program is live and successfully linked.
    pub open spec fn valid(self, ctx: Context) -> bool {
        self.shader.valid(ctx)
    }

    /// Builds the program from its two stage sources and resolves all nine
    /// uniform locations. Succeeds exactly when both sources are valid and
    /// every name is referenced by one of the stages.
    pub fn new(ctx: &mut Context, vertex_src: &str, fragment_src: &str) -> (r: Result<
        DirectionalProgram,
        Error,
    >)
        requires
            old(ctx).wf(),
            old(ctx).error == NO_ERROR,
            old(ctx).shaders@.len() + 2 <= u32::MAX,
            old(ctx).programs@.len() < u32::MAX,
        ensures
            final(ctx).wf(),
            final(ctx).error == NO_ERROR,
            final(ctx).buffers == old(ctx).buffers,
            final(ctx).vertex_arrays == old(ctx).vertex_arrays,
            final(ctx).textures == old(ctx).textures,
            final(ctx).frame_buffers == old(ctx).frame_buffers,
            final(ctx).render_buffers == old(ctx).render_buffers,
            (r is Ok) == (spec_source_valid(vertex_src@) && spec_source_valid(fragment_src@)
                && spec_name_in_sources(vertex_src@, fragment_src@, "model"@)
                && spec_name_in_sources(vertex_src@, fragment_src@, "view"@)
                && spec_name_in_sources(vertex_src@, fragment_src@, "projection"@)
                && spec_name_in_sources(vertex_src@, fragment_src@, "view_pos"@)
                && spec_name_in_sources(vertex_src@, fragment_src@, "material.shininess"@)
                && spec_name_in_sources(vertex_src@, fragment_src@, "light.direction"@)
                && spec_name_in_sources(vertex_src@, fragment_src@, "light.ambient"@)
                && spec_name_in_sources(vertex_src@, fragment_src@, "light.diffuse"@)
                && spec_name_in_sources(vertex_src@, fragment_src@, "light.specular"@)),
            r matches Ok(dp) ==> {
                &&& dp.valid(*final(ctx))
                &&& final(ctx).current_program == dp.shader.id
                &&& dp.model == spec_two_stage_location(vertex_src@, fragment_src@, "model"@)
                &&& dp.view == spec_two_stage_location(vertex_src@, fragment_src@, "view"@)
                &&& dp.projection == spec_two_stage_location(
                    vertex_src@,
                    fragment_src@,
                    "projection"@,
                )
                &&& dp.view_pos == spec_two_stage_location(vertex_src@, fragment_src@, "view_pos"@)
                &&& dp.material_shininess == spec_two_stage_location(
                    vertex_src@,
                    fragment_src@,
                    "material.shininess"@,
                )
                &&& dp.direction == spec_two_stage_location(
                    vertex_src@,
                    fragment_src@,
                    "light.direction"@,
                )
                &&& dp.ambient == spec_two_stage_location(
                    vertex_src@,
                    fragment_src@,
                    "light.ambient"@,
                )
                &&& dp.diffuse == spec_two_stage_location(
                    vertex_src@,
                    fragment_src@,
                    "light.diffuse"@,
                )
                &&& dp.specular == spec_two_stage_location(
                    vertex_src@,
                    fragment_src@,
                    "light.specular"@,
                )
            },
    {
        let shader = match link_two_stage_program(ctx, vertex_src, fragment_src) {
            Ok(p) => p,
            Err(e) => {
                return Err(e);
            },
        };
        match shader.enable(ctx) {
            Ok(()) => (),
            Err(e) => {
                proof {
                    assert(false);
                }
                return Err(e);
            },
        }
        proof {
            let sources = ctx.program_at(shader.id).linked_sources@;
            let p_obj = ctx.program_at(shader.id);
            lemma_active_two(p_obj, vertex_src@, fragment_src@, "model"@);
            lemma_active_two(p_obj, vertex_src@, fragment_src@, "view"@);
            lemma_active_two(p_obj, vertex_src@, fragment_src@, "projection"@);
            lemma_active_two(p_obj, vertex_src@, fragment_src@, "view_pos"@);
            lemma_active_two(p_obj, vertex_src@, fragment_src@, "material.shininess"@);
            lemma_active_two(p_obj, vertex_src@, fragment_src@, "light.ambient"@);
            lemma_active_two(p_obj, vertex_src@, fragment_src@, "light.diffuse"@);
            lemma_active_two(p_obj, vertex_src@, fragment_src@, "light.specular"@);
            lemma_uniform_index_two(ctx.program_at(shader.id).linked_sources@, "model"@);
            lemma_uniform_index_two(ctx.program_at(shader.id).linked_sources@, "view"@);
            lemma_uniform_index_two(ctx.program_at(shader.id).linked_sources@, "projection"@);
            lemma_uniform_index_two(ctx.program_at(shader.id).linked_sources@, "view_pos"@);
            lemma_uniform_index_two(
                ctx.program_at(shader.id).linked_sources@,
                "material.shininess"@,
            );
            lemma_uniform_index_two(ctx.program_at(shader.id).linked_sources@, "light.direction"@);
            lemma_uniform_index_two(ctx.program_at(shader.id).linked_sources@, "light.ambient"@);
            lemma_uniform_index_two(ctx.program_at(shader.id).linked_sources@, "light.diffuse"@);
            lemma_uniform_index_two(ctx.program_at(shader.id).linked_sources@, "light.specular"@);
            lemma_active_two(p_obj, vertex_src@, fragment_src@, "light.direction"@);
        }
        let model = match shader.locate_uniform(ctx, "model") {
            Ok(location) => location,
            Err(e) => {
                shader.destroy(ctx);
                return Err(e);
            },
        };
        let view = match shader.locate_uniform(ctx, "view") {
            Ok(location) => location,
            Err(e) => {
                shader.destroy(ctx);
                return Err(e);
            },
        };
        let projection = match shader.locate_uniform(ctx, "projection") {
            Ok(location) => location,
            Err(e) => {
                shader.destroy(ctx);
                return Err(e);
            },
        };
        let view_pos = match shader.locate_uniform(ctx, "view_pos") {
            Ok(location) => location,
            Err(e) => {
                shader.destroy(ctx);
                return Err(e);
            },
        };
        let material_shininess = match shader.locate_uniform(ctx, "material.shininess") {
            Ok(location) => location,
            Err(e) => {
                shader.destroy(ctx);
                return Err(e);
            },
        };
        let direction = match shader.locate_uniform(ctx, "light.direction") {
            Ok(location) => location,
            Err(e) => {
                shader.destroy(ctx);
                return Err(e);
            },
        };
        let ambient = match shader.locate_uniform(ctx, "light.ambient") {
            Ok(location) => location,
            Err(e) => {
                shader.destroy(ctx);
                return Err(e);
            },
        };
        let diffuse = match shader.locate_uniform(ctx, "light.diffuse") {
            Ok(location) => location,
            Err(e) => {
                shader.destroy(ctx);
                return Err(e);
            },
        };
        let specular = match shader.locate_uniform(ctx, "light.specular") {
            Ok(location) => location,
            Err(e) => {
                shader.destroy(ctx);
                return Err(e);
            },
        };
        Ok(
            DirectionalProgram {
                shader,
                model,
                view,
                projection,
                view_pos,
                material_shininess,
                direction,
                ambient,
                diffuse,
                specular,
            },
        )
    }

    /// Uploads the light's material and colour factors, each given as raw
    /// bit patterns; the three colour factors are broadcast to grey
    /// three-component vectors. Fails exactly when no program is in use.
    pub fn set_light(
        &self,
        ctx: &mut Context,
        material_shininess_bits: u32,
        direction_bits: &[u32; 3],
        ambient_factor_bits: u32,
        diffuse_factor_bits: u32,
        specular_factor_bits: u32,
    ) -> (r: Result<(), Error>)
        requires
            old(ctx).wf(),
            old(ctx).error == NO_ERROR,
        ensures
            final(ctx).wf(),
            final(ctx).error == NO_ERROR,
            old(ctx).current_program != 0 ==> {
                &&& r == Ok::<(), Error>(())
                &&& final(ctx).logged_seq(
                    *old(ctx),
                    seq![
                        GlCall::Uniform1F {
                            location: self.material_shininess,
                            bits: material_shininess_bits,
                        },
                        GlCall::Uniform3F {
                            location: self.direction,
                            bits0: direction_bits@[0],
                            bits1: direction_bits@[1],
                            bits2: direction_bits@[2],
                        },
                        GlCall::Uniform3F {
                            location: self.ambient,
                            bits0: ambient_factor_bits,
                            bits1: ambient_factor_bits,
                            bits2: ambient_factor_bits,
                        },
                        GlCall::Uniform3F {
                            location: self.diffuse,
                            bits0: diffuse_factor_bits,
                            bits1: diffuse_factor_bits,
                            bits2: diffuse_factor_bits,
                        },
                        GlCall::Uniform3F {
                            location: self.specular,
                            bits0: specular_factor_bits,
                            bits1: specular_factor_bits,
                            bits2: specular_factor_bits,
                        },
                    ],
                )
                &&& final(ctx).same_objects(*old(ctx))
                &&& final(ctx).same_binds(*old(ctx))
            },
            old(ctx).current_program == 0 ==> {
                &&& r == Err::<(), Error>(Error::Driver(sys::Error::InvalidOperation))
                &&& final(ctx).unchanged(*old(ctx))
            },
    {
        match sys::set_uniform_f32(ctx, self.material_shininess, material_shininess_bits) {
            Ok(()) => (),
            Err(e) => {
                return Err(Error::Driver(e));
            },
        }
        let r1 = sys::set_uniform_vec3(ctx, self.direction, direction_bits);
        let r2 = sys::set_uniform_vec3(
            ctx,
            self.ambient,
            &[ambient_factor_bits, ambient_factor_bits, ambient_factor_bits],
        );
        let r3 = sys::set_uniform_vec3(
            ctx,
            self.diffuse,
            &[diffuse_factor_bits, diffuse_factor_bits, diffuse_factor_bits],
        );
        let r4 = sys::set_uniform_vec3(
            ctx,
            self.specular,
            &[specular_factor_bits, specular_factor_bits, specular_factor_bits],
        );
        proof {
            assert(r1 is Ok && r2 is Ok && r3 is Ok && r4 is Ok);
            assert(ctx.calls@ =~= old(ctx).calls@ + seq![
                GlCall::Uniform1F {
                    location: self.material_shininess,
                    bits: material_shininess_bits,
                },
                GlCall::Uniform3F {
                    location: self.direction,
                    bits0: direction_bits@[0],
                    bits1: direction_bits@[1],
                    bits2: direction_bits@[2],
                },
                GlCall::Uniform3F {
                    location: self.ambient,
                    bits0: ambient_factor_bits,
                    bits1: ambient_factor_bits,
                    bits2: ambient_factor_bits,
                },
                GlCall::Uniform3F {
                    location: self.diffuse,
                    bits0: diffuse_factor_bits,
                    bits1: diffuse_factor_bits,
                    bits2: diffuse_factor_bits,
                },
                GlCall::Uniform3F {
                    location: self.specular,
                    bits0: specular_factor_bits,
                    bits1: specular_factor_bits,
                    bits2: specular_factor_bits,
                },
            ]);
        }
        Ok(())
    }

    /// Enables the program and uploads the three transform matrices and the
    /// view position, each given as raw bit patterns. Cannot fail while the
    /// wrapper is valid.
    pub fn set_mvp(
        &self,
        ctx: &mut Context,
        model_bits: &[u32],
        view_bits: &[u32],
        projection_bits: &[u32],
        view_position_bits: &[u32; 3],
    ) -> (r: Result<(), Error>)
        requires
            old(ctx).wf(),
            old(ctx).error == NO_ERROR,
            self.valid(*old(ctx)),
        ensures
            final(ctx).wf(),
            final(ctx).error == NO_ERROR,
            r == Ok::<(), Error>(()),
            final(ctx).current_program == self.shader.id,
            final(ctx).same_objects(*old(ctx)),
            final(ctx).logged_seq(
                *old(ctx),
                seq![
                    GlCall::UseProgram { id: self.shader.id },
                    GlCall::UniformMatrix4F { location: self.model, transpose: false },
                    GlCall::UniformMatrix4F { location: self.view, transpose: false },
                    GlCall::UniformMatrix4F { location: self.projection, transpose: false },
                    GlCall::Uniform3F {
                        location: self.view_pos,
                        bits0: view_position_bits@[0],
                        bits1: view_position_bits@[1],
                        bits2: view_position_bits@[2],
                    },
                ],
            ),
    {
        match self.shader.enable(ctx) {
            Ok(()) => (),
            Err(e) => {
                proof {
                    assert(false);
                }
                return Err(e);
            },
        }
        let r1 = sys::set_uniform_mat4(ctx, self.model, false, model_bits);
        let r2 = sys::set_uniform_mat4(ctx, self.view, false, view_bits);
        let r3 = sys::set_uniform_mat4(ctx, self.projection, false, projection_bits);
        let r4 = sys::set_uniform_vec3(ctx, self.view_pos, view_position_bits);
        proof {
            assert(r1 is Ok && r2 is Ok && r3 is Ok && r4 is Ok);
            assert(ctx.calls@ =~= old(ctx).calls@ + seq![
                GlCall::UseProgram { id: self.shader.id },
                GlCall::UniformMatrix4F { location: self.model, transpose: false },
                GlCall::UniformMatrix4F { location: self.view, transpose: false },
                GlCall::UniformMatrix4F { location: self.projection, transpose: false },
                GlCall::Uniform3F {
                    location: self.view_pos,
                    bits0: view_position_bits@[0],
                    bits1: view_position_bits@[1],
                    bits2: view_position_bits@[2],
                },
            ]);
        }
        Ok(())
    }
}

/// A program lit by one point light, with every uniform location resolved
/// at construction.
pub struct PointLightProgram {
    pub shader: ShaderProgram,
    pub model: u32,
    pub view: u32,
    pub projection: u32,
    pub view_pos: u32,
    pub material_shininess: u32,
    pub position: u32,
    pub ambient: u32,
    pub diffuse: u32,
    pub specular: u32,
    pub attenuation_linear: u32,
    pub attenuation_quadratic: u32,
}

impl PointLightProgram {
    /// The owned program is live and successfully linked.
    pub open spec fn valid(self, ctx: Context) -> bool {
        self.shader.valid(ctx)
    }

    /// Builds the program from its two stage sources and resolves all
    /// eleven uniform locations. Succeeds exactly when both sources are
    /// valid and every name is referenced by one of the stages.
    pub fn new(ctx: &mut Context, vertex_src: &str, fragment_src: &str) -> (r: Result<
        PointLightProgram,
        Error,
    >)
        requires
            old(ctx).wf(),
            old(ctx).error == NO_ERROR,
            old(ctx).shaders@.len() + 2 <= u32::MAX,
            old(ctx).programs@.len() < u32::MAX,
        ensures
            final(ctx).wf(),
            final(ctx).error == NO_ERROR,
            final(ctx).buffers == old(ctx).buffers,
            final(ctx).vertex_arrays == old(ctx).vertex_arrays,
            final(ctx).textures == old(ctx).textures,
            final(ctx).frame_buffers == old(ctx).frame_buffers,
            final(ctx).render_buffers == old(ctx).render_buffers,
            (r is Ok) == (spec_source_valid(vertex_src@) && spec_source_valid(fragment_src@)
                && spec_name_in_sources(vertex_src@, fragment_src@, "model"@)
                && spec_name_in_sources(vertex_src@, fragment_src@, "view"@)
                && spec_name_in_sources(vertex_src@, fragment_src@, "projection"@)
                && spec_name_in_sources(vertex_src@, fragment_src@, "view_pos"@)
                && spec_name_in_sources(vertex_src@, fragment_src@, "material.shininess"@)
                && spec_name_in_sources(vertex_src@, fragment_src@, "light.position"@)
                && spec_name_in_sources(vertex_src@, fragment_src@, "light.ambient"@)
                && spec_name_in_sources(vertex_src@, fragment_src@, "light.diffuse"@)
                && spec_name_in_sources(vertex_src@, fragment_src@, "light.specular"@)
                && spec_name_in_sources(vertex_src@, fragment_src@, "light.attenuation_linear"@)
                && spec_name_in_sources(vertex_src@, fragment_src@, "light.attenuation_quadratic"@)),
            r matches Ok(pp) ==> pp.valid(*final(ctx)) && final(ctx).current_program
                == pp.shader.id,
    {
        let shader = match link_two_stage_program(ctx, vertex_src, fragment_src) {
            Ok(p) => p,
            Err(e) => {
                return Err(e);
            },
        };
        match shader.enable(ctx) {
            Ok(()) => (),
            Err(e) => {
                proof {
                    assert(false);
                }
                return Err(e);
            },
        }
        proof {
            let sources = ctx.program_at(shader.id).linked_sources@;
            let p_obj = ctx.program_at(shader.id);
            lemma_active_two(p_obj, vertex_src@, fragment_src@, "model"@);
            lemma_active_two(p_obj, vertex_src@, fragment_src@, "view"@);
            lemma_active_two(p_obj, vertex_src@, fragment_src@, "projection"@);
            lemma_active_two(p_obj, vertex_src@, fragment_src@, "view_pos"@);
            lemma_active_two(p_obj, vertex_src@, fragment_src@, "material.shininess"@);
            lemma_active_two(p_obj, vertex_src@, fragment_src@, "light.ambient"@);
            lemma_active_two(p_obj, vertex_src@, fragment_src@, "light.diffuse"@);
            lemma_active_two(p_obj, vertex_src@, fragment_src@, "light.specular"@);
            lemma_uniform_index_two(ctx.program_at(shader.id).linked_sources@, "model"@);
            lemma_uniform_index_two(ctx.program_at(shader.id).linked_sources@, "view"@);
            lemma_uniform_index_two(ctx.program_at(shader.id).linked_sources@, "projection"@);
            lemma_uniform_index_two(ctx.program_at(shader.id).linked_sources@, "view_pos"@);
            lemma_uniform_index_two(
                ctx.program_at(shader.id).linked_sources@,
                "material.shininess"@,
            );
            lemma_uniform_index_two(ctx.program_at(shader.id).linked_sources@, "light.position"@);
            lemma_uniform_index_two(ctx.program_at(shader.id).linked_sources@, "light.ambient"@);
            lemma_uniform_index_two(ctx.program_at(shader.id).linked_sources@, "light.diffuse"@);
            lemma_uniform_index_two(ctx.program_at(shader.id).linked_sources@, "light.specular"@);
            lemma_uniform_index_two(
                ctx.program_at(shader.id).linked_sources@,
                "light.attenuation_linear"@,
            );
            lemma_uniform_index_two(
                ctx.program_at(shader.id).linked_sources@,
                "light.attenuation_quadratic"@,
            );
            lemma_active_two(p_obj, vertex_src@, fragment_src@, "light.position"@);
            lemma_active_two(p_obj, vertex_src@, fragment_src@, "light.attenuation_linear"@);
            lemma_active_two(p_obj, vertex_src@, fragment_src@, "light.attenuation_quadratic"@);
        }
        let model = match shader.locate_uniform(ctx, "model") {
            Ok(location) => location,
            Err(e) => {
                shader.destroy(ctx);
                return Err(e);
            },
        };
        let view = match shader.locate_uniform(ctx, "view") {
            Ok(location) => location,
            Err(e) => {
                shader.destroy(ctx);
                return Err(e);
            },
        };
        let projection = match shader.locate_uniform(ctx, "projection") {
            Ok(location) => location,
            Err(e) => {
                shader.destroy(ctx);
                return Err(e);
            },
        };
        let view_pos = match shader.locate_uniform(ctx, "view_pos") {
            Ok(location) => location,
            Err(e) => {
                shader.destroy(ctx);
                return Err(e);
            },
        };
        let material_shininess = match shader.locate_uniform(ctx, "material.shininess") {
            Ok(location) => location,
            Err(e) => {
                shader.destroy(ctx);
                return Err(e);
            },
        };
        let position = match shader.locate_uniform(ctx, "light.position") {
            Ok(location) => location,
            Err(e) => {
                shader.destroy(ctx);
                return Err(e);
            },
        };
        let ambient = match shader.locate_uniform(ctx, "light.ambient") {
            Ok(location) => location,
            Err(e) => {
                shader.destroy(ctx);
                return Err(e);
            },
        };
        let diffuse = match shader.locate_uniform(ctx, "light.diffuse") {
            Ok(location) => location,
            Err(e) => {
                shader.destroy(ctx);
                return Err(e);
            },
        };
        let specular = match shader.locate_uniform(ctx, "light.specular") {
            Ok(location) => location,
            Err(e) => {
                shader.destroy(ctx);
                return Err(e);
            },
        };
        let attenuation_linear = match shader.locate_uniform(ctx, "light.attenuation_linear") {
            Ok(location) => location,
            Err(e) => {
                shader.destroy(ctx);
                return Err(e);
            },
        };
        let attenuation_quadratic = match shader.locate_uniform(
            ctx,
            "light.attenuation_quadratic",
        ) {
            Ok(location) => location,
            Err(e) => {
                shader.destroy(ctx);
                return Err(e);
            },
        };
        Ok(
            PointLightProgram {
                shader,
                model,
                view,
                projection,
                view_pos,
                material_shininess,
                position,
                ambient,
                diffuse,
                specular,
                attenuation_linear,
                attenuation_quadratic,
            },
        )
    }

    /// Uploads the light's material, colour and attenuation factors, each
    /// given as raw bit patterns. Fails exactly when no program is in use.
    pub fn set_light(
        &self,
        ctx: &mut Context,
        material_shininess_bits: u32,
        ambient_factor_bits: u32,
        diffuse_factor_bits: u32,
        specular_factor_bits: u32,
        attenuation_linear_bits: u32,
        attenuation_quadratic_bits: u32,
    ) -> (r: Result<(), Error>)
        requires
            old(ctx).wf(),
            old(ctx).error == NO_ERROR,
        ensures
            final(ctx).wf(),
            final(ctx).error == NO_ERROR,
            old(ctx).current_program != 0 ==> {
                &&& r == Ok::<(), Error>(())
                &&& final(ctx).logged_seq(
                    *old(ctx),
                    seq![
                        GlCall::Uniform1F {
                            location: self.material_shininess,
                            bits: material_shininess_bits,
                        },
                        GlCall::Uniform3F {
                            location: self.ambient,
                            bits0: ambient_factor_bits,
                            bits1: ambient_factor_bits,
                            bits2: ambient_factor_bits,
                        },
                        GlCall::Uniform3F {
                            location: self.diffuse,
                            bits0: diffuse_factor_bits,
                            bits1: diffuse_factor_bits,
                            bits2: diffuse_factor_bits,
                        },
                        GlCall::Uniform3F {
                            location: self.specular,
                            bits0: specular_factor_bits,
                            bits1: specular_factor_bits,
                            bits2: specular_factor_bits,
                        },
                        GlCall::Uniform1F {
                            location: self.attenuation_linear,
                            bits: attenuation_linear_bits,
                        },
                        GlCall::Uniform1F {
                            location: self.attenuation_quadratic,
                            bits: attenuation_quadratic_bits,
                        },
                    ],
                )
                &&& final(ctx).same_objects(*old(ctx))
                &&& final(ctx).same_binds(*old(ctx))
            },
            old(ctx).current_program == 0 ==> {
                &&& r == Err::<(), Error>(Error::Driver(sys::Error::InvalidOperation))
                &&& final(ctx).unchanged(*old(ctx))
            },
    {
        match sys::set_uniform_f32(ctx, self.material_shininess, material_shininess_bits) {
            Ok(()) => (),
            Err(e) => {
                return Err(Error::Driver(e));
            },
        }
        let r1 = sys::set_uniform_vec3(
            ctx,
            self.ambient,
            &[ambient_factor_bits, ambient_factor_bits, ambient_factor_bits],
        );
        let r2 = sys::set_uniform_vec3(
            ctx,
            self.diffuse,
            &[diffuse_factor_bits, diffuse_factor_bits, diffuse_factor_bits],
        );
        let r3 = sys::set_uniform_vec3(
            ctx,
            self.specular,
            &[specular_factor_bits, specular_factor_bits, specular_factor_bits],
        );
        let r4 = sys::set_uniform_f32(ctx, self.attenuation_linear, attenuation_linear_bits);
        let r5 = sys::set_uniform_f32(ctx, self.attenuation_quadratic, attenuation_quadratic_bits);
        proof {
            assert(r1 is Ok && r2 is Ok && r3 is Ok && r4 is Ok && r5 is Ok);
            assert(ctx.calls@ =~= old(ctx).calls@ + seq![
                GlCall::Uniform1F {
                    location: self.material_shininess,
                    bits: material_shininess_bits,
                },
                GlCall::Uniform3F {
                    location: self.ambient,
                    bits0: ambient_factor_bits,
                    bits1: ambient_factor_bits,
                    bits2: ambient_factor_bits,
                },
                GlCall::Uniform3F {
                    location: self.diffuse,
                    bits0: diffuse_factor_bits,
                    bits1: diffuse_factor_bits,
                    bits2: diffuse_factor_bits,
                },
                GlCall::Uniform3F {
                    location: self.specular,
                    bits0: specular_factor_bits,
                    bits1: specular_factor_bits,
                    bits2: specular_factor_bits,
                },
                GlCall::Uniform1F {
                    location: self.attenuation_linear,
                    bits: attenuation_linear_bits,
                },
                GlCall::Uniform1F {
                    location: self.attenuation_quadratic,
                    bits: attenuation_quadratic_bits,
                },
            ]);
        }
        Ok(())
    }

    /// Enables the program and uploads the transform matrices, the view
    /// position and the light position, each given as raw bit patterns.
    /// Cannot fail while the wrapper is valid.
    pub fn set_mvp(
        &self,
        ctx: &mut Context,
        model_bits: &[u32],
        view_bits: &[u32],
        projection_bits: &[u32],
        view_position_bits: &[u32; 3],
        light_position_bits: &[u32; 3],
    ) -> (r: Result<(), Error>)
        requires
            old(ctx).wf(),
            old(ctx).error == NO_ERROR,
            self.valid(*old(ctx)),
        ensures
            final(ctx).wf(),
            final(ctx).error == NO_ERROR,
            r == Ok::<(), Error>(()),
            final(ctx).current_program == self.shader.id,
            final(ctx).same_objects(*old(ctx)),
            final(ctx).logged_seq(
                *old(ctx),
                seq![
                    GlCall::UseProgram { id: self.shader.id },
                    GlCall::UniformMatrix4F { location: self.model, transpose: false },
                    GlCall::UniformMatrix4F { location: self.view, transpose: false },
                    GlCall::UniformMatrix4F { location: self.projection, transpose: false },
                    GlCall::Uniform3F {
                        location: self.view_pos,
                        bits0: view_position_bits@[0],
                        bits1: view_position_bits@[1],
                        bits2: view_position_bits@[2],
                    },
                    GlCall::Uniform3F {
                        location: self.position,
                        bits0: light_position_bits@[0],
                        bits1: light_position_bits@[1],
                        bits2: light_position_bits@[2],
                    },
                ],
            ),
    {
        match self.shader.enable(ctx) {
            Ok(()) => (),
            Err(e) => {
                proof {
                    assert(false);
                }
                return Err(e);
            },
        }
        let r1 = sys::set_uniform_mat4(ctx, self.model, false, model_bits);
        let r2 = sys::set_uniform_mat4(ctx, self.view, false, view_bits);
        let r3 = sys::set_uniform_mat4(ctx, self.projection, false, projection_bits);
        let r4 = sys::set_uniform_vec3(ctx, self.view_pos, view_position_bits);
        let r5 = sys::set_uniform_vec3(ctx, self.position, light_position_bits);
        proof {
            assert(r1 is Ok && r2 is Ok && r3 is Ok && r4 is Ok && r5 is Ok);
            assert(ctx.calls@ =~= old(ctx).calls@ + seq![
                GlCall::UseProgram { id: self.shader.id },
                GlCall::UniformMatrix4F { location: self.model, transpose: false },
                GlCall::UniformMatrix4F { location: self.view, transpose: false },
                GlCall::UniformMatrix4F { location: self.projection, transpose: false },
                GlCall::Uniform3F {
                    location: self.view_pos,
                    bits0: view_position_bits@[0],
                    bits1: view_position_bits@[1],
                    bits2: view_position_bits@[2],
                },
                GlCall::Uniform3F {
                    location: self.position,
                    bits0: light_position_bits@[0],
                    bits1: light_position_bits@[1],
                    bits2: light_position_bits@[2],
                },
            ]);
        }
        Ok(())
    }
}

/// An off-screen render target: a frame buffer whose colour lands in a
/// texture (attached at each bind) and whose depth and stencil live in a
/// render buffer, tied to a sampler uniform at a fixed texture unit.
pub struct FrameBuffer {
    /// The owned frame-buffer handle.
    pub frame_buffer_id: u32,
    /// The owned texture the colour plane renders into.
    pub texture_image_id: u32,
    /// The texture unit the sampler was pointed at.
    pub index: u32,
}

impl FrameBuffer {
    /// The owned handles are live.
    pub open spec fn valid(self, ctx: Context) -> bool {
        ctx.frame_buffer_live(self.frame_buffer_id) && ctx.texture_live(self.texture_image_id)
    }

    /// Builds the render target: a frame buffer, an uninitialised colour
    /// texture of the given size, and a depth-and-stencil render buffer,
    /// then points the given sampler uniform at texture unit `index`.
    /// Succeeds exactly when the sampler name resolves in the program.
    pub fn new(
        ctx: &mut Context,
        shader: &ShaderProgram,
        sampler_name: &str,
        index: u32,
        width: u32,
        height: u32,
    ) -> (r: Result<FrameBuffer, Error>)
        requires
            old(ctx).wf(),
            old(ctx).error == NO_ERROR,
            shader.valid(*old(ctx)),
            index <= i32::MAX,
            index < MAX_TEXTURE_UNITS,
            old(ctx).frame_buffers@.len() < u32::MAX,
            old(ctx).textures@.len() < u32::MAX,
            old(ctx).render_buffers@.len() < u32::MAX,
        ensures
            final(ctx).wf(),
            final(ctx).error == NO_ERROR,
            (r is Ok) == sys::spec_uniform_active(
                old(ctx).program_at(shader.id),
                sampler_name@,
            ),
            r matches Ok(fb) ==> {
                &&& fb.valid(*final(ctx))
                &&& fb.index == index
                &&& final(ctx).current_program == shader.id
            },
            r is Err ==> (r matches Err(Error::MissingUniform(n)) && n@ == sampler_name@),
    {
        let frame_buffer_id = sys::create_frame_buffer(ctx);
        match sys::bind_frame_buffer(ctx, frame_buffer_id, FrameBufferTarget::All) {
            Ok(()) => (),
            Err(e) => {
                proof {
                    assert(false);
                }
                return Err(Error::Driver(e));
            },
        }

        let texture_image_id = sys::create_texture(ctx);
        match sys::bind_texture(ctx, texture_image_id, TextureTarget::Image2D) {
            Ok(()) => (),
            Err(e) => {
                proof {
                    assert(false);
                }
                return Err(Error::Driver(e));
            },
        }
        let up = sys::load_texture_image2d(
            ctx,
            TextureTarget::Image2D,
            0,
            TextureFormat::RGB,
            width as u64,
            height as u64,
            TextureFormat::RGB,
            DataType::U32,
            None,
        );
        let p1 = sys::set_texture_parameter_value(
            ctx,
            TextureTarget::Image2D,
            TextureParameterName::MinFilter,
            TextureParameterValue::Linear,
        );
        let p2 = sys::set_texture_parameter_value(
            ctx,
            TextureTarget::Image2D,
            TextureParameterName::MagFilter,
            TextureParameterValue::Linear,
        );
        proof {
            assert(up is Ok && p1 is Ok && p2 is Ok);
        }

        let render_buffer_id = sys::create_render_buffer(ctx);
        match sys::bind_render_buffer(ctx, render_buffer_id) {
            Ok(()) => (),
            Err(e) => {
                proof {
                    assert(false);
                }
                return Err(Error::Driver(e));
            },
        }
        let st = sys::render_buffer_storage(
            ctx,
            RenderBufferStorageFormat::Depth24Stencil8,
            width,
            height,
        );
        let at = sys::frame_buffer_render_buffer(
            ctx,
            FrameBufferTarget::All,
            FrameBufferAttachment::DepthStencil,
            render_buffer_id,
        );
        proof {
            assert(st is Ok && at is Ok);
        }

        match shader.enable(ctx) {
            Ok(()) => (),
            Err(e) => {
                proof {
                    assert(false);
                }
                return Err(e);
            },
        }
        let location = match shader.locate_uniform(ctx, sampler_name) {
            Ok(location) => location,
            Err(e) => {
                return Err(e);
            },
        };
        match sys::set_uniform_i32(ctx, location, index as i32) {
            Ok(()) => (),
            Err(e) => {
                proof {
                    assert(false);
                }
                return Err(Error::Driver(e));
            },
        }

        Ok(FrameBuffer { frame_buffer_id, texture_image_id, index })
    }

    /// Makes this frame buffer the render target: binds it, enables the
    /// depth test, clears colour and depth to opaque black, and attaches
    /// the colour texture at the first colour slot. Cannot fail while the
    /// wrapper is valid.
    pub fn bind(&self, ctx: &mut Context) -> (r: Result<(), Error>)
        requires
            old(ctx).wf(),
            old(ctx).error == NO_ERROR,
            self.valid(*old(ctx)),
        ensures
            final(ctx).wf(),
            final(ctx).error == NO_ERROR,
            r == Ok::<(), Error>(()),
            final(ctx).same_objects(*old(ctx)),
            final(ctx).bound_frame_buffer == self.frame_buffer_id,
            final(ctx).logged_seq(
                *old(ctx),
                seq![
                    GlCall::BindFrameBuffer {
                        target: FrameBufferTarget::All,
                        id: self.frame_buffer_id,
                    },
                    GlCall::Enable { feature: Feature::DepthTest },
                    GlCall::ClearColour {
                        red_bits: 0,
                        green_bits: 0,
                        blue_bits: 0,
                        alpha_bits: ONE_F32_BITS,
                    },
                    GlCall::Clear { buffer: BufferBit::Colour },
                    GlCall::Clear { buffer: BufferBit::Depth },
                    GlCall::FrameBufferTexture2D {
                        target: FrameBufferTarget::All,
                        attachment: FrameBufferAttachment::Colour(0),
                        texture_target: TextureTarget::Image2D,
                        texture_id: self.texture_image_id,
                        mipmap_level: 0,
                    },
                ],
            ),
    {
        match sys::bind_frame_buffer(ctx, self.frame_buffer_id, FrameBufferTarget::All) {
            Ok(()) => (),
            Err(e) => {
                proof {
                    assert(false);
                }
                return Err(Error::Driver(e));
            },
        }
        let r1 = sys::enable(ctx, Feature::DepthTest);
        let r2 = sys::clear_colour(ctx, 0, 0, 0, ONE_F32_BITS);
        let r3 = sys::clear(ctx, BufferBit::Colour);
        let r4 = sys::clear(ctx, BufferBit::Depth);
        let r5 = sys::frame_buffer_texture_2d(
            ctx,
            FrameBufferTarget::All,
            FrameBufferAttachment::Colour(0),
            TextureTarget::Image2D,
            self.texture_image_id,
            0,
        );
        proof {
            assert(r1 is Ok && r2 is Ok && r3 is Ok && r4 is Ok && r5 is Ok);
            assert(ctx.calls@ =~= old(ctx).calls@ + seq![
                GlCall::BindFrameBuffer { target: FrameBufferTarget::All, id: self.frame_buffer_id },
                GlCall::Enable { feature: Feature::DepthTest },
                GlCall::ClearColour {
                    red_bits: 0,
                    green_bits: 0,
                    blue_bits: 0,
                    alpha_bits: ONE_F32_BITS,
                },
                GlCall::Clear { buffer: BufferBit::Colour },
                GlCall::Clear { buffer: BufferBit::Depth },
                GlCall::FrameBufferTexture2D {
                    target: FrameBufferTarget::All,
                    attachment: FrameBufferAttachment::Colour(0),
                    texture_target: TextureTarget::Image2D,
                    texture_id: self.texture_image_id,
                    mipmap_level: 0,
                },
            ]);
        }
        Ok(())
    }

    /// Selects this target's texture unit and then binds its colour
    /// texture: in that order, so the texture lands on the sampler's unit.
    /// Cannot fail while the wrapper is valid and the unit is in range.
    pub fn active_texture(&self, ctx: &mut Context) -> (r: Result<(), Error>)
        requires
            old(ctx).wf(),
            old(ctx).error == NO_ERROR,
            self.valid(*old(ctx)),
            self.index < MAX_TEXTURE_UNITS,
        ensures
            final(ctx).wf(),
            final(ctx).error == NO_ERROR,
            r == Ok::<(), Error>(()),
            final(ctx).same_objects(*old(ctx)),
            final(ctx).logged_seq(
                *old(ctx),
                seq![
                    GlCall::ActiveTexture { unit: self.index },
                    GlCall::BindTexture {
                        target: TextureTarget::Image2D,
                        id: self.texture_image_id,
                    },
                ],
            ),
    {
        match sys::active_texture(ctx, self.index) {
            Ok(()) => (),
            Err(e) => {
                proof {
                    assert(false);
                }
                return Err(Error::Driver(e));
            },
        }
        match sys::bind_texture(ctx, self.texture_image_id, TextureTarget::Image2D) {
            Ok(()) => (),
            Err(e) => {
                proof {
                    assert(false);
                }
                return Err(Error::Driver(e));
            },
        }
        proof {
            assert(ctx.calls@ =~= old(ctx).calls@ + seq![
                GlCall::ActiveTexture { unit: self.index },
                GlCall::BindTexture { target: TextureTarget::Image2D, id: self.texture_image_id },
            ]);
        }
        Ok(())
    }

    /// Makes the display buffer the render target again: binds frame buffer
    /// zero, disables the depth test, and clears the colour plane to opaque
    /// black. Cannot fail.
    pub fn enable_display_buffer(ctx: &mut Context) -> (r: Result<(), Error>)
        requires
            old(ctx).wf(),
            old(ctx).error == NO_ERROR,
        ensures
            final(ctx).wf(),
            final(ctx).error == NO_ERROR,
            r == Ok::<(), Error>(()),
            final(ctx).same_objects(*old(ctx)),
            final(ctx).bound_frame_buffer == 0,
            final(ctx).logged_seq(
                *old(ctx),
                seq![
                    GlCall::BindFrameBuffer { target: FrameBufferTarget::All, id: 0u32 },
                    GlCall::Disable { feature: Feature::DepthTest },
                    GlCall::ClearColour {
                        red_bits: 0,
                        green_bits: 0,
                        blue_bits: 0,
                        alpha_bits: ONE_F32_BITS,
                    },
                    GlCall::Clear { buffer: BufferBit::Colour },
                ],
            ),
    {
        match sys::bind_frame_buffer(ctx, 0, FrameBufferTarget::All) {
            Ok(()) => (),
            Err(e) => {
                proof {
                    assert(false);
                }
                return Err(Error::Driver(e));
            },
        }
        let r1 = sys::disable(ctx, Feature::DepthTest);
        let r2 = sys::clear_colour(ctx, 0, 0, 0, ONE_F32_BITS);
        let r3 = sys::clear(ctx, BufferBit::Colour);
        proof {
            assert(r1 is Ok && r2 is Ok && r3 is Ok);
            assert(ctx.calls@ =~= old(ctx).calls@ + seq![
                GlCall::BindFrameBuffer { target: FrameBufferTarget::All, id: 0u32 },
                GlCall::Disable { feature: Feature::DepthTest },
                GlCall::ClearColour {
                    red_bits: 0,
                    green_bits: 0,
                    blue_bits: 0,
                    alpha_bits: ONE_F32_BITS,
                },
                GlCall::Clear { buffer: BufferBit::Colour },
            ]);
        }
        Ok(())
    }
}

} // verus!
