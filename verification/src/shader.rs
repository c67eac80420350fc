//! Shader stages and shader programs. A shader wrapper only ever exists for
//! a successfully compiled stage: a failed compile hands back the compiler's
//! log and releases the handle. A program attaches its shaders, links,
//! detaches them again (so the caller may destroy them independently), and
//! resolves uniform names lazily on request.

use vstd::prelude::*;
use vstd::string::StringExecFns;

use crate::context::{Context, GlCall};
use crate::error::Error;
use crate::sys;
use crate::sys::{
    lemma_uniform_source_index, spec_compile_log, spec_link_accepted, spec_link_log,
    spec_source_accepted, spec_uniform_active, spec_uniform_source_index,
};
use crate::types::{MAX_SOURCE_LEN, NO_ERROR, ProgramParameter, ShaderParameter, ShaderType};

verus! {

/// One compiled shader stage: the wrapper owns the native handle, and its
/// existence witnesses a successful compile.
pub struct Shader {
    /// The owned native handle.
    pub id: u32,
}

impl Shader {
    /// The owned handle is live and holds a successfully compiled stage.
    pub open spec fn valid(self, ctx: Context) -> bool {
        &&& ctx.shader_live(self.id)
        &&& ctx.shader_at(self.id).compile_done
        &&& ctx.shader_at(self.id).compiled
    }

    /// Creates a shader, uploads its source and compiles it. Succeeds
    /// exactly when the source can cross the boundary (no interior NUL, not
    /// longer than the driver's limit) and the front end accepts it; on a
    /// failed compile the info log is fetched (sized by querying its length
    /// first) and returned in the error, and the handle is released, so no
    /// wrapper for a failed stage ever exists.
    pub fn new(ctx: &mut Context, source: &str, shader_type: ShaderType) -> (r: Result<
        Shader,
        Error,
    >)
        requires
            old(ctx).wf(),
            old(ctx).error == NO_ERROR,
            old(ctx).shaders@.len() < u32::MAX,
        ensures
            final(ctx).wf(),
            final(ctx).error == NO_ERROR,
            final(ctx).same_binds(*old(ctx)),
            final(ctx).buffers == old(ctx).buffers,
            final(ctx).vertex_arrays == old(ctx).vertex_arrays,
            final(ctx).textures == old(ctx).textures,
            final(ctx).programs == old(ctx).programs,
            final(ctx).frame_buffers == old(ctx).frame_buffers,
            final(ctx).render_buffers == old(ctx).render_buffers,
            final(ctx).shaders@.len() == old(ctx).shaders@.len() + 1,
            forall|s: u32|
                old(ctx).shader_live(s) ==> final(ctx).shader_live(s) && final(ctx).shader_at(s)
                    == old(ctx).shader_at(s),
            ({
                let source_ok = !source@.contains('\0') && source@.len() <= MAX_SOURCE_LEN;
                let accepted = spec_source_accepted(source@);
                &&& ((source_ok && accepted) <==> r is Ok)
                &&& (r matches Ok(s) ==> {
                    &&& s.id == old(ctx).shaders@.len() + 1
                    &&& s.valid(*final(ctx))
                    &&& final(ctx).shader_at(s.id).stage == shader_type
                    &&& final(ctx).shader_at(s.id).source@ == source@
                })
                &&& (!source_ok ==> {
                    &&& r == Err::<Shader, Error>(Error::Driver(sys::Error::InvalidValue))
                    &&& !final(ctx).shader_live((old(ctx).shaders@.len() + 1) as u32)
                })
                &&& ((source_ok && !accepted) ==> {
                    &&& (r matches Err(Error::ShaderCompile(log)) && log@ == spec_compile_log(false)
                        && log@.len() > 0)
                    &&& !final(ctx).shader_live((old(ctx).shaders@.len() + 1) as u32)
                })
            }),
    {
        let id = sys::create_shader(ctx, shader_type);
        match sys::set_shader_source(ctx, id, source) {
            Ok(()) => (),
            Err(e) => {
                sys::delete_shader(ctx, id).unwrap();
                return Err(Error::Driver(e));
            },
        }
        match sys::compile_shader(ctx, id) {
            Ok(()) => (),
            Err(e) => {
                proof {
                    assert(false);
                }
                return Err(Error::Driver(e));
            },
        }
        let status = match sys::get_shader_parameter(ctx, id, ShaderParameter::CompileStatus) {
            Ok(v) => v,
            Err(e) => {
                proof {
                    assert(false);
                }
                return Err(Error::Driver(e));
            },
        };
        if status != 0 {
            Ok(Shader { id })
        } else {
            let buffer_size = match sys::get_shader_parameter(
                ctx,
                id,
                ShaderParameter::InfoLogLength,
            ) {
                Ok(v) => v,
                Err(e) => {
                    proof {
                        assert(false);
                    }
                    return Err(Error::Driver(e));
                },
            };
            let log = match sys::get_shader_info_log(ctx, id, buffer_size) {
                Ok(l) => l,
                Err(e) => {
                    proof {
                        assert(false);
                    }
                    return Err(Error::Driver(e));
                },
            };
            sys::delete_shader(ctx, id).unwrap();
            proof {
                reveal_strlit("shader compilation failed: no entry point");
            }
            Err(Error::ShaderCompile(log))
        }
    }

    /// Releases the owned handle: exactly one delete call is issued.
    pub fn destroy(self, ctx: &mut Context)
        requires
            old(ctx).wf(),
            old(ctx).error == NO_ERROR,
            old(ctx).shader_live(self.id),
        ensures
            final(ctx).wf(),
            final(ctx).error == NO_ERROR,
            !final(ctx).shader_live(self.id),
            final(ctx).shaders@.len() == old(ctx).shaders@.len(),
            forall|s: u32|
                old(ctx).shader_live(s) && s != self.id ==> final(ctx).shader_live(s) && final(ctx).shader_at(s) == old(ctx).shader_at(s),
            *final(ctx) == (Context {
                shaders: final(ctx).shaders,
                calls: final(ctx).calls,
                ..*old(ctx)
            }),
            final(ctx).logged(*old(ctx), GlCall::DeleteShader { id: self.id }),
    {
        let r = sys::delete_shader(ctx, self.id);
        proof {
            assert(r is Ok);
        }
    }
}

/// A linked shader program: the wrapper owns the native handle, and its
/// existence witnesses a successful link.
pub struct ShaderProgram {
    /// The owned native handle.
    pub id: u32,
}

impl ShaderProgram {
    /// The owned handle is live and holds a successfully linked program.
    pub open spec fn valid(self, ctx: Context) -> bool {
        &&& ctx.program_live(self.id)
        &&& ctx.program_at(self.id).link_done
        &&& ctx.program_at(self.id).link_ok
    }

    /// Creates a program, attaches every given shader, links, and detaches
    /// them again, so the caller may destroy the shaders independently.
    /// Succeeds exactly when no shader is given twice and no two shaders
    /// belong to the same stage; on a failed link the linker's log is
    /// fetched and returned in the error, and the program handle is
    /// released, so no wrapper for a failed program ever exists.
    #[verifier::loop_isolation(false)]
    pub fn new(ctx: &mut Context, shaders: &[Shader]) -> (r: Result<ShaderProgram, Error>)
        requires
            old(ctx).wf(),
            old(ctx).error == NO_ERROR,
            old(ctx).programs@.len() < u32::MAX,
            shaders@.len() <= u32::MAX,
            forall|i: int| 0 <= i < shaders@.len() ==> (#[trigger] shaders@[i]).valid(*old(ctx)),
        ensures
            final(ctx).wf(),
            final(ctx).error == NO_ERROR,
            final(ctx).same_binds(*old(ctx)),
            final(ctx).buffers == old(ctx).buffers,
            final(ctx).vertex_arrays == old(ctx).vertex_arrays,
            final(ctx).textures == old(ctx).textures,
            final(ctx).shaders == old(ctx).shaders,
            final(ctx).frame_buffers == old(ctx).frame_buffers,
            final(ctx).render_buffers == old(ctx).render_buffers,
            final(ctx).programs@.len() == old(ctx).programs@.len() + 1,
            forall|p: u32|
                old(ctx).program_live(p) ==> final(ctx).program_live(p) && final(ctx).program_at(p)
                    == old(ctx).program_at(p),
            ({
                let ids_ok = forall|i: int, j: int|
                    0 <= i < j < shaders@.len() ==> (#[trigger] shaders@[i]).id
                        != (#[trigger] shaders@[j]).id;
                let stages_ok = forall|i: int, j: int|
                    0 <= i < j < shaders@.len() ==> old(ctx).shader_at(
                        (#[trigger] shaders@[i]).id,
                    ).stage != old(ctx).shader_at((#[trigger] shaders@[j]).id).stage;
                &&& ((ids_ok && stages_ok) <==> r is Ok)
                &&& (r matches Ok(p) ==> {
                    &&& p.id == old(ctx).programs@.len() + 1
                    &&& p.valid(*final(ctx))
                    &&& final(ctx).program_at(p.id).attached@.len() == 0
                    &&& final(ctx).program_at(p.id).linked_sources@.len() == shaders@.len()
                    &&& (forall|i: int|
                        0 <= i < shaders@.len() ==> (#[trigger] final(ctx).program_at(
                            p.id,
                        ).linked_sources@[i])@ == old(ctx).shader_at(shaders@[i].id).source@)
                })
                &&& (!ids_ok ==> r == Err::<ShaderProgram, Error>(Error::Driver(
                    sys::Error::InvalidOperation,
                )))
                &&& ((ids_ok && !stages_ok) ==> (r matches Err(Error::ProgramLink(log)) && log@
                    == spec_link_log(false) && log@.len() > 0))
                &&& (r is Err ==> !final(ctx).program_live((old(ctx).programs@.len() + 1) as u32))
            }),
    {
        let program_id = sys::create_program(ctx);

        let mut i: usize = 0;
        while i < shaders.len()
            invariant
                0 <= i <= shaders@.len(),
                ctx.wf(),
                ctx.error == NO_ERROR,
                ctx.same_binds(*old(ctx)),
                ctx.buffers == old(ctx).buffers,
                ctx.vertex_arrays == old(ctx).vertex_arrays,
                ctx.textures == old(ctx).textures,
                ctx.shaders == old(ctx).shaders,
                ctx.frame_buffers == old(ctx).frame_buffers,
                ctx.render_buffers == old(ctx).render_buffers,
                ctx.programs@.len() == old(ctx).programs@.len() + 1,
                program_id == old(ctx).programs@.len() + 1,
                ctx.program_live(program_id),
                forall|p: u32|
                    old(ctx).program_live(p) ==> ctx.program_live(p) && ctx.program_at(p) == old(
                        ctx,
                    ).program_at(p),
                ctx.program_at(program_id).attached@.len() == i,
                forall|k: int|
                    0 <= k < i ==> ctx.program_at(program_id).attached@[k] == (
                    #[trigger] shaders@[k]).id,
                forall|k: int, l: int|
                    0 <= k < l < i ==> (#[trigger] shaders@[k]).id != (#[trigger] shaders@[l]).id,
                !ctx.program_at(program_id).link_done,
                !ctx.program_at(program_id).link_ok,
            decreases shaders@.len() - i,
        {
            let sid = shaders[i].id;
            match sys::attach_shader(ctx, program_id, sid) {
                Ok(()) => {
                    i = i + 1;
                },
                Err(e) => {
                    proof {
                        let attached = ctx.program_at(program_id).attached@;
                        assert(attached.contains(sid));
                        let k = choose|k: int| 0 <= k < attached.len() && attached[k] == sid;
                        assert(shaders@[k].id == shaders@[i as int].id);
                    }
                    let rd = sys::delete_program(ctx, program_id);
                    proof {
                        assert(rd is Ok);
                    }
                    return Err(Error::Driver(e));
                },
            }
        }

        let lr = sys::link_program(ctx, program_id);
        proof {
            assert(lr is Ok);
            assert(ctx.program_at(program_id).attached@ =~= Seq::new(
                shaders@.len(),
                |k: int| shaders@[k].id,
            ));
        }
        let ghost accepted = spec_link_accepted(
            old(ctx).shaders@,
            Seq::new(shaders@.len(), |k: int| shaders@[k].id),
        );

        let mut j: usize = 0;
        while j < shaders.len()
            invariant
                0 <= j <= shaders@.len(),
                ctx.wf(),
                ctx.error == NO_ERROR,
                ctx.same_binds(*old(ctx)),
                ctx.buffers == old(ctx).buffers,
                ctx.vertex_arrays == old(ctx).vertex_arrays,
                ctx.textures == old(ctx).textures,
                ctx.shaders == old(ctx).shaders,
                ctx.frame_buffers == old(ctx).frame_buffers,
                ctx.render_buffers == old(ctx).render_buffers,
                ctx.programs@.len() == old(ctx).programs@.len() + 1,
                program_id == old(ctx).programs@.len() + 1,
                ctx.program_live(program_id),
                forall|p: u32|
                    old(ctx).program_live(p) ==> ctx.program_live(p) && ctx.program_at(p) == old(
                        ctx,
                    ).program_at(p),
                ctx.program_at(program_id).attached@.len() == shaders@.len() - j,
                forall|k: int|
                    0 <= k < shaders@.len() - j ==> #[trigger] ctx.program_at(
                        program_id,
                    ).attached@[k] == shaders@[k + j].id,
                ctx.program_at(program_id).link_done,
                ctx.program_at(program_id).link_ok == spec_link_accepted(
                    old(ctx).shaders@,
                    Seq::new(shaders@.len(), |k: int| shaders@[k].id),
                ),
                ctx.program_at(program_id).info_log@ == spec_link_log(
                    ctx.program_at(program_id).link_ok,
                ),
                ctx.program_at(program_id).linked_sources@.len() == (if ctx.program_at(
                    program_id,
                ).link_ok {
                    shaders@.len() as int
                } else {
                    0int
                }),
                ctx.program_at(program_id).link_ok ==> (forall|k: int|
                    0 <= k < shaders@.len() ==> (#[trigger] ctx.program_at(
                        program_id,
                    ).linked_sources@[k])@ == old(ctx).shader_at(shaders@[k].id).source@),
            decreases shaders@.len() - j,
        {
            let sid = shaders[j].id;
            let ghost pre = *ctx;
            proof {
                assert(ctx.program_at(program_id).attached@[0] == shaders@[j as int].id);
                assert(ctx.program_at(program_id).attached@.contains(sid));
            }
            match sys::detach_shader(ctx, program_id, sid) {
                Ok(()) => {
                    proof {
                        let a_old = pre.program_at(program_id).attached@;
                        assert(sys::spec_find_id(a_old, sid) == 0);
                        assert(ctx.program_at(program_id).attached@ == a_old.remove(0));
                        assert forall|k: int|
                            0 <= k < a_old.len() - 1 implies a_old.remove(0)[k] == a_old[k
                            + 1] by {}
                    }
                    j = j + 1;
                },
                Err(e) => {
                    proof {
                        assert(false);
                    }
                    return Err(Error::Driver(e));
                },
            }
        }

        let status = match sys::get_program_paramter(
            ctx,
            program_id,
            ProgramParameter::LinkStatus,
        ) {
            Ok(v) => v,
            Err(e) => {
                proof {
                    assert(false);
                }
                return Err(Error::Driver(e));
            },
        };
        if status != 0 {
            proof {
                let ids = Seq::new(shaders@.len(), |k: int| shaders@[k].id);
                assert forall|a: int, b: int|
                    0 <= a < b < shaders@.len() implies old(ctx).shader_at(
                    (#[trigger] shaders@[a]).id,
                ).stage != old(ctx).shader_at((#[trigger] shaders@[b]).id).stage by {
                    assert(ids[a] == shaders@[a].id);
                    assert(ids[b] == shaders@[b].id);
                }
            }
            Ok(ShaderProgram { id: program_id })
        } else {
            let buffer_size = match sys::get_program_paramter(
                ctx,
                program_id,
                ProgramParameter::InfoLogLength,
            ) {
                Ok(v) => v,
                Err(e) => {
                    proof {
                        assert(false);
                    }
                    return Err(Error::Driver(e));
                },
            };
            let log = match sys::get_program_info_log(ctx, program_id, buffer_size) {
                Ok(l) => l,
                Err(e) => {
                    proof {
                        assert(false);
                    }
                    return Err(Error::Driver(e));
                },
            };
            let rd = sys::delete_program(ctx, program_id);
            proof {
                assert(rd is Ok);
                reveal_strlit("program link failed: stage missing its compiled shader or duplicated");
                let ids = Seq::new(shaders@.len(), |k: int| shaders@[k].id);
                assert(!accepted);
                if (forall|a: int, b: int|
                    0 <= a < b < shaders@.len() ==> old(ctx).shader_at(
                        (#[trigger] shaders@[a]).id,
                    ).stage != old(ctx).shader_at((#[trigger] shaders@[b]).id).stage) {
                    assert forall|a: int, b: int|
                        0 <= a < b < ids.len() implies old(ctx).shaders@[(#[trigger] ids[a])
                        - 1].stage != old(ctx).shaders@[(#[trigger] ids[b]) - 1].stage by {
                        assert(ids[a] == shaders@[a].id);
                        assert(ids[b] == shaders@[b].id);
                        assert(shaders@[a].valid(*old(ctx)));
                        assert(shaders@[b].valid(*old(ctx)));
                    }
                    assert forall|k: int| 0 <= k < ids.len() implies old(ctx).shaders@[(
                    #[trigger] ids[k]) - 1].compile_done && old(ctx).shaders@[ids[k]
                        - 1].compiled by {
                        assert(ids[k] == shaders@[k].id);
                        assert(shaders@[k].valid(*old(ctx)));
                    }
                    assert(accepted);
                }
            }
            Err(Error::ProgramLink(log))
        }
    }

    /// Makes this program the one in use. Cannot fail while the wrapper is
    /// valid.
    pub fn enable(&self, ctx: &mut Context) -> (r: Result<(), Error>)
        requires
            old(ctx).wf(),
            old(ctx).error == NO_ERROR,
            self.valid(*old(ctx)),
        ensures
            final(ctx).wf(),
            final(ctx).error == NO_ERROR,
            r == Ok::<(), Error>(()),
            *final(ctx) == (Context {
                current_program: self.id,
                calls: final(ctx).calls,
                ..*old(ctx)
            }),
            final(ctx).logged(*old(ctx), GlCall::UseProgram { id: self.id }),
    {
        match sys::use_program(ctx, self.id) {
            Ok(()) => Ok(()),
            Err(e) => Err(Error::Driver(e)),
        }
    }

    /// Resolves a uniform name to its location in this program. Returns the
    /// location exactly when some source the program was linked from
    /// references the name; otherwise the missing-resource error, never a
    /// driver state error.
    pub fn locate_uniform(&self, ctx: &mut Context, name: &str) -> (r: Result<
        sys::UniformLocation,
        Error,
    >)
        requires
            old(ctx).wf(),
            old(ctx).error == NO_ERROR,
            self.valid(*old(ctx)),
        ensures
            final(ctx).wf(),
            final(ctx).error == NO_ERROR,
            final(ctx).unchanged(*old(ctx)),
            (r is Ok) == spec_uniform_active(old(ctx).program_at(self.id), name@),
            r is Err ==> (r matches Err(Error::MissingUniform(n)) && n@ == name@),
            ({
                let sidx = spec_uniform_source_index(
                    old(ctx).program_at(self.id).linked_sources@,
                    name@,
                );
                sidx >= 0 ==> r == Ok::<sys::UniformLocation, Error>(sidx as u32)
            }),
    {
        proof {
            lemma_uniform_source_index(old(ctx).program_at(self.id).linked_sources@, name@);
        }
        match sys::get_uniform_location(ctx, self.id, name) {
            Ok(Some(location)) => Ok(location),
            Ok(None) => Err(Error::MissingUniform(String::from_str(name))),
            Err(e) => {
                proof {
                    assert(false);
                }
                Err(Error::Driver(e))
            },
        }
    }

    /// Releases the owned handle: exactly one delete call is issued.
    pub fn destroy(self, ctx: &mut Context)
        requires
            old(ctx).wf(),
            old(ctx).error == NO_ERROR,
            old(ctx).program_live(self.id),
        ensures
            final(ctx).wf(),
            final(ctx).error == NO_ERROR,
            !final(ctx).program_live(self.id),
            final(ctx).programs@.len() == old(ctx).programs@.len(),
            forall|p: u32|
                old(ctx).program_live(p) && p != self.id ==> final(ctx).program_live(p) && final(ctx).program_at(p) == old(ctx).program_at(p),
            final(ctx).current_program == (if old(ctx).current_program == self.id {
                0u32
            } else {
                old(ctx).current_program
            }),
            *final(ctx) == (Context {
                programs: final(ctx).programs,
                current_program: final(ctx).current_program,
                calls: final(ctx).calls,
                ..*old(ctx)
            }),
            final(ctx).logged(*old(ctx), GlCall::DeleteProgram { id: self.id }),
    {
        let r = sys::delete_program(ctx, self.id);
        proof {
            assert(r is Ok);
        }
    }
}

} // verus!
