//! Scene models: meshes paired with their diffuse and specular material
//! textures. Loading a scene file is a collaborator's job; this layer draws
//! what the collaborator decoded.

use vstd::prelude::*;

use crate::context::Context;
use crate::error::Error;
use crate::mesh::Mesh;
use crate::shader::ShaderProgram;
use crate::sys;
use crate::texture::{ShaderProgramTexture, TextureImage2D};
use crate::types::{DrawMode, NO_ERROR};

verus! {

/// A group of meshes sharing one diffuse and one specular material texture.
pub struct TexturedMesh {
    /// The diffuse material texture, sampled through "material.diffuse".
    pub diffuse: TextureImage2D,
    /// The specular material texture, sampled through "material.specular".
    pub specular: TextureImage2D,
    /// The meshes drawn under these materials.
    pub meshes: Vec<Mesh>,
}

impl TexturedMesh {
    /// Both textures are live, every mesh is valid, and every instanced
    /// mesh's instance count fits the driver's instanced-draw argument.
    pub open spec fn valid(self, ctx: Context) -> bool {
        &&& self.diffuse.valid(ctx)
        &&& self.specular.valid(ctx)
        &&& (forall|i: int|
            0 <= i < self.meshes@.len() ==> (#[trigger] self.meshes@[i]).valid(ctx))
        &&& (forall|i: int|
            0 <= i < self.meshes@.len() ==> ((#[trigger] self.meshes@[i]).instance_buffer
                matches Some(ibo) ==> ibo.size <= u32::MAX))
    }

    /// Binds the two material textures to units 0 and 1 through the
    /// program's sampler uniforms and draws every mesh as triangles.
    /// Succeeds exactly when both sampler names resolve in the program.
    #[verifier::loop_isolation(false)]
    pub fn draw(&self, ctx: &mut Context, shader: &ShaderProgram) -> (r: Result<(), Error>)
        requires
            old(ctx).wf(),
            old(ctx).error == NO_ERROR,
            shader.valid(*old(ctx)),
            self.valid(*old(ctx)),
        ensures
            final(ctx).wf(),
            final(ctx).error == NO_ERROR,
            final(ctx).same_objects(*old(ctx)),
            (r is Ok) == (sys::spec_uniform_active(
                old(ctx).program_at(shader.id),
                "material.diffuse"@,
            ) && sys::spec_uniform_active(old(ctx).program_at(shader.id), "material.specular"@)),
            r is Ok ==> final(ctx).current_program == shader.id,
            r is Err ==> (r matches Err(Error::MissingUniform(_))),
    {
        let shader_diffuse_texture = match ShaderProgramTexture::new(
            ctx,
            &self.diffuse,
            shader,
            "material.diffuse",
            0,
        ) {
            Ok(t) => t,
            Err(e) => {
                return Err(e);
            },
        };
        let shader_specular_texture = match ShaderProgramTexture::new(
            ctx,
            &self.specular,
            shader,
            "material.specular",
            1,
        ) {
            Ok(t) => t,
            Err(e) => {
                return Err(e);
            },
        };

        match shader_diffuse_texture.draw(ctx) {
            Ok(()) => (),
            Err(e) => {
                proof {
                    assert(false);
                }
                return Err(e);
            },
        }
        match shader_specular_texture.draw(ctx) {
            Ok(()) => (),
            Err(e) => {
                proof {
                    assert(false);
                }
                return Err(e);
            },
        }

        let mut i: usize = 0;
        while i < self.meshes.len()
            invariant
                0 <= i <= self.meshes@.len(),
                ctx.wf(),
                ctx.error == NO_ERROR,
                ctx.same_objects(*old(ctx)),
                ctx.current_program == shader.id,
            decreases self.meshes@.len() - i,
        {
            match self.meshes[i].draw(ctx, DrawMode::Triangles) {
                Ok(()) => (),
                Err(e) => {
                    proof {
                        assert(false);
                    }
                    return Err(e);
                },
            }
            i = i + 1;
        }
        Ok(())
    }
}

/// A loaded scene: material groups, some of which may have no usable
/// materials and are skipped when drawing.
pub struct Model {
    /// One entry per material of the scene; entries without both material
    /// textures hold nothing.
    pub textured_meshes: Vec<Option<TexturedMesh>>,
}

impl Model {
    /// Every present material group is valid.
    pub open spec fn valid(self, ctx: Context) -> bool {
        forall|i: int|
            0 <= i < self.textured_meshes@.len() ==> ((#[trigger] self.textured_meshes@[i])
                matches Some(tm) ==> tm.valid(ctx))
    }

    /// Some material group is present.
    pub open spec fn spec_has_meshes(self) -> bool {
        exists|i: int|
            0 <= i < self.textured_meshes@.len() && (#[trigger] self.textured_meshes@[i]) is Some
    }

    /// Draws every present material group through the program. Succeeds
    /// exactly when the model is empty or both material sampler names
    /// resolve in the program.
    #[verifier::loop_isolation(false)]
    pub fn draw(&self, ctx: &mut Context, shader: &ShaderProgram) -> (r: Result<(), Error>)
        requires
            old(ctx).wf(),
            old(ctx).error == NO_ERROR,
            shader.valid(*old(ctx)),
            self.valid(*old(ctx)),
        ensures
            final(ctx).wf(),
            final(ctx).error == NO_ERROR,
            final(ctx).same_objects(*old(ctx)),
            (r is Ok) == (!self.spec_has_meshes() || (sys::spec_uniform_active(
                old(ctx).program_at(shader.id),
                "material.diffuse"@,
            ) && sys::spec_uniform_active(old(ctx).program_at(shader.id), "material.specular"@))),
            r is Err ==> (r matches Err(Error::MissingUniform(_))),
    {
        let mut i: usize = 0;
        while i < self.textured_meshes.len()
            invariant
                0 <= i <= self.textured_meshes@.len(),
                ctx.wf(),
                ctx.error == NO_ERROR,
                ctx.same_objects(*old(ctx)),
                ctx.current_program == old(ctx).current_program || ctx.current_program
                    == shader.id,
                (exists|j: int|
                    0 <= j < i && (#[trigger] self.textured_meshes@[j]) is Some) ==> (
                sys::spec_uniform_active(old(ctx).program_at(shader.id), "material.diffuse"@)
                    && sys::spec_uniform_active(
                    old(ctx).program_at(shader.id),
                    "material.specular"@,
                )),
            decreases self.textured_meshes@.len() - i,
        {
            match &self.textured_meshes[i] {
                Some(textured_mesh) => {
                    match textured_mesh.draw(ctx, shader) {
                        Ok(()) => (),
                        Err(e) => {
                            return Err(e);
                        },
                    }
                },
                None => (),
            }
            i = i + 1;
        }
        proof {
            if self.spec_has_meshes() {
                let j = choose|j: int|
                    0 <= j < self.textured_meshes@.len() && (
                    #[trigger] self.textured_meshes@[j]) is Some;
            }
        }
        Ok(())
    }
}

} // verus!
