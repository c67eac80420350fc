//! The mesh abstraction: one vertex array, one required vertex buffer, an
//! optional index buffer and an optional instance buffer, composed into a
//! single drawable object with one `draw` operation that dispatches to the
//! correct underlying draw primitive.

use vstd::prelude::*;

use crate::buffer::{Buffer, VertexArray};
use crate::context::{Context, GlCall};
use crate::error::Error;
use crate::sys;
use crate::types::{
    spec_stride, BufferAttribute, BufferTarget, DataType, DrawMode, MAX_VERTEX_ATTRIBUTES,
    NO_ERROR,
};

verus! {

/// Every attribute of the layout fits in the driver's attribute slots.
pub open spec fn spec_attributes_in_range(layout: Seq<BufferAttribute>) -> bool {
    forall|i: int|
        0 <= i < layout.len() ==> (#[trigger] layout[i]).index < MAX_VERTEX_ATTRIBUTES
}

/// A drawable composition of buffers under one vertex array.
pub struct Mesh {
    /// The vertex array grouping the attribute configuration.
    pub vertex_array: VertexArray,
    /// The required vertex buffer.
    pub vertex_buffer: Buffer,
    /// The optional index buffer; its presence makes draws indexed.
    pub index_buffer: Option<Buffer>,
    /// The optional instance buffer; its presence makes draws instanced.
    pub instance_buffer: Option<Buffer>,
}

impl Mesh {
    /// All owned handles are live, distinct, and the vertex array has
    /// captured exactly the mesh's index buffer (or none).
    pub open spec fn valid(self, ctx: Context) -> bool {
        &&& ctx.vertex_array_live(self.vertex_array.id)
        &&& ctx.buffer_live(self.vertex_buffer.id)
        &&& (match self.index_buffer {
            Some(ebo) => ctx.buffer_live(ebo.id) && ctx.vertex_array_at(
                self.vertex_array.id,
            ).element_buffer == ebo.id && ebo.id != self.vertex_buffer.id,
            None => ctx.vertex_array_at(self.vertex_array.id).element_buffer == 0,
        })
        &&& (match self.instance_buffer {
            Some(ibo) => ctx.buffer_live(ibo.id) && ibo.id != self.vertex_buffer.id && (
            match self.index_buffer {
                Some(ebo) => ibo.id != ebo.id,
                None => true,
            }),
            None => true,
        })
    }

    /// The single draw command a draw of this mesh issues, decided by which
    /// optional buffers are present: indices make it an indexed draw sized
    /// by the index buffer's cached count (never the vertex count), instance
    /// data makes it instanced with the instance buffer's cached count, and
    /// without either it is a plain draw sized by the vertex buffer's cached
    /// count. The draw mode is handed through verbatim.
    pub open spec fn spec_draw_call(self, draw_mode: DrawMode) -> GlCall {
        match self.index_buffer {
            Some(ebo) => {
                match self.instance_buffer {
                    Some(ibo) => GlCall::DrawElementsInstanced {
                        mode: draw_mode,
                        count: ebo.size,
                        index_type: DataType::U32,
                        instances: ibo.size as u32,
                    },
                    None => GlCall::DrawElements {
                        mode: draw_mode,
                        count: ebo.size,
                        index_type: DataType::U32,
                    },
                }
            },
            None => {
                match self.instance_buffer {
                    Some(ibo) => GlCall::DrawArraysInstanced {
                        mode: draw_mode,
                        starting_index: 0,
                        count: self.vertex_buffer.size,
                        instances: ibo.size as u32,
                    },
                    None => GlCall::DrawArrays {
                        mode: draw_mode,
                        starting_index: 0,
                        count: self.vertex_buffer.size,
                    },
                }
            },
        }
    }

    /// Builds a mesh: creates and binds a vertex array, uploads the vertex
    /// bytes with their layout, uploads the indices (as 32-bit values) and
    /// the instance records with their own layout when present, and finally
    /// unbinds the vertex array so no later call can mutate this mesh's
    /// state through the global bind point.
    ///
    /// Succeeds exactly when every attribute of both layouts fits in the
    /// driver's attribute slots. On failure every handle created by this
    /// call has been released again: no partially-valid mesh is ever
    /// returned.
    pub fn new(
        ctx: &mut Context,
        vertices: &[u8],
        vertex_count: u64,
        vertex_layout: &[BufferAttribute],
        indices: Option<&[u32]>,
        instances: Option<(&[u8], u64, &[BufferAttribute])>,
    ) -> (r: Result<Mesh, Error>)
        requires
            old(ctx).wf(),
            old(ctx).error == NO_ERROR,
            spec_stride(vertex_layout@) <= u32::MAX,
            (instances matches Some((d, c, l)) ==> spec_stride(l@) <= u32::MAX && c <= u32::MAX),
            (indices matches Some(ix) ==> ix@.len() * 4 <= usize::MAX),
            old(ctx).buffers@.len() + 3 <= u32::MAX,
            old(ctx).vertex_arrays@.len() < u32::MAX,
        ensures
            final(ctx).wf(),
            final(ctx).error == NO_ERROR,
            final(ctx).textures == old(ctx).textures,
            final(ctx).shaders == old(ctx).shaders,
            final(ctx).programs == old(ctx).programs,
            final(ctx).frame_buffers == old(ctx).frame_buffers,
            final(ctx).render_buffers == old(ctx).render_buffers,
            final(ctx).current_program == old(ctx).current_program,
            forall|b: u32| old(ctx).buffer_live(b) ==> final(ctx).buffer_live(b),
            forall|v: u32| old(ctx).vertex_array_live(v) ==> final(ctx).vertex_array_live(v),
            ({
                let attrs_ok = spec_attributes_in_range(vertex_layout@) && (instances matches Some(
                    (d, c, l),
                ) ==> spec_attributes_in_range(l@));
                &&& (attrs_ok <==> r is Ok)
                &&& (r matches Ok(m) ==> {
                    &&& m.valid(*final(ctx))
                    &&& m.vertex_buffer.size == vertex_count
                    &&& m.vertex_buffer.target == BufferTarget::Array
                    &&& (m.index_buffer is Some <==> indices is Some)
                    &&& (match (m.index_buffer, indices) {
                        (Some(ebo), Some(ix)) => ebo.size == ix@.len() && ebo.target
                            == BufferTarget::ElementArray,
                        _ => true,
                    })
                    &&& (m.instance_buffer is Some <==> instances is Some)
                    &&& (match (m.instance_buffer, instances) {
                        (Some(ibo), Some((d, c, l))) => ibo.size == c && ibo.target
                            == BufferTarget::Array,
                        _ => true,
                    })
                    &&& final(ctx).bound_vertex_array == 0
                })
                &&& (!attrs_ok ==> {
                    &&& r == Err::<Mesh, Error>(Error::Driver(sys::Error::InvalidValue))
                    &&& (forall|b: int|
                        old(ctx).buffers@.len() <= b < final(ctx).buffers@.len()
                            ==> !final(ctx).buffers@[b])
                    &&& (forall|v: int|
                        old(ctx).vertex_arrays@.len() <= v < final(ctx).vertex_arrays@.len()
                            ==> !final(ctx).vertex_arrays@[v].alive)
                })
            }),
    {
        let vertex_array = VertexArray::new(ctx);
        match vertex_array.bind(ctx) {
            Ok(()) => (),
            Err(e) => {
                proof {
                    assert(false);
                }
                return Err(e);
            },
        }

        let mut vertex_buffer = Buffer::new(ctx, BufferTarget::Array);
        match vertex_buffer.bind(ctx, vertices, vertex_count, vertex_layout) {
            Ok(()) => (),
            Err(e) => {
                vertex_buffer.destroy(ctx);
                vertex_array.destroy(ctx);
                return Err(e);
            },
        }

        let index_buffer = match indices {
            Some(index_values) => {
                let mut b = Buffer::new(ctx, BufferTarget::ElementArray);
                match b.bind_indices(ctx, index_values) {
                    Ok(()) => (),
                    Err(e) => {
                        proof {
                            assert(false);
                        }
                        return Err(e);
                    },
                }
                Some(b)
            },
            None => None,
        };

        let instance_buffer = match instances {
            Some((instance_data, instance_count, instance_layout)) => {
                let mut b = Buffer::new(ctx, BufferTarget::Array);
                match b.bind(ctx, instance_data, instance_count, instance_layout) {
                    Ok(()) => Some(b),
                    Err(e) => {
                        b.destroy(ctx);
                        match index_buffer {
                            Some(eb) => eb.destroy(ctx),
                            None => (),
                        }
                        vertex_buffer.destroy(ctx);
                        vertex_array.destroy(ctx);
                        return Err(e);
                    },
                }
            },
            None => None,
        };

        match sys::bind_vertex_array(ctx, 0) {
            Ok(()) => (),
            Err(e) => {
                proof {
                    assert(false);
                }
                return Err(Error::Driver(e));
            },
        }

        Ok(Mesh { vertex_array, vertex_buffer, index_buffer, instance_buffer })
    }

    /// Draws the mesh: re-binds its vertex array, issues exactly the one
    /// draw command of [`Mesh::spec_draw_call`], and unbinds the vertex
    /// array again. Fails exactly when no program is in use; the failed
    /// dispatch leaves the vertex array bound, as the early error return
    /// skips the unbind.
    pub fn draw(&self, ctx: &mut Context, draw_mode: DrawMode) -> (r: Result<(), Error>)
        requires
            old(ctx).wf(),
            old(ctx).error == NO_ERROR,
            self.valid(*old(ctx)),
            (self.instance_buffer matches Some(ibo) ==> ibo.size <= u32::MAX),
        ensures
            final(ctx).wf(),
            final(ctx).error == NO_ERROR,
            old(ctx).current_program != 0 ==> {
                &&& r == Ok::<(), Error>(())
                &&& final(ctx).logged_seq(
                    *old(ctx),
                    seq![
                        GlCall::BindVertexArray { id: self.vertex_array.id },
                        self.spec_draw_call(draw_mode),
                        GlCall::BindVertexArray { id: 0u32 },
                    ],
                )
                &&& *final(ctx) == (Context {
                    bound_vertex_array: 0u32,
                    calls: final(ctx).calls,
                    ..*old(ctx)
                })
            },
            old(ctx).current_program == 0 ==> {
                &&& r == Err::<(), Error>(Error::Driver(sys::Error::InvalidOperation))
                &&& final(ctx).logged_seq(
                    *old(ctx),
                    seq![GlCall::BindVertexArray { id: self.vertex_array.id }],
                )
                &&& *final(ctx) == (Context {
                    bound_vertex_array: self.vertex_array.id,
                    calls: final(ctx).calls,
                    ..*old(ctx)
                })
            },
    {
        match self.vertex_array.bind(ctx) {
            Ok(()) => (),
            Err(e) => {
                proof {
                    assert(false);
                }
                return Err(e);
            },
        }

        let result = match &self.instance_buffer {
            Some(ibo) => {
                match &self.index_buffer {
                    Some(ebo) => sys::draw_elements_instanced(
                        ctx,
                        draw_mode,
                        ebo.size,
                        DataType::U32,
                        ibo.size as u32,
                    ),
                    None => sys::draw_arrays_instanced(
                        ctx,
                        draw_mode,
                        0,
                        self.vertex_buffer.size,
                        ibo.size as u32,
                    ),
                }
            },
            None => {
                match &self.index_buffer {
                    Some(ebo) => sys::draw_elements(ctx, draw_mode, ebo.size, DataType::U32),
                    None => sys::draw_arrays(ctx, draw_mode, 0, self.vertex_buffer.size),
                }
            },
        };
        match result {
            Ok(()) => (),
            Err(e) => {
                proof {
                    assert(ctx.calls@ =~= old(ctx).calls@ + seq![
                        GlCall::BindVertexArray { id: self.vertex_array.id },
                    ]);
                }
                return Err(Error::Driver(e));
            },
        }

        match sys::bind_vertex_array(ctx, 0) {
            Ok(()) => (),
            Err(e) => {
                proof {
                    assert(false);
                }
                return Err(Error::Driver(e));
            },
        }
        proof {
            assert(ctx.calls@ =~= old(ctx).calls@ + seq![
                GlCall::BindVertexArray { id: self.vertex_array.id },
                self.spec_draw_call(draw_mode),
                GlCall::BindVertexArray { id: 0u32 },
            ]);
        }
        Ok(())
    }

    /// Releases every owned handle: exactly one delete call per handle, in
    /// composition order (vertex array, vertex buffer, then the optional
    /// index and instance buffers).
    pub fn destroy(self, ctx: &mut Context)
        requires
            old(ctx).wf(),
            old(ctx).error == NO_ERROR,
            self.valid(*old(ctx)),
        ensures
            final(ctx).wf(),
            final(ctx).error == NO_ERROR,
            !final(ctx).vertex_array_live(self.vertex_array.id),
            !final(ctx).buffer_live(self.vertex_buffer.id),
            (self.index_buffer matches Some(ebo) ==> !final(ctx).buffer_live(ebo.id)),
            (self.instance_buffer matches Some(ibo) ==> !final(ctx).buffer_live(ibo.id)),
            final(ctx).logged_seq(
                *old(ctx),
                seq![
                    GlCall::DeleteVertexArray { id: self.vertex_array.id },
                    GlCall::DeleteBuffer { id: self.vertex_buffer.id },
                ] + (match self.index_buffer {
                    Some(ebo) => seq![GlCall::DeleteBuffer { id: ebo.id }],
                    None => Seq::<GlCall>::empty(),
                }) + (match self.instance_buffer {
                    Some(ibo) => seq![GlCall::DeleteBuffer { id: ibo.id }],
                    None => Seq::<GlCall>::empty(),
                }),
            ),
    {
        let Mesh { vertex_array, vertex_buffer, index_buffer, instance_buffer } = self;
        let ghost start = *ctx;
        vertex_array.destroy(ctx);
        vertex_buffer.destroy(ctx);
        match index_buffer {
            Some(b) => b.destroy(ctx),
            None => (),
        }
        match instance_buffer {
            Some(b) => b.destroy(ctx),
            None => (),
        }
        proof {
            assert(ctx.calls@ =~= start.calls@ + (seq![
                GlCall::DeleteVertexArray { id: self.vertex_array.id },
                GlCall::DeleteBuffer { id: self.vertex_buffer.id },
            ] + (match self.index_buffer {
                Some(ebo) => seq![GlCall::DeleteBuffer { id: ebo.id }],
                None => Seq::<GlCall>::empty(),
            }) + (match self.instance_buffer {
                Some(ibo) => seq![GlCall::DeleteBuffer { id: ibo.id }],
                None => Seq::<GlCall>::empty(),
            })));
        }
    }
}

} // verus!
