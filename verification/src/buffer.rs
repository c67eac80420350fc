//! Vertex arrays and data buffers: each wrapper exclusively owns one native
//! handle, created on construction and released by exactly one delete call on
//! destruction. A buffer caches the element count of its last upload, which
//! later sizes draw calls without re-querying the driver.

use vstd::prelude::*;

use crate::context::{Context, GlCall, VaoObj};
use crate::error::Error;
use crate::sys;
use crate::types::{
    spec_offset, spec_stride, BufferAttribute, BufferTarget, BufferUsage, MAX_VERTEX_ATTRIBUTES,
    NO_ERROR, compute_stride, lemma_stride_prefix_le, lemma_stride_take_succ,
};

verus! {

/// A named grouping of vertex-attribute configuration, independent of the
/// data buffers it reads from.
pub struct VertexArray {
    /// The owned native handle.
    pub id: u32,
}

impl VertexArray {
    /// The owned handle is live in `ctx`.
    pub open spec fn valid(self, ctx: Context) -> bool {
        ctx.vertex_array_live(self.id)
    }

    /// Creates a vertex array; allocation always succeeds.
    pub fn new(ctx: &mut Context) -> (va: VertexArray)
        requires
            old(ctx).wf(),
            old(ctx).error == NO_ERROR,
            old(ctx).vertex_arrays@.len() < u32::MAX,
        ensures
            final(ctx).wf(),
            final(ctx).error == NO_ERROR,
            va.valid(*final(ctx)),
            va.id == old(ctx).vertex_arrays@.len() + 1,
            final(ctx).vertex_arrays@ == old(ctx).vertex_arrays@.push(
                VaoObj { alive: true, element_buffer: 0 },
            ),
            *final(ctx) == (Context {
                vertex_arrays: final(ctx).vertex_arrays,
                calls: final(ctx).calls,
                ..*old(ctx)
            }),
            final(ctx).logged(*old(ctx), GlCall::GenVertexArray { id: va.id }),
    {
        let id = sys::create_vertex_array(ctx);
        VertexArray { id }
    }

    /// Binds this vertex array at the global bind point. Cannot fail while
    /// the handle is live.
    pub fn bind(&self, ctx: &mut Context) -> (r: Result<(), Error>)
        requires
            old(ctx).wf(),
            old(ctx).error == NO_ERROR,
            self.valid(*old(ctx)),
        ensures
            final(ctx).wf(),
            final(ctx).error == NO_ERROR,
            r == Ok::<(), Error>(()),
            *final(ctx) == (Context {
                bound_vertex_array: self.id,
                calls: final(ctx).calls,
                ..*old(ctx)
            }),
            final(ctx).logged(*old(ctx), GlCall::BindVertexArray { id: self.id }),
    {
        match sys::bind_vertex_array(ctx, self.id) {
            Ok(()) => Ok(()),
            Err(e) => Err(Error::Driver(e)),
        }
    }

    /// Releases the owned handle: exactly one delete call is issued, and the
    /// handle is dead afterwards. Consuming the wrapper makes a second
    /// release of the same handle unwritable.
    pub fn destroy(self, ctx: &mut Context)
        requires
            old(ctx).wf(),
            old(ctx).error == NO_ERROR,
            self.valid(*old(ctx)),
        ensures
            final(ctx).wf(),
            final(ctx).error == NO_ERROR,
            !final(ctx).vertex_array_live(self.id),
            final(ctx).vertex_arrays@ == old(ctx).vertex_arrays@.update(
                self.id - 1,
                (VaoObj { alive: false, ..old(ctx).vertex_array_at(self.id) }),
            ),
            final(ctx).bound_vertex_array == (if old(ctx).bound_vertex_array == self.id {
                0u32
            } else {
                old(ctx).bound_vertex_array
            }),
            *final(ctx) == (Context {
                vertex_arrays: final(ctx).vertex_arrays,
                bound_vertex_array: final(ctx).bound_vertex_array,
                calls: final(ctx).calls,
                ..*old(ctx)
            }),
            final(ctx).logged(*old(ctx), GlCall::DeleteVertexArray { id: self.id }),
    {
        let r = sys::delete_vertex_array(ctx, self.id);
        proof {
            assert(r is Ok);
        }
    }
}

/// A data buffer: one owned native handle, a bind-point tag, and the element
/// count of the last upload.
pub struct Buffer {
    /// The owned native handle.
    pub id: u32,
    /// The bind point this buffer is used at: vertex data or index data.
    pub target: BufferTarget,
    /// Element count of the last upload; sizes draw calls later.
    pub size: u64,
}

/// The commands that applying one attribute layout issues, in declaration
/// order: for each attribute, enable its slot, describe it with the layout's
/// common stride and the attribute's running byte offset, and set its
/// instancing divisor.
pub open spec fn spec_layout_calls(layout: Seq<BufferAttribute>, stride: u32) -> Seq<GlCall>
    decreases layout.len(),
{
    if layout.len() == 0 {
        Seq::<GlCall>::empty()
    } else {
        let a = layout.last();
        spec_layout_calls(layout.drop_last(), stride) + seq![
            GlCall::EnableVertexAttributeArray { index: a.index },
            GlCall::VertexAttributePointer {
                index: a.index,
                size: a.size,
                data_type: a.data_type,
                normalised: false,
                stride,
                offset: spec_offset(layout, layout.len() - 1) as u32,
            },
            GlCall::VertexAttributeDivisor { index: a.index, divisor: a.divisor },
        ]
    }
}

/// Extending a layout prefix by one attribute appends that attribute's three
/// commands.
pub proof fn lemma_layout_calls_take_succ(layout: Seq<BufferAttribute>, stride: u32, i: int)
    requires
        0 <= i < layout.len(),
    ensures
        spec_layout_calls(layout.take(i + 1), stride) == spec_layout_calls(layout.take(i), stride)
            + seq![
            GlCall::EnableVertexAttributeArray { index: layout[i].index },
            GlCall::VertexAttributePointer {
                index: layout[i].index,
                size: layout[i].size,
                data_type: layout[i].data_type,
                normalised: false,
                stride,
                offset: spec_offset(layout, i) as u32,
            },
            GlCall::VertexAttributeDivisor { index: layout[i].index, divisor: layout[i].divisor },
        ],
{
    assert(layout.take(i + 1).drop_last() =~= layout.take(i));
    assert(layout.take(i + 1).last() == layout[i]);
    assert(layout.take(i + 1).take(i) =~= layout.take(i));
}

/// Applying a layout can go ahead: there is nothing to apply, or a vertex
/// array is bound, every attribute's slot is within the driver's limit, and a
/// vertex buffer is bound for the attribute descriptions to refer to.
pub open spec fn spec_layout_ok(ctx: Context, target: BufferTarget, layout: Seq<
    BufferAttribute,
>) -> bool {
    layout.len() == 0 || (ctx.bound_vertex_array != 0 && (forall|i: int|
        0 <= i < layout.len() ==> (#[trigger] layout[i]).index < MAX_VERTEX_ATTRIBUTES) && (target
        == BufferTarget::Array || ctx.bound_array_buffer != 0))
}

impl Buffer {
    /// The owned handle is live in `ctx`.
    pub open spec fn valid(self, ctx: Context) -> bool {
        ctx.buffer_live(self.id)
    }

    /// Creates a buffer for one bind point; allocation always succeeds, and
    /// nothing is uploaded yet.
    pub fn new(ctx: &mut Context, target: BufferTarget) -> (b: Buffer)
        requires
            old(ctx).wf(),
            old(ctx).error == NO_ERROR,
            old(ctx).buffers@.len() < u32::MAX,
        ensures
            final(ctx).wf(),
            final(ctx).error == NO_ERROR,
            b.valid(*final(ctx)),
            b.id == old(ctx).buffers@.len() + 1,
            b.target == target,
            b.size == 0,
            final(ctx).buffers@ == old(ctx).buffers@.push(true),
            *final(ctx) == (Context {
                buffers: final(ctx).buffers,
                calls: final(ctx).calls,
                ..*old(ctx)
            }),
            final(ctx).logged(*old(ctx), GlCall::GenBuffer { id: b.id }),
    {
        let id = sys::create_buffer(ctx);
        Buffer { id, target, size: 0 }
    }

    /// Binds the buffer at its bind point, uploads `data` (caching `count`,
    /// the number of elements the bytes encode), and applies the interleaved
    /// attribute layout: each attribute is enabled, described with the
    /// layout's common stride and its running byte offset, and given its
    /// instancing divisor, in declaration order.
    ///
    /// Succeeds exactly when the layout can be applied (see
    /// [`spec_layout_ok`]); an index buffer is bound with an empty layout and
    /// so cannot fail. On failure the upload has still happened and the
    /// count is still cached.
    #[verifier::loop_isolation(false)]
    pub fn bind(
        &mut self,
        ctx: &mut Context,
        data: &[u8],
        count: u64,
        attribute_layout: &[BufferAttribute],
    ) -> (r: Result<(), Error>)
        requires
            old(ctx).wf(),
            old(ctx).error == NO_ERROR,
            old(self).valid(*old(ctx)),
            spec_stride(attribute_layout@) <= u32::MAX,
        ensures
            final(ctx).wf(),
            final(ctx).error == NO_ERROR,
            final(self).id == old(self).id,
            final(self).target == old(self).target,
            final(self).size == count,
            final(self).valid(*final(ctx)),
            final(ctx).buffers == old(ctx).buffers,
            final(ctx).textures == old(ctx).textures,
            final(ctx).shaders == old(ctx).shaders,
            final(ctx).programs == old(ctx).programs,
            final(ctx).frame_buffers == old(ctx).frame_buffers,
            final(ctx).render_buffers == old(ctx).render_buffers,
            final(ctx).vertex_arrays@.len() == old(ctx).vertex_arrays@.len(),
            forall|k: int|
                0 <= k < old(ctx).vertex_arrays@.len() ==> (#[trigger] final(ctx).vertex_arrays@[k]).alive == old(ctx).vertex_arrays@[k].alive,
            final(ctx).bound_vertex_array == old(ctx).bound_vertex_array,
            final(ctx).current_program == old(ctx).current_program,
            spec_layout_ok(*old(ctx), old(self).target, attribute_layout@) ==> {
                &&& r == Ok::<(), Error>(())
                &&& final(ctx).logged_seq(
                    *old(ctx),
                    seq![
                        GlCall::BindBuffer { target: old(self).target, id: old(self).id },
                        GlCall::BufferData {
                            target: old(self).target,
                            usage: BufferUsage::StaticDraw,
                            byte_len: data@.len() as usize,
                        },
                    ] + spec_layout_calls(
                        attribute_layout@,
                        spec_stride(attribute_layout@) as u32,
                    ),
                )
                &&& (old(self).target == BufferTarget::Array ==> *final(ctx) == (Context {
                    bound_array_buffer: old(self).id,
                    calls: final(ctx).calls,
                    ..*old(ctx)
                }))
                &&& (old(self).target == BufferTarget::ElementArray && old(ctx).bound_vertex_array
                    == 0 ==> *final(ctx) == (Context {
                    bound_element_buffer: old(self).id,
                    calls: final(ctx).calls,
                    ..*old(ctx)
                }))
                &&& (old(self).target == BufferTarget::ElementArray && old(ctx).bound_vertex_array
                    != 0 ==> *final(ctx) == (Context {
                    vertex_arrays: final(ctx).vertex_arrays,
                    calls: final(ctx).calls,
                    ..*old(ctx)
                }) && final(ctx).vertex_arrays@ == old(ctx).vertex_arrays@.update(
                    old(ctx).bound_vertex_array - 1,
                    (VaoObj {
                        element_buffer: old(self).id,
                        ..old(ctx).vertex_array_at(old(ctx).bound_vertex_array)
                    }),
                ))
            },
            !spec_layout_ok(*old(ctx), old(self).target, attribute_layout@) ==> {
                &&& (r == Err::<(), Error>(
                    Error::Driver(
                        if attribute_layout@[0].index >= MAX_VERTEX_ATTRIBUTES {
                            sys::Error::InvalidValue
                        } else if old(ctx).bound_vertex_array == 0 {
                            sys::Error::InvalidOperation
                        } else if !(old(self).target == BufferTarget::Array || old(
                            ctx,
                        ).bound_array_buffer != 0) {
                            sys::Error::InvalidOperation
                        } else {
                            sys::Error::InvalidValue
                        },
                    ),
                ))
                &&& old(ctx).calls@.is_prefix_of(final(ctx).calls@)
            },
    {
        let target = self.target;
        match sys::bind_buffer(ctx, self.id, target) {
            Ok(()) => (),
            Err(e) => {
                proof {
                    assert(false);
                }
                return Err(Error::Driver(e));
            },
        }
        match sys::set_buffer_data(ctx, target, BufferUsage::StaticDraw, data) {
            Ok(()) => (),
            Err(e) => {
                proof {
                    assert(false);
                }
                return Err(Error::Driver(e));
            },
        }
        self.size = count;

        let ghost ctx_up = *ctx;
        let stride = compute_stride(attribute_layout);

        let mut offset: u32 = 0;
        let mut i: usize = 0;
        while i < attribute_layout.len()
            invariant
                0 <= i <= attribute_layout@.len(),
                offset == spec_offset(attribute_layout@, i as int),
                ctx.wf(),
                ctx.error == NO_ERROR,
                ctx.same_objects(ctx_up),
                ctx.same_binds(ctx_up),
                ctx.logged_seq(
                    ctx_up,
                    spec_layout_calls(attribute_layout@.take(i as int), stride),
                ),
                i > 0 ==> (ctx.bound_vertex_array != 0 && (forall|j: int|
                    0 <= j < i ==> (#[trigger] attribute_layout@[j]).index
                        < MAX_VERTEX_ATTRIBUTES) && (target == BufferTarget::Array
                    || ctx.bound_array_buffer != 0)),
            decreases attribute_layout@.len() - i,
        {
            proof {
                lemma_stride_prefix_le(attribute_layout@, i as int);
                lemma_stride_prefix_le(attribute_layout@, i + 1);
                lemma_stride_take_succ(attribute_layout@, i as int);
                lemma_layout_calls_take_succ(attribute_layout@, stride, i as int);
            }
            let attribute = attribute_layout[i];
            match sys::enable_vertex_attribute_array(ctx, attribute.index) {
                Ok(()) => (),
                Err(e) => {
                    return Err(Error::Driver(e));
                },
            }
            match sys::vertex_attribute_pointer(
                ctx,
                attribute.index,
                attribute.size,
                attribute.data_type,
                false,
                stride,
                offset,
            ) {
                Ok(()) => (),
                Err(e) => {
                    return Err(Error::Driver(e));
                },
            }
            match sys::set_vertex_attribute_divisor(ctx, attribute.index, attribute.divisor) {
                Ok(()) => (),
                Err(e) => {
                    proof {
                        assert(false);
                    }
                    return Err(Error::Driver(e));
                },
            }
            offset = offset + attribute.size.component_count() * attribute.data_type.num_bytes();
            proof {
                assert(ctx.calls@ =~= ctx_up.calls@ + spec_layout_calls(
                    attribute_layout@.take(i as int + 1),
                    stride,
                ));
            }
            i = i + 1;
        }
        proof {
            lemma_stride_prefix_le(attribute_layout@, attribute_layout@.len() as int);
            assert(attribute_layout@.take(attribute_layout@.len() as int) =~= attribute_layout@);
            assert(ctx.calls@ =~= old(ctx).calls@ + (seq![
                GlCall::BindBuffer { target: old(self).target, id: old(self).id },
                GlCall::BufferData {
                    target: old(self).target,
                    usage: BufferUsage::StaticDraw,
                    byte_len: data@.len() as usize,
                },
            ] + spec_layout_calls(attribute_layout@, stride)));
        }
        Ok(())
    }

    /// Binds the buffer at the index-data bind point (captured by the bound
    /// vertex array, if any) and uploads `indices`, caching their count:
    /// four bytes cross the boundary per 32-bit index, and no attribute
    /// layout applies. Cannot fail while the handle is live.
    pub fn bind_indices(&mut self, ctx: &mut Context, indices: &[u32]) -> (r: Result<(), Error>)
        requires
            old(ctx).wf(),
            old(ctx).error == NO_ERROR,
            old(self).valid(*old(ctx)),
            old(self).target == BufferTarget::ElementArray,
            indices@.len() * 4 <= usize::MAX,
        ensures
            final(ctx).wf(),
            final(ctx).error == NO_ERROR,
            final(self).id == old(self).id,
            final(self).target == old(self).target,
            final(self).size == indices@.len(),
            r == Ok::<(), Error>(()),
            final(ctx).logged_seq(
                *old(ctx),
                seq![
                    GlCall::BindBuffer { target: BufferTarget::ElementArray, id: old(self).id },
                    GlCall::BufferData {
                        target: BufferTarget::ElementArray,
                        usage: BufferUsage::StaticDraw,
                        byte_len: (indices@.len() * 4) as usize,
                    },
                ],
            ),
            old(ctx).bound_vertex_array == 0 ==> *final(ctx) == (Context {
                bound_element_buffer: old(self).id,
                calls: final(ctx).calls,
                ..*old(ctx)
            }),
            old(ctx).bound_vertex_array != 0 ==> *final(ctx) == (Context {
                vertex_arrays: final(ctx).vertex_arrays,
                calls: final(ctx).calls,
                ..*old(ctx)
            }) && final(ctx).vertex_arrays@ == old(ctx).vertex_arrays@.update(
                old(ctx).bound_vertex_array - 1,
                (VaoObj {
                    element_buffer: old(self).id,
                    ..old(ctx).vertex_array_at(old(ctx).bound_vertex_array)
                }),
            ),
    {
        match sys::bind_buffer(ctx, self.id, BufferTarget::ElementArray) {
            Ok(()) => (),
            Err(e) => {
                proof {
                    assert(false);
                }
                return Err(Error::Driver(e));
            },
        }
        match sys::set_buffer_data_u32(
            ctx,
            BufferTarget::ElementArray,
            BufferUsage::StaticDraw,
            indices,
        ) {
            Ok(()) => (),
            Err(e) => {
                proof {
                    assert(false);
                }
                return Err(Error::Driver(e));
            },
        }
        self.size = indices.len() as u64;
        proof {
            assert(ctx.calls@ =~= old(ctx).calls@ + seq![
                GlCall::BindBuffer { target: BufferTarget::ElementArray, id: old(self).id },
                GlCall::BufferData {
                    target: BufferTarget::ElementArray,
                    usage: BufferUsage::StaticDraw,
                    byte_len: (indices@.len() * 4) as usize,
                },
            ]);
        }
        Ok(())
    }

    /// Releases the owned handle: exactly one delete call is issued, and the
    /// handle is dead afterwards.
    pub fn destroy(self, ctx: &mut Context)
        requires
            old(ctx).wf(),
            old(ctx).error == NO_ERROR,
            self.valid(*old(ctx)),
        ensures
            final(ctx).wf(),
            final(ctx).error == NO_ERROR,
            !final(ctx).buffer_live(self.id),
            final(ctx).buffers@ == old(ctx).buffers@.update(self.id - 1, false),
            *final(ctx) == (Context {
                buffers: final(ctx).buffers,
                bound_array_buffer: final(ctx).bound_array_buffer,
                bound_element_buffer: final(ctx).bound_element_buffer,
                calls: final(ctx).calls,
                ..*old(ctx)
            }),
            final(ctx).logged(*old(ctx), GlCall::DeleteBuffer { id: self.id }),
    {
        let r = sys::delete_buffer(ctx, self.id);
        proof {
            assert(r is Ok);
        }
    }
}

} // verus!
