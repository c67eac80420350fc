//! The call layer of the safety stack: one function per driver entry point,
//! operating on the explicit [`Context`] model. Every state-mutating call is
//! followed immediately by an error-flag check, and the mapped error kind is
//! propagated as a result; no call's failure is silently ignored.

use vstd::prelude::*;
use vstd::pervasive::VecAdditionalExecFns;
use vstd::string::{StrSliceExecFns, StringExecFns};

use crate::context::{Context, GlCall, ProgramObj, ShaderObj, VaoObj};
use crate::strutil::{contains_char, contains_substring, spec_contains};
use crate::types::{
    BufferBit, BufferTarget, BufferUsage, DataType, DepthFunc, DrawMode, Feature,
    FrameBufferAttachment, FrameBufferTarget, INVALID_ENUM, INVALID_FRAMEBUFFER_OPERATION,
    INVALID_OPERATION, INVALID_VALUE, MAX_SOURCE_LEN, MAX_TEXTURE_UNITS, MAX_VERTEX_ATTRIBUTES,
    NO_ERROR, OUT_OF_MEMORY, ProgramParameter, RenderBufferStorageFormat, STACK_OVERFLOW,
    STACK_UNDERFLOW, ShaderParameter, ShaderType, TextureFormat, TextureParameterName,
    TextureParameterValue, TextureTarget, VertexAttributeSize,
};

verus! {

/// The closed set of error kinds the driver's error flag maps to.
#[derive(Clone, Copy, Debug, PartialEq, Eq, Structural)]
pub enum Error {
    Unknown(u32),
    InvalidEnum,
    InvalidValue,
    InvalidOperation,
    StackOverflow,
    StackUnderflow,
    OutOfMemory,
    InvalidFrameBufferOperation,
}

pub type ShaderID = u32;

pub type ProgramID = u32;

pub type UniformLocation = u32;

pub type BufferID = u32;

pub type VertexArrayID = u32;

pub type TextureID = u32;

pub type FrameBufferID = u32;

pub type RenderBufferID = u32;

/// The error kind a raw flag value translates to; `None` when the flag is
/// clear.
pub open spec fn spec_error_of(code: u32) -> Option<Error> {
    if code == NO_ERROR {
        None
    } else if code == INVALID_ENUM {
        Some(Error::InvalidEnum)
    } else if code == INVALID_VALUE {
        Some(Error::InvalidValue)
    } else if code == INVALID_OPERATION {
        Some(Error::InvalidOperation)
    } else if code == STACK_OVERFLOW {
        Some(Error::StackOverflow)
    } else if code == STACK_UNDERFLOW {
        Some(Error::StackUnderflow)
    } else if code == OUT_OF_MEMORY {
        Some(Error::OutOfMemory)
    } else if code == INVALID_FRAMEBUFFER_OPERATION {
        Some(Error::InvalidFrameBufferOperation)
    } else {
        Some(Error::Unknown(code))
    }
}

/// Queries the error flag once, consuming it: the flag is clear afterwards,
/// so a check must stand immediately after the operation it guards.
pub fn get_error(ctx: &mut Context) -> (r: Option<Error>)
    ensures
        final(ctx).error == NO_ERROR,
        final(ctx).same_objects(*old(ctx)),
        final(ctx).same_binds(*old(ctx)),
        final(ctx).calls@ == old(ctx).calls@,
        r == spec_error_of(old(ctx).error),
{
    let code = ctx.error;
    ctx.error = NO_ERROR;
    if code == NO_ERROR {
        None
    } else if code == INVALID_ENUM {
        Some(Error::InvalidEnum)
    } else if code == INVALID_VALUE {
        Some(Error::InvalidValue)
    } else if code == INVALID_OPERATION {
        Some(Error::InvalidOperation)
    } else if code == STACK_OVERFLOW {
        Some(Error::StackOverflow)
    } else if code == STACK_UNDERFLOW {
        Some(Error::StackUnderflow)
    } else if code == OUT_OF_MEMORY {
        Some(Error::OutOfMemory)
    } else if code == INVALID_FRAMEBUFFER_OPERATION {
        Some(Error::InvalidFrameBufferOperation)
    } else {
        Some(Error::Unknown(code))
    }
}

/// Turns the consumed error flag into a result: the failure union every
/// boundary-crossing call returns.
pub fn assert_no_error(ctx: &mut Context) -> (r: Result<(), Error>)
    ensures
        final(ctx).error == NO_ERROR,
        final(ctx).same_objects(*old(ctx)),
        final(ctx).same_binds(*old(ctx)),
        final(ctx).calls@ == old(ctx).calls@,
        match spec_error_of(old(ctx).error) {
            Some(e) => r == Err::<(), Error>(e),
            None => r == Ok::<(), Error>(()),
        },
{
    match get_error(ctx) {
        Some(error) => Err(error),
        None => Ok(()),
    }
}

/// Allocates a fresh buffer name. Allocation always succeeds; ids are never
/// reused within one context.
pub fn create_buffer(ctx: &mut Context) -> (id: BufferID)
    requires
        old(ctx).wf(),
        old(ctx).error == NO_ERROR,
        old(ctx).buffers@.len() < u32::MAX,
    ensures
        final(ctx).wf(),
        final(ctx).error == NO_ERROR,
        id == old(ctx).buffers@.len() + 1,
        final(ctx).buffer_live(id),
        final(ctx).buffers@ == old(ctx).buffers@.push(true),
        *final(ctx) == (Context { buffers: final(ctx).buffers, calls: final(ctx).calls, ..*old(ctx) }),
        final(ctx).logged(*old(ctx), GlCall::GenBuffer { id }),
{
    let id = ctx.buffers.len() as u32 + 1;
    ctx.buffers.push(true);
    ctx.calls.push(GlCall::GenBuffer { id });
    id
}

/// Releases a buffer. Fails exactly when the id does not name a live buffer
/// (in particular when the same handle is deleted twice); a deleted buffer is
/// detached from the global bind points that held it.
pub fn delete_buffer(ctx: &mut Context, buffer_id: BufferID) -> (r: Result<(), Error>)
    requires
        old(ctx).wf(),
        old(ctx).error == NO_ERROR,
    ensures
        final(ctx).wf(),
        final(ctx).error == NO_ERROR,
        old(ctx).buffer_live(buffer_id) ==> {
            &&& r == Ok::<(), Error>(())
            &&& final(ctx).buffers@ == old(ctx).buffers@.update(buffer_id - 1, false)
            &&& final(ctx).bound_array_buffer == (if old(ctx).bound_array_buffer == buffer_id {
                0u32
            } else {
                old(ctx).bound_array_buffer
            })
            &&& final(ctx).bound_element_buffer == (if old(ctx).bound_element_buffer == buffer_id {
                0u32
            } else {
                old(ctx).bound_element_buffer
            })
            &&& *final(ctx) == (Context {
                buffers: final(ctx).buffers,
                bound_array_buffer: final(ctx).bound_array_buffer,
                bound_element_buffer: final(ctx).bound_element_buffer,
                calls: final(ctx).calls,
                ..*old(ctx)
            })
            &&& final(ctx).logged(*old(ctx), GlCall::DeleteBuffer { id: buffer_id })
        },
        !old(ctx).buffer_live(buffer_id) ==> {
            &&& r == Err::<(), Error>(Error::InvalidValue)
            &&& final(ctx).unchanged(*old(ctx))
        },
{
    if ctx.buffer_is_live(buffer_id) {
        ctx.buffers.set((buffer_id - 1) as usize, false);
        if ctx.bound_array_buffer == buffer_id {
            ctx.bound_array_buffer = 0;
        }
        if ctx.bound_element_buffer == buffer_id {
            ctx.bound_element_buffer = 0;
        }
        ctx.calls.push(GlCall::DeleteBuffer { id: buffer_id });
        assert_no_error(ctx)
    } else {
        ctx.error = INVALID_VALUE;
        assert_no_error(ctx)
    }
}

/// Binds a buffer at a bind point, or detaches it when the id is 0. An index
/// buffer bound while a vertex array is bound is captured by that vertex
/// array. Fails when the id names no live buffer.
pub fn bind_buffer(ctx: &mut Context, buffer_id: BufferID, buffer_target: BufferTarget) -> (r:
    Result<(), Error>)
    requires
        old(ctx).wf(),
        old(ctx).error == NO_ERROR,
    ensures
        final(ctx).wf(),
        final(ctx).error == NO_ERROR,
        (buffer_id == 0 || old(ctx).buffer_live(buffer_id)) ==> {
            &&& r == Ok::<(), Error>(())
            &&& final(ctx).logged(*old(ctx), GlCall::BindBuffer { target: buffer_target, id: buffer_id })
            &&& (match buffer_target {
                BufferTarget::Array => *final(ctx) == (Context {
                    bound_array_buffer: buffer_id,
                    calls: final(ctx).calls,
                    ..*old(ctx)
                }),
                BufferTarget::ElementArray => {
                    if old(ctx).bound_vertex_array == 0 {
                        *final(ctx) == (Context {
                            bound_element_buffer: buffer_id,
                            calls: final(ctx).calls,
                            ..*old(ctx)
                        })
                    } else {
                        &&& final(ctx).vertex_arrays@ == old(ctx).vertex_arrays@.update(
                            old(ctx).bound_vertex_array - 1,
                            (VaoObj {
                                element_buffer: buffer_id,
                                ..old(ctx).vertex_array_at(old(ctx).bound_vertex_array)
                            }),
                        )
                        &&& *final(ctx) == (Context {
                            vertex_arrays: final(ctx).vertex_arrays,
                            calls: final(ctx).calls,
                            ..*old(ctx)
                        })
                    }
                },
            })
        },
        !(buffer_id == 0 || old(ctx).buffer_live(buffer_id)) ==> {
            &&& r == Err::<(), Error>(Error::InvalidOperation)
            &&& final(ctx).unchanged(*old(ctx))
        },
{
    if buffer_id == 0 || ctx.buffer_is_live(buffer_id) {
        match buffer_target {
            BufferTarget::Array => {
                ctx.bound_array_buffer = buffer_id;
            },
            BufferTarget::ElementArray => {
                let vao = ctx.bound_vertex_array;
                if vao == 0 {
                    ctx.bound_element_buffer = buffer_id;
                } else {
                    let idx = (vao - 1) as usize;
                    let mut obj = ctx.vertex_arrays[idx];
                    obj.element_buffer = buffer_id;
                    ctx.vertex_arrays.set(idx, obj);
                }
            },
        }
        ctx.calls.push(GlCall::BindBuffer { target: buffer_target, id: buffer_id });
        assert_no_error(ctx)
    } else {
        ctx.error = INVALID_OPERATION;
        assert_no_error(ctx)
    }
}

/// Uploads `data` to the buffer bound at `buffer_target`. Fails when no
/// buffer is bound there.
pub fn set_buffer_data(
    ctx: &mut Context,
    buffer_target: BufferTarget,
    usage: BufferUsage,
    data: &[u8],
) -> (r: Result<(), Error>)
    requires
        old(ctx).wf(),
        old(ctx).error == NO_ERROR,
    ensures
        final(ctx).wf(),
        final(ctx).error == NO_ERROR,
        old(ctx).target_buffer_bound(buffer_target) ==> {
            &&& r == Ok::<(), Error>(())
            &&& final(ctx).log_only(
                *old(ctx),
                GlCall::BufferData { target: buffer_target, usage, byte_len: data@.len() as usize
                },
            )
        },
        !old(ctx).target_buffer_bound(buffer_target) ==> {
            &&& r == Err::<(), Error>(Error::InvalidOperation)
            &&& final(ctx).unchanged(*old(ctx))
        },
{
    let bound = match buffer_target {
        BufferTarget::Array => ctx.bound_array_buffer,
        BufferTarget::ElementArray => {
            if ctx.bound_vertex_array == 0 {
                ctx.bound_element_buffer
            } else {
                ctx.vertex_arrays[(ctx.bound_vertex_array - 1) as usize].element_buffer
            }
        },
    };
    if bound != 0 {
        ctx.calls.push(
            GlCall::BufferData { target: buffer_target, usage, byte_len: data.len() },
        );
        assert_no_error(ctx)
    } else {
        ctx.error = INVALID_OPERATION;
        assert_no_error(ctx)
    }
}

/// Uploads `data`, a slice of 32-bit indices, to the buffer bound at
/// `buffer_target`: four bytes cross the boundary for each element. Fails
/// when no buffer is bound there.
pub fn set_buffer_data_u32(
    ctx: &mut Context,
    buffer_target: BufferTarget,
    usage: BufferUsage,
    data: &[u32],
) -> (r: Result<(), Error>)
    requires
        old(ctx).wf(),
        old(ctx).error == NO_ERROR,
        data@.len() * 4 <= usize::MAX,
    ensures
        final(ctx).wf(),
        final(ctx).error == NO_ERROR,
        old(ctx).target_buffer_bound(buffer_target) ==> {
            &&& r == Ok::<(), Error>(())
            &&& final(ctx).log_only(
                *old(ctx),
                GlCall::BufferData {
                    target: buffer_target,
                    usage,
                    byte_len: (data@.len() * 4) as usize,
                },
            )
        },
        !old(ctx).target_buffer_bound(buffer_target) ==> {
            &&& r == Err::<(), Error>(Error::InvalidOperation)
            &&& final(ctx).unchanged(*old(ctx))
        },
{
    let bound = match buffer_target {
        BufferTarget::Array => ctx.bound_array_buffer,
        BufferTarget::ElementArray => {
            if ctx.bound_vertex_array == 0 {
                ctx.bound_element_buffer
            } else {
                ctx.vertex_arrays[(ctx.bound_vertex_array - 1) as usize].element_buffer
            }
        },
    };
    if bound != 0 {
        ctx.calls.push(
            GlCall::BufferData { target: buffer_target, usage, byte_len: data.len() * 4 },
        );
        assert_no_error(ctx)
    } else {
        ctx.error = INVALID_OPERATION;
        assert_no_error(ctx)
    }
}

/// Uploads `byte_len` bytes of caller-held record data to the buffer bound
/// at `buffer_target`: only the size crosses the model boundary, as the
/// driver treats the records as opaque bytes. Fails when no buffer is bound
/// there.
pub fn set_buffer_data_sized(
    ctx: &mut Context,
    buffer_target: BufferTarget,
    usage: BufferUsage,
    byte_len: usize,
) -> (r: Result<(), Error>)
    requires
        old(ctx).wf(),
        old(ctx).error == NO_ERROR,
    ensures
        final(ctx).wf(),
        final(ctx).error == NO_ERROR,
        old(ctx).target_buffer_bound(buffer_target) ==> {
            &&& r == Ok::<(), Error>(())
            &&& final(ctx).log_only(
                *old(ctx),
                GlCall::BufferData { target: buffer_target, usage, byte_len },
            )
        },
        !old(ctx).target_buffer_bound(buffer_target) ==> {
            &&& r == Err::<(), Error>(Error::InvalidOperation)
            &&& final(ctx).unchanged(*old(ctx))
        },
{
    let bound = match buffer_target {
        BufferTarget::Array => ctx.bound_array_buffer,
        BufferTarget::ElementArray => {
            if ctx.bound_vertex_array == 0 {
                ctx.bound_element_buffer
            } else {
                ctx.vertex_arrays[(ctx.bound_vertex_array - 1) as usize].element_buffer
            }
        },
    };
    if bound != 0 {
        ctx.calls.push(GlCall::BufferData { target: buffer_target, usage, byte_len });
        assert_no_error(ctx)
    } else {
        ctx.error = INVALID_OPERATION;
        assert_no_error(ctx)
    }
}

/// Allocates a fresh vertex-array name; it captures no index buffer yet.
pub fn create_vertex_array(ctx: &mut Context) -> (id: VertexArrayID)
    requires
        old(ctx).wf(),
        old(ctx).error == NO_ERROR,
        old(ctx).vertex_arrays@.len() < u32::MAX,
    ensures
        final(ctx).wf(),
        final(ctx).error == NO_ERROR,
        id == old(ctx).vertex_arrays@.len() + 1,
        final(ctx).vertex_array_live(id),
        final(ctx).vertex_array_at(id) == (VaoObj { alive: true, element_buffer: 0 }),
        final(ctx).vertex_arrays@ == old(ctx).vertex_arrays@.push(
            VaoObj { alive: true, element_buffer: 0 },
        ),
        *final(ctx) == (Context { vertex_arrays: final(ctx).vertex_arrays, calls: final(ctx).calls, ..*old(ctx) }),
        final(ctx).logged(*old(ctx), GlCall::GenVertexArray { id }),
{
    let id = ctx.vertex_arrays.len() as u32 + 1;
    ctx.vertex_arrays.push(VaoObj { alive: true, element_buffer: 0 });
    ctx.calls.push(GlCall::GenVertexArray { id });
    id
}

/// Releases a vertex array. Fails exactly when the id does not name a live
/// vertex array; a deleted vertex array is unbound if it was bound.
pub fn delete_vertex_array(ctx: &mut Context, vertex_array_id: VertexArrayID) -> (r: Result<
    (),
    Error,
>)
    requires
        old(ctx).wf(),
        old(ctx).error == NO_ERROR,
    ensures
        final(ctx).wf(),
        final(ctx).error == NO_ERROR,
        old(ctx).vertex_array_live(vertex_array_id) ==> {
            &&& r == Ok::<(), Error>(())
            &&& final(ctx).vertex_arrays@ == old(ctx).vertex_arrays@.update(
                vertex_array_id - 1,
                (VaoObj { alive: false, ..old(ctx).vertex_array_at(vertex_array_id) }),
            )
            &&& final(ctx).bound_vertex_array == (if old(ctx).bound_vertex_array == vertex_array_id {
                0u32
            } else {
                old(ctx).bound_vertex_array
            })
            &&& *final(ctx) == (Context {
                vertex_arrays: final(ctx).vertex_arrays,
                bound_vertex_array: final(ctx).bound_vertex_array,
                calls: final(ctx).calls,
                ..*old(ctx)
            })
            &&& final(ctx).logged(*old(ctx), GlCall::DeleteVertexArray { id: vertex_array_id })
        },
        !old(ctx).vertex_array_live(vertex_array_id) ==> {
            &&& r == Err::<(), Error>(Error::InvalidValue)
            &&& final(ctx).unchanged(*old(ctx))
        },
{
    if ctx.vertex_array_is_live(vertex_array_id) {
        let idx = (vertex_array_id - 1) as usize;
        let mut obj = ctx.vertex_arrays[idx];
        obj.alive = false;
        ctx.vertex_arrays.set(idx, obj);
        if ctx.bound_vertex_array == vertex_array_id {
            ctx.bound_vertex_array = 0;
        }
        ctx.calls.push(GlCall::DeleteVertexArray { id: vertex_array_id });
        assert_no_error(ctx)
    } else {
        ctx.error = INVALID_VALUE;
        assert_no_error(ctx)
    }
}

/// Binds a vertex array, or unbinds the current one when the id is 0. Fails
/// when the id names no live vertex array.
pub fn bind_vertex_array(ctx: &mut Context, vertex_array_id: VertexArrayID) -> (r: Result<
    (),
    Error,
>)
    requires
        old(ctx).wf(),
        old(ctx).error == NO_ERROR,
    ensures
        final(ctx).wf(),
        final(ctx).error == NO_ERROR,
        (vertex_array_id == 0 || old(ctx).vertex_array_live(vertex_array_id)) ==> {
            &&& r == Ok::<(), Error>(())
            &&& *final(ctx) == (Context {
                bound_vertex_array: vertex_array_id,
                calls: final(ctx).calls,
                ..*old(ctx)
            })
            &&& final(ctx).logged(*old(ctx), GlCall::BindVertexArray { id: vertex_array_id })
        },
        !(vertex_array_id == 0 || old(ctx).vertex_array_live(vertex_array_id)) ==> {
            &&& r == Err::<(), Error>(Error::InvalidOperation)
            &&& final(ctx).unchanged(*old(ctx))
        },
{
    if vertex_array_id == 0 || ctx.vertex_array_is_live(vertex_array_id) {
        ctx.bound_vertex_array = vertex_array_id;
        ctx.calls.push(GlCall::BindVertexArray { id: vertex_array_id });
        assert_no_error(ctx)
    } else {
        ctx.error = INVALID_OPERATION;
        assert_no_error(ctx)
    }
}

/// Enables attribute slot `index` on the bound vertex array. Fails when the
/// slot exceeds the driver's limit or no vertex array is bound.
pub fn enable_vertex_attribute_array(ctx: &mut Context, index: u32) -> (r: Result<(), Error>)
    requires
        old(ctx).wf(),
        old(ctx).error == NO_ERROR,
    ensures
        final(ctx).wf(),
        final(ctx).error == NO_ERROR,
        (index < MAX_VERTEX_ATTRIBUTES && old(ctx).bound_vertex_array != 0) ==> {
            &&& r == Ok::<(), Error>(())
            &&& final(ctx).log_only(*old(ctx), GlCall::EnableVertexAttributeArray { index })
        },
        index >= MAX_VERTEX_ATTRIBUTES ==> {
            &&& r == Err::<(), Error>(Error::InvalidValue)
            &&& final(ctx).unchanged(*old(ctx))
        },
        (index < MAX_VERTEX_ATTRIBUTES && old(ctx).bound_vertex_array == 0) ==> {
            &&& r == Err::<(), Error>(Error::InvalidOperation)
            &&& final(ctx).unchanged(*old(ctx))
        },
{
    if index >= MAX_VERTEX_ATTRIBUTES {
        ctx.error = INVALID_VALUE;
        assert_no_error(ctx)
    } else if ctx.bound_vertex_array == 0 {
        ctx.error = INVALID_OPERATION;
        assert_no_error(ctx)
    } else {
        ctx.calls.push(GlCall::EnableVertexAttributeArray { index });
        assert_no_error(ctx)
    }
}

/// Sets the instancing divisor of attribute slot `index`. Fails when the
/// slot exceeds the driver's limit or no vertex array is bound.
pub fn set_vertex_attribute_divisor(ctx: &mut Context, attribute_index: u32, divisor: u32) -> (r:
    Result<(), Error>)
    requires
        old(ctx).wf(),
        old(ctx).error == NO_ERROR,
    ensures
        final(ctx).wf(),
        final(ctx).error == NO_ERROR,
        (attribute_index < MAX_VERTEX_ATTRIBUTES && old(ctx).bound_vertex_array != 0) ==> {
            &&& r == Ok::<(), Error>(())
            &&& final(ctx).log_only(
                *old(ctx),
                GlCall::VertexAttributeDivisor { index: attribute_index, divisor },
            )
        },
        attribute_index >= MAX_VERTEX_ATTRIBUTES ==> {
            &&& r == Err::<(), Error>(Error::InvalidValue)
            &&& final(ctx).unchanged(*old(ctx))
        },
        (attribute_index < MAX_VERTEX_ATTRIBUTES && old(ctx).bound_vertex_array == 0) ==> {
            &&& r == Err::<(), Error>(Error::InvalidOperation)
            &&& final(ctx).unchanged(*old(ctx))
        },
{
    if attribute_index >= MAX_VERTEX_ATTRIBUTES {
        ctx.error = INVALID_VALUE;
        assert_no_error(ctx)
    } else if ctx.bound_vertex_array == 0 {
        ctx.error = INVALID_OPERATION;
        assert_no_error(ctx)
    } else {
        ctx.calls.push(GlCall::VertexAttributeDivisor { index: attribute_index, divisor });
        assert_no_error(ctx)
    }
}

/// Describes attribute slot `index` of the bound vertex array: component
/// count, element type, stride and offset into the bound vertex buffer.
/// Fails when the slot exceeds the driver's limit, no vertex array is bound,
/// or no vertex buffer is bound.
pub fn vertex_attribute_pointer(
    ctx: &mut Context,
    index: u32,
    component_size: VertexAttributeSize,
    data_type: DataType,
    normalised: bool,
    stride: u32,
    offset: u32,
) -> (r: Result<(), Error>)
    requires
        old(ctx).wf(),
        old(ctx).error == NO_ERROR,
    ensures
        final(ctx).wf(),
        final(ctx).error == NO_ERROR,
        (index < MAX_VERTEX_ATTRIBUTES && old(ctx).bound_vertex_array != 0 && old(ctx).bound_array_buffer != 0) ==> {
            &&& r == Ok::<(), Error>(())
            &&& final(ctx).log_only(
                *old(ctx),
                GlCall::VertexAttributePointer {
                    index,
                    size: component_size,
                    data_type,
                    normalised,
                    stride,
                    offset,
                },
            )
        },
        index >= MAX_VERTEX_ATTRIBUTES ==> {
            &&& r == Err::<(), Error>(Error::InvalidValue)
            &&& final(ctx).unchanged(*old(ctx))
        },
        (index < MAX_VERTEX_ATTRIBUTES && !(old(ctx).bound_vertex_array != 0 && old(ctx).bound_array_buffer != 0)) ==> {
            &&& r == Err::<(), Error>(Error::InvalidOperation)
            &&& final(ctx).unchanged(*old(ctx))
        },
{
    if index >= MAX_VERTEX_ATTRIBUTES {
        ctx.error = INVALID_VALUE;
        assert_no_error(ctx)
    } else if ctx.bound_vertex_array == 0 || ctx.bound_array_buffer == 0 {
        ctx.error = INVALID_OPERATION;
        assert_no_error(ctx)
    } else {
        ctx.calls.push(
            GlCall::VertexAttributePointer {
                index,
                size: component_size,
                data_type,
                normalised,
                stride,
                offset,
            },
        );
        assert_no_error(ctx)
    }
}

/// A non-indexed draw of `count` vertices. Fails when no vertex array is
/// bound or no program is in use.
pub fn draw_arrays(ctx: &mut Context, mode: DrawMode, starting_index: u64, count: u64) -> (r:
    Result<(), Error>)
    requires
        old(ctx).wf(),
        old(ctx).error == NO_ERROR,
    ensures
        final(ctx).wf(),
        final(ctx).error == NO_ERROR,
        old(ctx).draw_ready() ==> {
            &&& r == Ok::<(), Error>(())
            &&& final(ctx).log_only(*old(ctx), GlCall::DrawArrays { mode, starting_index, count })
        },
        !old(ctx).draw_ready() ==> {
            &&& r == Err::<(), Error>(Error::InvalidOperation)
            &&& final(ctx).unchanged(*old(ctx))
        },
{
    if ctx.bound_vertex_array != 0 && ctx.current_program != 0 {
        ctx.calls.push(GlCall::DrawArrays { mode, starting_index, count });
        assert_no_error(ctx)
    } else {
        ctx.error = INVALID_OPERATION;
        assert_no_error(ctx)
    }
}

/// A non-indexed instanced draw: `count` vertices for each of `instances`
/// instances. Fails when no vertex array is bound or no program is in use.
pub fn draw_arrays_instanced(
    ctx: &mut Context,
    mode: DrawMode,
    starting_index: u64,
    count: u64,
    instances: u32,
) -> (r: Result<(), Error>)
    requires
        old(ctx).wf(),
        old(ctx).error == NO_ERROR,
    ensures
        final(ctx).wf(),
        final(ctx).error == NO_ERROR,
        old(ctx).draw_ready() ==> {
            &&& r == Ok::<(), Error>(())
            &&& final(ctx).log_only(
                *old(ctx),
                GlCall::DrawArraysInstanced { mode, starting_index, count, instances },
            )
        },
        !old(ctx).draw_ready() ==> {
            &&& r == Err::<(), Error>(Error::InvalidOperation)
            &&& final(ctx).unchanged(*old(ctx))
        },
{
    if ctx.bound_vertex_array != 0 && ctx.current_program != 0 {
        ctx.calls.push(GlCall::DrawArraysInstanced { mode, starting_index, count, instances });
        assert_no_error(ctx)
    } else {
        ctx.error = INVALID_OPERATION;
        assert_no_error(ctx)
    }
}

/// An indexed draw of `num_indices` indices read from the bound vertex
/// array's captured index buffer. Fails when no vertex array is bound, no
/// program is in use, or the bound vertex array captured no index buffer.
pub fn draw_elements(ctx: &mut Context, mode: DrawMode, num_indices: u64, index_type: DataType) -> (
    r: Result<(), Error>)
    requires
        old(ctx).wf(),
        old(ctx).error == NO_ERROR,
    ensures
        final(ctx).wf(),
        final(ctx).error == NO_ERROR,
        old(ctx).indexed_draw_ready() ==> {
            &&& r == Ok::<(), Error>(())
            &&& final(ctx).log_only(*old(ctx), GlCall::DrawElements { mode, count: num_indices, index_type })
        },
        !old(ctx).indexed_draw_ready() ==> {
            &&& r == Err::<(), Error>(Error::InvalidOperation)
            &&& final(ctx).unchanged(*old(ctx))
        },
{
    if ctx.bound_vertex_array != 0 && ctx.current_program != 0
        && ctx.vertex_arrays[(ctx.bound_vertex_array - 1) as usize].element_buffer != 0 {
        ctx.calls.push(GlCall::DrawElements { mode, count: num_indices, index_type });
        assert_no_error(ctx)
    } else {
        ctx.error = INVALID_OPERATION;
        assert_no_error(ctx)
    }
}

/// An indexed instanced draw: `num_indices` indices for each of `instances`
/// instances. Fails when no vertex array is bound, no program is in use, or
/// the bound vertex array captured no index buffer.
pub fn draw_elements_instanced(
    ctx: &mut Context,
    mode: DrawMode,
    num_indices: u64,
    index_type: DataType,
    instances: u32,
) -> (r: Result<(), Error>)
    requires
        old(ctx).wf(),
        old(ctx).error == NO_ERROR,
    ensures
        final(ctx).wf(),
        final(ctx).error == NO_ERROR,
        old(ctx).indexed_draw_ready() ==> {
            &&& r == Ok::<(), Error>(())
            &&& final(ctx).log_only(
                *old(ctx),
                GlCall::DrawElementsInstanced { mode, count: num_indices, index_type, instances },
            )
        },
        !old(ctx).indexed_draw_ready() ==> {
            &&& r == Err::<(), Error>(Error::InvalidOperation)
            &&& final(ctx).unchanged(*old(ctx))
        },
{
    if ctx.bound_vertex_array != 0 && ctx.current_program != 0
        && ctx.vertex_arrays[(ctx.bound_vertex_array - 1) as usize].element_buffer != 0 {
        ctx.calls.push(
            GlCall::DrawElementsInstanced { mode, count: num_indices, index_type, instances },
        );
        assert_no_error(ctx)
    } else {
        ctx.error = INVALID_OPERATION;
        assert_no_error(ctx)
    }
}

/// The modelled shader front end accepts a source exactly when it declares
/// an entry point.
pub open spec fn spec_source_accepted(source: Seq<char>) -> bool {
    spec_contains(source, "void main"@)
}

/// The log text the modelled compiler leaves behind: empty on success,
/// a diagnostic otherwise.
pub open spec fn spec_compile_log(accepted: bool) -> Seq<char> {
    if accepted {
        Seq::<char>::empty()
    } else {
        "shader compilation failed: no entry point"@
    }
}

/// The modelled linker accepts a program exactly when every attached shader
/// compiled successfully and no two attached shaders belong to the same
/// stage.
pub open spec fn spec_link_accepted(shaders: Seq<ShaderObj>, attached: Seq<u32>) -> bool {
    &&& attached.len() <= u32::MAX
    &&& (forall|i: int|
        #![trigger attached[i]]
        0 <= i < attached.len() ==> shaders[attached[i] - 1].compile_done && shaders[attached[i]
            - 1].compiled)
    &&& (forall|i: int, j: int|
        #![trigger attached[i], attached[j]]
        0 <= i < j < attached.len() ==> shaders[attached[i] - 1].stage != shaders[attached[j]
            - 1].stage)
}

/// The log text the modelled linker leaves behind: empty on success,
/// a diagnostic otherwise.
pub open spec fn spec_link_log(accepted: bool) -> Seq<char> {
    if accepted {
        Seq::<char>::empty()
    } else {
        "program link failed: stage missing its compiled shader or duplicated"@
    }
}

/// Index of the first occurrence of `x` in `s`; -1 when absent.
pub open spec fn spec_find_id(s: Seq<u32>, x: u32) -> int
    decreases s.len(),
{
    if s.len() == 0 {
        -1
    } else if s[0] == x {
        0
    } else {
        let r = spec_find_id(s.skip(1), x);
        if r < 0 {
            -1
        } else {
            r + 1
        }
    }
}

/// `spec_find_id` finds exactly the first occurrence.
pub proof fn lemma_find_id(s: Seq<u32>, x: u32)
    ensures
        spec_find_id(s, x) == -1 <==> !s.contains(x),
        spec_find_id(s, x) >= 0 ==> spec_find_id(s, x) < s.len() && s[spec_find_id(s, x)] == x && (
        forall|j: int| 0 <= j < spec_find_id(s, x) ==> s[j] != x),
        spec_find_id(s, x) >= -1,
    decreases s.len(),
{
    if s.len() == 0 {
        assert(!s.contains(x));
    } else if s[0] == x {
        assert(s.contains(x));
    } else {
        lemma_find_id(s.skip(1), x);
        assert(forall|j: int| 0 <= j < s.skip(1).len() ==> s.skip(1)[j] == s[j + 1]);
        let r1 = spec_find_id(s.skip(1), x);
        if r1 >= 0 {
            assert(s[r1 + 1] == s.skip(1)[r1]);
            assert forall|j: int| 0 <= j < r1 + 1 implies s[j] != x by {
                if j > 0 {
                    assert(s.skip(1)[j - 1] == s[j]);
                }
            }
        }
        if s.contains(x) {
            let k = choose|k: int| 0 <= k < s.len() && s[k] == x;
            assert(k != 0);
            assert(s.skip(1)[k - 1] == x);
            assert(s.skip(1).contains(x));
        }
        if s.skip(1).contains(x) {
            let k = choose|k: int| 0 <= k < s.skip(1).len() && s.skip(1)[k] == x;
            assert(s[k + 1] == x);
            assert(s.contains(x));
        }
    }
}

/// Index of the first linked source that references `name`; -1 when none
/// does.
pub open spec fn spec_uniform_source_index(sources: Seq<String>, name: Seq<char>) -> int
    decreases sources.len(),
{
    if sources.len() == 0 {
        -1
    } else if spec_contains(sources[0]@, name) {
        0
    } else {
        let r = spec_uniform_source_index(sources.skip(1), name);
        if r < 0 {
            -1
        } else {
            r + 1
        }
    }
}

/// A uniform name is active in a program exactly when some source the
/// program was linked from references it.
pub open spec fn spec_uniform_active(p: ProgramObj, name: Seq<char>) -> bool {
    exists|i: int|
        0 <= i < p.linked_sources@.len() && spec_contains(#[trigger] p.linked_sources@[i]@, name)
}

/// `spec_uniform_source_index` finds exactly the first referencing source.
pub proof fn lemma_uniform_source_index(sources: Seq<String>, name: Seq<char>)
    ensures
        spec_uniform_source_index(sources, name) == -1 <==> !(exists|i: int|
            0 <= i < sources.len() && spec_contains(#[trigger] sources[i]@, name)),
        spec_uniform_source_index(sources, name) >= 0 ==> spec_uniform_source_index(sources, name)
            < sources.len() && spec_contains(sources[spec_uniform_source_index(sources, name)]@, name)
            && (forall|j: int|
            0 <= j < spec_uniform_source_index(sources, name) ==> !spec_contains(
                #[trigger] sources[j]@,
                name,
            )),
        spec_uniform_source_index(sources, name) >= -1,
    decreases sources.len(),
{
    if sources.len() == 0 {
    } else if spec_contains(sources[0]@, name) {
    } else {
        lemma_uniform_source_index(sources.skip(1), name);
        assert(forall|j: int|
            0 <= j < sources.skip(1).len() ==> sources.skip(1)[j] == sources[j + 1]);
        let r1 = spec_uniform_source_index(sources.skip(1), name);
        if r1 >= 0 {
            assert(sources[r1 + 1] == sources.skip(1)[r1]);
            assert forall|j: int| 0 <= j < r1 + 1 implies !spec_contains(sources[j]@, name) by {
                if j > 0 {
                    assert(sources.skip(1)[j - 1] == sources[j]);
                }
            }
        }
        if exists|i: int| 0 <= i < sources.len() && spec_contains(#[trigger] sources[i]@, name) {
            let k = choose|k: int|
                0 <= k < sources.len() && spec_contains(#[trigger] sources[k]@, name);
            assert(k != 0);
            assert(sources.skip(1)[k - 1] == sources[k]);
            assert(spec_contains(sources.skip(1)[k - 1]@, name));
        }
        if exists|i: int|
            0 <= i < sources.skip(1).len() && spec_contains(#[trigger] sources.skip(1)[i]@, name) {
            let k = choose|k: int|
                0 <= k < sources.skip(1).len() && spec_contains(
                    #[trigger] sources.skip(1)[k]@,
                    name,
                );
            assert(sources[k + 1] == sources.skip(1)[k]);
            assert(spec_contains(sources[k + 1]@, name));
        }
    }
}

/// Finds the first occurrence of `x` in `v`.
fn find_in_ids(v: &Vec<u32>, x: u32) -> (r: Option<usize>)
    ensures
        match r {
            Some(i) => i == spec_find_id(v@, x) && i < v@.len() && v@[i as int] == x,
            None => spec_find_id(v@, x) == -1 && !v@.contains(x),
        },
{
    let mut i: usize = 0;
    while i < v.len()
        invariant
            0 <= i <= v@.len(),
            forall|j: int| 0 <= j < i ==> v@[j] != x,
        decreases v@.len() - i,
    {
        if v[i] == x {
            proof {
                lemma_find_id(v@, x);
                assert(v@.contains(x));
            }
            return Some(i);
        }
        i = i + 1;
    }
    proof {
        lemma_find_id(v@, x);
        if v@.contains(x) {
            let k = choose|k: int| 0 <= k < v@.len() && v@[k] == x;
        }
    }
    None
}

/// Allocates a fresh shader name for one stage; its source is empty and it
/// is not yet compiled.
pub fn create_shader(ctx: &mut Context, shader_type: ShaderType) -> (id: ShaderID)
    requires
        old(ctx).wf(),
        old(ctx).error == NO_ERROR,
        old(ctx).shaders@.len() < u32::MAX,
    ensures
        final(ctx).wf(),
        final(ctx).error == NO_ERROR,
        id == old(ctx).shaders@.len() + 1,
        final(ctx).shader_live(id),
        final(ctx).shader_at(id).stage == shader_type,
        final(ctx).shader_at(id).source@ == Seq::<char>::empty(),
        !final(ctx).shader_at(id).compile_done,
        !final(ctx).shader_at(id).compiled,
        final(ctx).shader_at(id).info_log@ == Seq::<char>::empty(),
        final(ctx).shaders@ == old(ctx).shaders@.push(final(ctx).shader_at(id)),
        *final(ctx) == (Context { shaders: final(ctx).shaders, calls: final(ctx).calls, ..*old(ctx) }),
        final(ctx).logged(*old(ctx), GlCall::CreateShader { id, shader_type }),
{
    let id = ctx.shaders.len() as u32 + 1;
    ctx.shaders.push(
        ShaderObj {
            alive: true,
            stage: shader_type,
            source: String::new(),
            compile_done: false,
            compiled: false,
            info_log: String::new(),
        },
    );
    ctx.calls.push(GlCall::CreateShader { id, shader_type });
    id
}

/// Releases a shader. Fails exactly when the id does not name a live shader.
pub fn delete_shader(ctx: &mut Context, shader_id: ShaderID) -> (r: Result<(), Error>)
    requires
        old(ctx).wf(),
        old(ctx).error == NO_ERROR,
    ensures
        final(ctx).wf(),
        final(ctx).error == NO_ERROR,
        old(ctx).shader_live(shader_id) ==> {
            &&& r == Ok::<(), Error>(())
            &&& final(ctx).shaders@ == old(ctx).shaders@.update(
                shader_id - 1,
                (ShaderObj { alive: false, ..old(ctx).shader_at(shader_id) }),
            )
            &&& *final(ctx) == (Context {
                shaders: final(ctx).shaders,
                calls: final(ctx).calls,
                ..*old(ctx)
            })
            &&& final(ctx).logged(*old(ctx), GlCall::DeleteShader { id: shader_id })
        },
        !old(ctx).shader_live(shader_id) ==> {
            &&& r == Err::<(), Error>(Error::InvalidValue)
            &&& final(ctx).unchanged(*old(ctx))
        },
{
    if ctx.shader_is_live(shader_id) {
        let idx = (shader_id - 1) as usize;
        let mut obj = ShaderObj {
            alive: false,
            stage: ShaderType::Vertex,
            source: String::new(),
            compile_done: false,
            compiled: false,
            info_log: String::new(),
        };
        ctx.shaders.set_and_swap(idx, &mut obj);
        obj.alive = false;
        ctx.shaders.set(idx, obj);
        proof {
            assert(ctx.shaders@ =~= old(ctx).shaders@.update(
                shader_id - 1,
                (ShaderObj { alive: false, ..old(ctx).shader_at(shader_id) }),
            ));
        }
        ctx.calls.push(GlCall::DeleteShader { id: shader_id });
        assert_no_error(ctx)
    } else {
        ctx.error = INVALID_VALUE;
        assert_no_error(ctx)
    }
}

/// Replaces a shader's source text. Fails without reaching the driver when
/// the text cannot cross the boundary (an interior NUL, or text longer than
/// the driver's limit); fails with a driver error when the id names no live
/// shader.
pub fn set_shader_source(ctx: &mut Context, id: ShaderID, source: &str) -> (r: Result<(), Error>)
    requires
        old(ctx).wf(),
        old(ctx).error == NO_ERROR,
    ensures
        final(ctx).wf(),
        final(ctx).error == NO_ERROR,
        (source@.contains('\0') || source@.len() > MAX_SOURCE_LEN) ==> {
            &&& r == Err::<(), Error>(Error::InvalidValue)
            &&& final(ctx).unchanged(*old(ctx))
        },
        !(source@.contains('\0') || source@.len() > MAX_SOURCE_LEN) ==> {
            &&& old(ctx).shader_live(id) ==> {
                &&& r == Ok::<(), Error>(())
                &&& final(ctx).shaders@ == old(ctx).shaders@.update(
                    id - 1,
                    (ShaderObj {
                        source: final(ctx).shader_at(id).source,
                        ..old(ctx).shader_at(id)
                    }),
                )
                &&& final(ctx).shader_at(id).source@ == source@
                &&& *final(ctx) == (Context {
                    shaders: final(ctx).shaders,
                    calls: final(ctx).calls,
                    ..*old(ctx)
                })
                &&& final(ctx).logged(*old(ctx), GlCall::ShaderSource { id })
            }
            &&& !old(ctx).shader_live(id) ==> {
                &&& r == Err::<(), Error>(Error::InvalidOperation)
                &&& final(ctx).unchanged(*old(ctx))
            }
        },
{
    if contains_char(source, '\0') || source.unicode_len() > MAX_SOURCE_LEN as usize {
        return Err(Error::InvalidValue);
    }
    if ctx.shader_is_live(id) {
        let idx = (id - 1) as usize;
        let mut obj = ShaderObj {
            alive: false,
            stage: ShaderType::Vertex,
            source: String::new(),
            compile_done: false,
            compiled: false,
            info_log: String::new(),
        };
        ctx.shaders.set_and_swap(idx, &mut obj);
        obj.source = String::from_str(source);
        ctx.shaders.set(idx, obj);
        proof {
            assert(ctx.shaders@ =~= old(ctx).shaders@.update(
                id - 1,
                (ShaderObj { source: ctx.shader_at(id).source, ..old(ctx).shader_at(id) }),
            ));
        }
        ctx.calls.push(GlCall::ShaderSource { id });
        assert_no_error(ctx)
    } else {
        ctx.error = INVALID_OPERATION;
        assert_no_error(ctx)
    }
}

/// Compiles a shader's current source with the modelled front end, recording
/// the outcome and its log. Fails when the id names no live shader.
pub fn compile_shader(ctx: &mut Context, id: ShaderID) -> (r: Result<(), Error>)
    requires
        old(ctx).wf(),
        old(ctx).error == NO_ERROR,
    ensures
        final(ctx).wf(),
        final(ctx).error == NO_ERROR,
        old(ctx).shader_live(id) ==> {
            let accepted = spec_source_accepted(old(ctx).shader_at(id).source@);
            &&& r == Ok::<(), Error>(())
            &&& final(ctx).shaders@ == old(ctx).shaders@.update(
                id - 1,
                (ShaderObj {
                    compile_done: true,
                    compiled: accepted,
                    info_log: final(ctx).shader_at(id).info_log,
                    ..old(ctx).shader_at(id)
                }),
            )
            &&& final(ctx).shader_at(id).info_log@ == spec_compile_log(accepted)
            &&& *final(ctx) == (Context {
                shaders: final(ctx).shaders,
                calls: final(ctx).calls,
                ..*old(ctx)
            })
            &&& final(ctx).logged(*old(ctx), GlCall::CompileShader { id })
        },
        !old(ctx).shader_live(id) ==> {
            &&& r == Err::<(), Error>(Error::InvalidOperation)
            &&& final(ctx).unchanged(*old(ctx))
        },
{
    if ctx.shader_is_live(id) {
        let idx = (id - 1) as usize;
        let accepted = contains_substring(ctx.shaders[idx].source.as_str(), "void main");
        let mut obj = ShaderObj {
            alive: false,
            stage: ShaderType::Vertex,
            source: String::new(),
            compile_done: false,
            compiled: false,
            info_log: String::new(),
        };
        ctx.shaders.set_and_swap(idx, &mut obj);
        obj.compile_done = true;
        obj.compiled = accepted;
        obj.info_log = if accepted {
            String::new()
        } else {
            String::from_str("shader compilation failed: no entry point")
        };
        proof {
            reveal_strlit("shader compilation failed: no entry point");
        }
        ctx.shaders.set(idx, obj);
        proof {
            assert(ctx.shaders@ =~= old(ctx).shaders@.update(
                id - 1,
                (ShaderObj {
                    compile_done: true,
                    compiled: accepted,
                    info_log: ctx.shader_at(id).info_log,
                    ..old(ctx).shader_at(id)
                }),
            ));
        }
        ctx.calls.push(GlCall::CompileShader { id });
        assert_no_error(ctx)
    } else {
        ctx.error = INVALID_OPERATION;
        assert_no_error(ctx)
    }
}

/// Reads one per-shader state word. Fails when the id names no live shader.
pub fn get_shader_parameter(ctx: &mut Context, id: ShaderID, parameter: ShaderParameter) -> (r:
    Result<u32, Error>)
    requires
        old(ctx).wf(),
        old(ctx).error == NO_ERROR,
    ensures
        final(ctx).wf(),
        final(ctx).error == NO_ERROR,
        final(ctx).unchanged(*old(ctx)),
        old(ctx).shader_live(id) ==> r == Ok::<u32, Error>(
            match parameter {
                ShaderParameter::ShaderType => old(ctx).shader_at(id).stage.spec_gl_constant(),
                ShaderParameter::DeleteStatus => 0u32,
                ShaderParameter::CompileStatus => if old(ctx).shader_at(id).compile_done && old(
                    ctx,
                ).shader_at(id).compiled {
                    1u32
                } else {
                    0u32
                },
                ShaderParameter::InfoLogLength => old(ctx).shader_at(id).info_log@.len() as u32,
                ShaderParameter::SourceLength => old(ctx).shader_at(id).source@.len() as u32,
            },
        ),
        !old(ctx).shader_live(id) ==> r == Err::<u32, Error>(Error::InvalidOperation),
{
    if ctx.shader_is_live(id) {
        let idx = (id - 1) as usize;
        let value = match parameter {
            ShaderParameter::ShaderType => ctx.shaders[idx].stage.gl_constant(),
            ShaderParameter::DeleteStatus => 0u32,
            ShaderParameter::CompileStatus => {
                if ctx.shaders[idx].compile_done && ctx.shaders[idx].compiled {
                    1u32
                } else {
                    0u32
                }
            },
            ShaderParameter::InfoLogLength => ctx.shaders[idx].info_log.as_str().unicode_len()
                as u32,
            ShaderParameter::SourceLength => ctx.shaders[idx].source.as_str().unicode_len() as u32,
        };
        Ok(value)
    } else {
        ctx.error = INVALID_OPERATION;
        match assert_no_error(ctx) {
            Err(e) => Err(e),
            Ok(()) => Err(Error::InvalidOperation),
        }
    }
}

/// Reads a shader's compile log, truncated to `buffer_size` characters.
/// Fails when the id names no live shader.
pub fn get_shader_info_log(ctx: &mut Context, id: ShaderID, buffer_size: u32) -> (r: Result<
    String,
    Error,
>)
    requires
        old(ctx).wf(),
        old(ctx).error == NO_ERROR,
    ensures
        final(ctx).wf(),
        final(ctx).error == NO_ERROR,
        final(ctx).unchanged(*old(ctx)),
        old(ctx).shader_live(id) ==> (r matches Ok(log) && log@ == (if buffer_size
            < old(ctx).shader_at(id).info_log@.len() {
            old(ctx).shader_at(id).info_log@.subrange(0, buffer_size as int)
        } else {
            old(ctx).shader_at(id).info_log@
        })),
        !old(ctx).shader_live(id) ==> r == Err::<String, Error>(Error::InvalidOperation),
{
    if ctx.shader_is_live(id) {
        let idx = (id - 1) as usize;
        let len = ctx.shaders[idx].info_log.as_str().unicode_len();
        if (buffer_size as usize) < len {
            Ok(
                String::from_str(
                    ctx.shaders[idx].info_log.as_str().substring_char(0, buffer_size as usize),
                ),
            )
        } else {
            proof {
                assert(old(ctx).shader_at(id).info_log@.subrange(
                    0,
                    old(ctx).shader_at(id).info_log@.len() as int,
                ) =~= old(ctx).shader_at(id).info_log@);
            }
            Ok(ctx.shaders[idx].info_log.clone())
        }
    } else {
        ctx.error = INVALID_OPERATION;
        match assert_no_error(ctx) {
            Err(e) => Err(e),
            Ok(()) => Err(Error::InvalidOperation),
        }
    }
}

/// Reads back a shader's source text, truncated to `buffer_size` characters.
/// Fails when the id names no live shader.
pub fn get_shader_source(ctx: &mut Context, id: ShaderID, buffer_size: u32) -> (r: Result<
    String,
    Error,
>)
    requires
        old(ctx).wf(),
        old(ctx).error == NO_ERROR,
    ensures
        final(ctx).wf(),
        final(ctx).error == NO_ERROR,
        final(ctx).unchanged(*old(ctx)),
        old(ctx).shader_live(id) ==> (r matches Ok(text) && text@ == (if buffer_size
            < old(ctx).shader_at(id).source@.len() {
            old(ctx).shader_at(id).source@.subrange(0, buffer_size as int)
        } else {
            old(ctx).shader_at(id).source@
        })),
        !old(ctx).shader_live(id) ==> r == Err::<String, Error>(Error::InvalidOperation),
{
    if ctx.shader_is_live(id) {
        let idx = (id - 1) as usize;
        let len = ctx.shaders[idx].source.as_str().unicode_len();
        if (buffer_size as usize) < len {
            Ok(
                String::from_str(
                    ctx.shaders[idx].source.as_str().substring_char(0, buffer_size as usize),
                ),
            )
        } else {
            proof {
                assert(old(ctx).shader_at(id).source@.subrange(
                    0,
                    old(ctx).shader_at(id).source@.len() as int,
                ) =~= old(ctx).shader_at(id).source@);
            }
            Ok(ctx.shaders[idx].source.clone())
        }
    } else {
        ctx.error = INVALID_OPERATION;
        match assert_no_error(ctx) {
            Err(e) => Err(e),
            Ok(()) => Err(Error::InvalidOperation),
        }
    }
}

/// Allocates a fresh program name with nothing attached and no link yet.
pub fn create_program(ctx: &mut Context) -> (id: ProgramID)
    requires
        old(ctx).wf(),
        old(ctx).error == NO_ERROR,
        old(ctx).programs@.len() < u32::MAX,
    ensures
        final(ctx).wf(),
        final(ctx).error == NO_ERROR,
        id == old(ctx).programs@.len() + 1,
        final(ctx).program_live(id),
        final(ctx).program_at(id).attached@ == Seq::<u32>::empty(),
        !final(ctx).program_at(id).link_done,
        !final(ctx).program_at(id).link_ok,
        final(ctx).program_at(id).linked_sources@ == Seq::<String>::empty(),
        final(ctx).program_at(id).info_log@ == Seq::<char>::empty(),
        final(ctx).programs@ == old(ctx).programs@.push(final(ctx).program_at(id)),
        *final(ctx) == (Context {
            programs: final(ctx).programs,
            calls: final(ctx).calls,
            ..*old(ctx)
        }),
        final(ctx).logged(*old(ctx), GlCall::CreateProgram { id }),
{
    let id = ctx.programs.len() as u32 + 1;
    ctx.programs.push(
        ProgramObj {
            alive: true,
            attached: Vec::new(),
            link_done: false,
            link_ok: false,
            linked_sources: Vec::new(),
            info_log: String::new(),
        },
    );
    ctx.calls.push(GlCall::CreateProgram { id });
    id
}

/// Releases a program; a deleted program stops being the one in use. Fails
/// exactly when the id does not name a live program.
pub fn delete_program(ctx: &mut Context, program_id: ProgramID) -> (r: Result<(), Error>)
    requires
        old(ctx).wf(),
        old(ctx).error == NO_ERROR,
    ensures
        final(ctx).wf(),
        final(ctx).error == NO_ERROR,
        old(ctx).program_live(program_id) ==> {
            &&& r == Ok::<(), Error>(())
            &&& final(ctx).programs@ == old(ctx).programs@.update(
                program_id - 1,
                (ProgramObj { alive: false, ..old(ctx).program_at(program_id) }),
            )
            &&& final(ctx).current_program == (if old(ctx).current_program == program_id {
                0u32
            } else {
                old(ctx).current_program
            })
            &&& *final(ctx) == (Context {
                programs: final(ctx).programs,
                current_program: final(ctx).current_program,
                calls: final(ctx).calls,
                ..*old(ctx)
            })
            &&& final(ctx).logged(*old(ctx), GlCall::DeleteProgram { id: program_id })
        },
        !old(ctx).program_live(program_id) ==> {
            &&& r == Err::<(), Error>(Error::InvalidValue)
            &&& final(ctx).unchanged(*old(ctx))
        },
{
    if ctx.program_is_live(program_id) {
        let idx = (program_id - 1) as usize;
        let mut obj = ProgramObj {
            alive: false,
            attached: Vec::new(),
            link_done: false,
            link_ok: false,
            linked_sources: Vec::new(),
            info_log: String::new(),
        };
        ctx.programs.set_and_swap(idx, &mut obj);
        obj.alive = false;
        ctx.programs.set(idx, obj);
        proof {
            assert(ctx.programs@ =~= old(ctx).programs@.update(
                program_id - 1,
                (ProgramObj { alive: false, ..old(ctx).program_at(program_id) }),
            ));
        }
        if ctx.current_program == program_id {
            ctx.current_program = 0;
        }
        ctx.calls.push(GlCall::DeleteProgram { id: program_id });
        assert_no_error(ctx)
    } else {
        ctx.error = INVALID_VALUE;
        assert_no_error(ctx)
    }
}

/// Attaches a shader to a program. Fails when either id is dead or the
/// shader is already attached to the program.
pub fn attach_shader(ctx: &mut Context, program_id: ProgramID, shader_id: ShaderID) -> (r: Result<
    (),
    Error,
>)
    requires
        old(ctx).wf(),
        old(ctx).error == NO_ERROR,
    ensures
        final(ctx).wf(),
        final(ctx).error == NO_ERROR,
        (old(ctx).program_live(program_id) && old(ctx).shader_live(shader_id) && !old(
            ctx,
        ).program_at(program_id).attached@.contains(shader_id)) ==> {
            &&& r == Ok::<(), Error>(())
            &&& final(ctx).programs@ == old(ctx).programs@.update(
                program_id - 1,
                (ProgramObj {
                    attached: final(ctx).program_at(program_id).attached,
                    ..old(ctx).program_at(program_id)
                }),
            )
            &&& final(ctx).program_at(program_id).attached@ == old(ctx).program_at(
                program_id,
            ).attached@.push(shader_id)
            &&& *final(ctx) == (Context {
                programs: final(ctx).programs,
                calls: final(ctx).calls,
                ..*old(ctx)
            })
            &&& final(ctx).logged(
                *old(ctx),
                GlCall::AttachShader { program: program_id, shader: shader_id },
            )
        },
        !(old(ctx).program_live(program_id) && old(ctx).shader_live(shader_id) && !old(
            ctx,
        ).program_at(program_id).attached@.contains(shader_id)) ==> {
            &&& r == Err::<(), Error>(Error::InvalidOperation)
            &&& final(ctx).unchanged(*old(ctx))
        },
{
    if ctx.program_is_live(program_id) && ctx.shader_is_live(shader_id) {
        let idx = (program_id - 1) as usize;
        let already = match find_in_ids(&ctx.programs[idx].attached, shader_id) {
            Some(_) => true,
            None => false,
        };
        if already {
            ctx.error = INVALID_OPERATION;
            return assert_no_error(ctx);
        }
        let mut obj = ProgramObj {
            alive: false,
            attached: Vec::new(),
            link_done: false,
            link_ok: false,
            linked_sources: Vec::new(),
            info_log: String::new(),
        };
        ctx.programs.set_and_swap(idx, &mut obj);
        obj.attached.push(shader_id);
        ctx.programs.set(idx, obj);
        proof {
            assert(ctx.programs@ =~= old(ctx).programs@.update(
                program_id - 1,
                (ProgramObj {
                    attached: ctx.program_at(program_id).attached,
                    ..old(ctx).program_at(program_id)
                }),
            ));
        }
        ctx.calls.push(GlCall::AttachShader { program: program_id, shader: shader_id });
        assert_no_error(ctx)
    } else {
        ctx.error = INVALID_OPERATION;
        assert_no_error(ctx)
    }
}

/// Detaches the first attachment of a shader from a program. Fails when the
/// program is dead or the shader is not attached to it.
pub fn detach_shader(ctx: &mut Context, program_id: ProgramID, shader_id: ShaderID) -> (r: Result<
    (),
    Error,
>)
    requires
        old(ctx).wf(),
        old(ctx).error == NO_ERROR,
    ensures
        final(ctx).wf(),
        final(ctx).error == NO_ERROR,
        (old(ctx).program_live(program_id) && old(ctx).program_at(program_id).attached@.contains(
            shader_id,
        )) ==> {
            &&& r == Ok::<(), Error>(())
            &&& final(ctx).programs@ == old(ctx).programs@.update(
                program_id - 1,
                (ProgramObj {
                    attached: final(ctx).program_at(program_id).attached,
                    ..old(ctx).program_at(program_id)
                }),
            )
            &&& final(ctx).program_at(program_id).attached@ == old(ctx).program_at(
                program_id,
            ).attached@.remove(
                spec_find_id(old(ctx).program_at(program_id).attached@, shader_id),
            )
            &&& *final(ctx) == (Context {
                programs: final(ctx).programs,
                calls: final(ctx).calls,
                ..*old(ctx)
            })
            &&& final(ctx).logged(
                *old(ctx),
                GlCall::DetachShader { program: program_id, shader: shader_id },
            )
        },
        !(old(ctx).program_live(program_id) && old(ctx).program_at(program_id).attached@.contains(
            shader_id,
        )) ==> {
            &&& r == Err::<(), Error>(Error::InvalidOperation)
            &&& final(ctx).unchanged(*old(ctx))
        },
{
    if ctx.program_is_live(program_id) {
        let idx = (program_id - 1) as usize;
        let found = find_in_ids(&ctx.programs[idx].attached, shader_id);
        match found {
            Some(at) => {
                let mut obj = ProgramObj {
                    alive: false,
                    attached: Vec::new(),
                    link_done: false,
                    link_ok: false,
                    linked_sources: Vec::new(),
                    info_log: String::new(),
                };
                ctx.programs.set_and_swap(idx, &mut obj);
                obj.attached.remove(at);
                ctx.programs.set(idx, obj);
                proof {
                    assert(ctx.programs@ =~= old(ctx).programs@.update(
                        program_id - 1,
                        (ProgramObj {
                            attached: ctx.program_at(program_id).attached,
                            ..old(ctx).program_at(program_id)
                        }),
                    ));
                }
                ctx.calls.push(GlCall::DetachShader { program: program_id, shader: shader_id });
                assert_no_error(ctx)
            },
            None => {
                ctx.error = INVALID_OPERATION;
                assert_no_error(ctx)
            },
        }
    } else {
        ctx.error = INVALID_OPERATION;
        assert_no_error(ctx)
    }
}

/// Every attached shader has compiled successfully.
#[verifier::loop_isolation(false)]
fn attached_all_compiled(shaders: &Vec<ShaderObj>, attached: &Vec<u32>) -> (b: bool)
    requires
        forall|j: int|
            0 <= j < attached@.len() ==> 1 <= #[trigger] attached@[j] && attached@[j]
                <= shaders@.len(),
    ensures
        b == (forall|i: int|
            #![trigger attached@[i]]
            0 <= i < attached@.len() ==> shaders@[attached@[i] - 1].compile_done
                && shaders@[attached@[i] - 1].compiled),
{
    let mut k: usize = 0;
    while k < attached.len()
        invariant
            0 <= k <= attached@.len(),
            forall|i: int|
                #![trigger attached@[i]]
                0 <= i < k ==> shaders@[attached@[i] - 1].compile_done && shaders@[attached@[i]
                    - 1].compiled,
        decreases attached@.len() - k,
    {
        let sid = attached[k];
        let sidx = (sid - 1) as usize;
        if !(shaders[sidx].compile_done && shaders[sidx].compiled) {
            return false;
        }
        k = k + 1;
    }
    true
}

/// No two stages of the sequence coincide.
#[verifier::loop_isolation(false)]
fn stages_distinct(v: &Vec<ShaderType>) -> (b: bool)
    ensures
        b == (forall|i: int, j: int| 0 <= i < j < v@.len() ==> v@[i] != v@[j]),
{
    let mut a: usize = 0;
    while a < v.len()
        invariant
            0 <= a <= v@.len(),
            forall|i: int, j: int| 0 <= i < j < v@.len() && i < a ==> v@[i] != v@[j],
        decreases v@.len() - a,
    {
        let mut b: usize = a + 1;
        while b < v.len()
            invariant
                a < b <= v@.len() || (a + 1 == b && b > v@.len()),
                forall|j: int| a < j < b ==> v@[a as int] != v@[j],
        decreases v@.len() - b,
        {
            if v[a] == v[b] {
                return false;
            }
            b = b + 1;
        }
        a = a + 1;
    }
    true
}

/// Links a program with the modelled linker: the link succeeds exactly when
/// every attached shader compiled and the attached stages are pairwise
/// distinct; a successful link snapshots the attached sources, against which
/// uniform names later resolve. A failed link is not a driver error: it is
/// reported through the link-status word and the program's log. Fails only
/// when the id names no live program.
#[verifier::loop_isolation(false)]
pub fn link_program(ctx: &mut Context, program_id: ProgramID) -> (r: Result<(), Error>)
    requires
        old(ctx).wf(),
        old(ctx).error == NO_ERROR,
    ensures
        final(ctx).wf(),
        final(ctx).error == NO_ERROR,
        old(ctx).program_live(program_id) ==> {
            let accepted = spec_link_accepted(
                old(ctx).shaders@,
                old(ctx).program_at(program_id).attached@,
            );
            &&& r == Ok::<(), Error>(())
            &&& final(ctx).programs@ == old(ctx).programs@.update(
                program_id - 1,
                (ProgramObj {
                    link_done: true,
                    link_ok: accepted,
                    linked_sources: final(ctx).program_at(program_id).linked_sources,
                    info_log: final(ctx).program_at(program_id).info_log,
                    ..old(ctx).program_at(program_id)
                }),
            )
            &&& final(ctx).program_at(program_id).info_log@ == spec_link_log(accepted)
            &&& final(ctx).program_at(program_id).linked_sources@.len() == (if accepted {
                old(ctx).program_at(program_id).attached@.len() as int
            } else {
                0int
            })
            &&& (accepted ==> (forall|i: int|
                0 <= i < old(ctx).program_at(program_id).attached@.len() ==> (
                #[trigger] final(ctx).program_at(program_id).linked_sources@[i])@ == old(
                    ctx,
                ).shaders@[old(ctx).program_at(program_id).attached@[i] - 1].source@))
            &&& *final(ctx) == (Context {
                programs: final(ctx).programs,
                calls: final(ctx).calls,
                ..*old(ctx)
            })
            &&& final(ctx).logged(*old(ctx), GlCall::LinkProgram { id: program_id })
        },
        !old(ctx).program_live(program_id) ==> {
            &&& r == Err::<(), Error>(Error::InvalidOperation)
            &&& final(ctx).unchanged(*old(ctx))
        },
{
    if ctx.program_is_live(program_id) {
        let idx = (program_id - 1) as usize;
        let n = ctx.programs[idx].attached.len();
        let fits = n <= u32::MAX as usize;
        let all_compiled = attached_all_compiled(&ctx.shaders, &ctx.programs[idx].attached);
        let mut stages: Vec<ShaderType> = Vec::new();
        let mut k: usize = 0;
        while k < n
            invariant
                stages@.len() == k,
                0 <= k <= n,
                forall|i: int|
                    0 <= i < k ==> stages@[i] == ctx.shaders@[ctx.programs@[idx as int].attached@[i]
                        - 1].stage,
            decreases n - k,
        {
            let sid = ctx.programs[idx].attached[k];
            stages.push(ctx.shaders[(sid - 1) as usize].stage);
            k = k + 1;
        }
        let distinct = stages_distinct(&stages);
        let accepted = fits && all_compiled && distinct;
        proof {
            let shaders = old(ctx).shaders@;
            let attached = old(ctx).program_at(program_id).attached@;
            if distinct {
                assert forall|i: int, j: int| 0 <= i < j < attached.len() implies shaders[(
                #[trigger] attached[i]) - 1].stage != shaders[(#[trigger] attached[j])
                    - 1].stage by {
                    assert(stages@[i] == shaders[attached[i] - 1].stage);
                    assert(stages@[j] == shaders[attached[j] - 1].stage);
                    assert(stages@[i] != stages@[j]);
                }
            } else {
                let (i, j) = choose|i: int, j: int|
                    0 <= i < j < stages@.len() && stages@[i] == stages@[j];
                assert(stages@[i] == shaders[attached[i] - 1].stage);
                assert(stages@[j] == shaders[attached[j] - 1].stage);
                assert(!spec_link_accepted(shaders, attached));
            }
            assert(accepted == spec_link_accepted(shaders, attached));
        }
        let mut linked: Vec<String> = Vec::new();
        if accepted {
            let mut k2: usize = 0;
            while k2 < n
                invariant
                    linked@.len() == k2,
                    0 <= k2 <= n,
                    forall|i: int|
                        0 <= i < k2 ==> (#[trigger] linked@[i])@ == ctx.shaders@[ctx.programs@[
                            idx as int
                        ].attached@[i] - 1].source@,
                decreases n - k2,
            {
                let sid = ctx.programs[idx].attached[k2];
                linked.push(ctx.shaders[(sid - 1) as usize].source.clone());
                k2 = k2 + 1;
            }
        }
        let mut obj = ProgramObj {
            alive: false,
            attached: Vec::new(),
            link_done: false,
            link_ok: false,
            linked_sources: Vec::new(),
            info_log: String::new(),
        };
        ctx.programs.set_and_swap(idx, &mut obj);
        obj.link_done = true;
        obj.link_ok = accepted;
        obj.linked_sources = linked;
        obj.info_log = if accepted {
            String::new()
        } else {
            String::from_str("program link failed: stage missing its compiled shader or duplicated")
        };
        proof {
            reveal_strlit("program link failed: stage missing its compiled shader or duplicated");
        }
        ctx.programs.set(idx, obj);
        proof {
            assert(ctx.programs@ =~= old(ctx).programs@.update(
                program_id - 1,
                (ProgramObj {
                    link_done: true,
                    link_ok: accepted,
                    linked_sources: ctx.program_at(program_id).linked_sources,
                    info_log: ctx.program_at(program_id).info_log,
                    ..old(ctx).program_at(program_id)
                }),
            ));
        }
        ctx.calls.push(GlCall::LinkProgram { id: program_id });
        assert_no_error(ctx)
    } else {
        ctx.error = INVALID_OPERATION;
        assert_no_error(ctx)
    }
}

/// Reads one per-program state word. Fails when the id names no live
/// program.
pub fn get_program_paramter(ctx: &mut Context, program_id: ProgramID, parameter: ProgramParameter)
    -> (r: Result<u32, Error>)
    requires
        old(ctx).wf(),
        old(ctx).error == NO_ERROR,
    ensures
        final(ctx).wf(),
        final(ctx).error == NO_ERROR,
        final(ctx).unchanged(*old(ctx)),
        old(ctx).program_live(program_id) ==> r == Ok::<u32, Error>(
            match parameter {
                ProgramParameter::LinkStatus => if old(ctx).program_at(program_id).link_done && old(
                    ctx,
                ).program_at(program_id).link_ok {
                    1u32
                } else {
                    0u32
                },
                ProgramParameter::InfoLogLength => old(ctx).program_at(
                    program_id,
                ).info_log@.len() as u32,
            },
        ),
        !old(ctx).program_live(program_id) ==> r == Err::<u32, Error>(Error::InvalidOperation),
{
    if ctx.program_is_live(program_id) {
        let idx = (program_id - 1) as usize;
        let value = match parameter {
            ProgramParameter::LinkStatus => {
                if ctx.programs[idx].link_done && ctx.programs[idx].link_ok {
                    1u32
                } else {
                    0u32
                }
            },
            ProgramParameter::InfoLogLength => ctx.programs[idx].info_log.as_str().unicode_len()
                as u32,
        };
        Ok(value)
    } else {
        ctx.error = INVALID_OPERATION;
        match assert_no_error(ctx) {
            Err(e) => Err(e),
            Ok(()) => Err(Error::InvalidOperation),
        }
    }
}

/// Reads a program's link log, truncated to `buffer_size` characters. Fails
/// when the id names no live program.
pub fn get_program_info_log(ctx: &mut Context, id: ProgramID, buffer_size: u32) -> (r: Result<
    String,
    Error,
>)
    requires
        old(ctx).wf(),
        old(ctx).error == NO_ERROR,
    ensures
        final(ctx).wf(),
        final(ctx).error == NO_ERROR,
        final(ctx).unchanged(*old(ctx)),
        old(ctx).program_live(id) ==> (r matches Ok(log) && log@ == (if buffer_size
            < old(ctx).program_at(id).info_log@.len() {
            old(ctx).program_at(id).info_log@.subrange(0, buffer_size as int)
        } else {
            old(ctx).program_at(id).info_log@
        })),
        !old(ctx).program_live(id) ==> r == Err::<String, Error>(Error::InvalidOperation),
{
    if ctx.program_is_live(id) {
        let idx = (id - 1) as usize;
        let len = ctx.programs[idx].info_log.as_str().unicode_len();
        if (buffer_size as usize) < len {
            Ok(
                String::from_str(
                    ctx.programs[idx].info_log.as_str().substring_char(0, buffer_size as usize),
                ),
            )
        } else {
            proof {
                assert(old(ctx).program_at(id).info_log@.subrange(
                    0,
                    old(ctx).program_at(id).info_log@.len() as int,
                ) =~= old(ctx).program_at(id).info_log@);
            }
            Ok(ctx.programs[idx].info_log.clone())
        }
    } else {
        ctx.error = INVALID_OPERATION;
        match assert_no_error(ctx) {
            Err(e) => Err(e),
            Ok(()) => Err(Error::InvalidOperation),
        }
    }
}

/// Makes a program current, or clears the selection when the id is 0. Fails
/// when the id names no live, successfully linked program.
pub fn use_program(ctx: &mut Context, program_id: ProgramID) -> (r: Result<(), Error>)
    requires
        old(ctx).wf(),
        old(ctx).error == NO_ERROR,
    ensures
        final(ctx).wf(),
        final(ctx).error == NO_ERROR,
        (program_id == 0 || (old(ctx).program_live(program_id) && old(ctx).program_at(
            program_id,
        ).link_done && old(ctx).program_at(program_id).link_ok)) ==> {
            &&& r == Ok::<(), Error>(())
            &&& *final(ctx) == (Context {
                current_program: program_id,
                calls: final(ctx).calls,
                ..*old(ctx)
            })
            &&& final(ctx).logged(*old(ctx), GlCall::UseProgram { id: program_id })
        },
        !(program_id == 0 || (old(ctx).program_live(program_id) && old(ctx).program_at(
            program_id,
        ).link_done && old(ctx).program_at(program_id).link_ok)) ==> {
            &&& r == Err::<(), Error>(Error::InvalidOperation)
            &&& final(ctx).unchanged(*old(ctx))
        },
{
    let usable = program_id == 0 || (ctx.program_is_live(program_id) && ctx.programs[(program_id
        - 1) as usize].link_done && ctx.programs[(program_id - 1) as usize].link_ok);
    if usable {
        ctx.current_program = program_id;
        ctx.calls.push(GlCall::UseProgram { id: program_id });
        assert_no_error(ctx)
    } else {
        ctx.error = INVALID_OPERATION;
        assert_no_error(ctx)
    }
}

/// Resolves a uniform name against the sources a program was linked from:
/// the location names the first source that references the name, or `None`
/// when no source does. Fails when the id names no live, successfully linked
/// program.
#[verifier::loop_isolation(false)]
pub fn get_uniform_location(ctx: &mut Context, program_id: ProgramID, name: &str) -> (r: Result<
    Option<UniformLocation>,
    Error,
>)
    requires
        old(ctx).wf(),
        old(ctx).error == NO_ERROR,
    ensures
        final(ctx).wf(),
        final(ctx).error == NO_ERROR,
        final(ctx).unchanged(*old(ctx)),
        (old(ctx).program_live(program_id) && old(ctx).program_at(program_id).link_done && old(
            ctx,
        ).program_at(program_id).link_ok) ==> ({
            let sidx = spec_uniform_source_index(
                old(ctx).program_at(program_id).linked_sources@,
                name@,
            );
            r == Ok::<Option<UniformLocation>, Error>(
                if sidx < 0 {
                    None
                } else {
                    Some(sidx as u32)
                },
            )
        }),
        !(old(ctx).program_live(program_id) && old(ctx).program_at(program_id).link_done && old(
            ctx,
        ).program_at(program_id).link_ok) ==> r == Err::<Option<UniformLocation>, Error>(
            Error::InvalidOperation,
        ),
{
    let usable = ctx.program_is_live(program_id) && ctx.programs[(program_id - 1) as usize].link_done
        && ctx.programs[(program_id - 1) as usize].link_ok;
    if usable {
        let idx = (program_id - 1) as usize;
        let n = ctx.programs[idx].linked_sources.len();
        let mut i: usize = 0;
        while i < n
            invariant
                0 <= i <= n,
                forall|j: int|
                    0 <= j < i ==> !spec_contains(
                        (#[trigger] ctx.programs@[idx as int].linked_sources@[j])@,
                        name@,
                    ),
            decreases n - i,
        {
            if contains_substring(ctx.programs[idx].linked_sources[i].as_str(), name) {
                proof {
                    lemma_uniform_source_index(ctx.programs@[idx as int].linked_sources@, name@);
                }
                return Ok(Some(i as u32));
            }
            i = i + 1;
        }
        proof {
            lemma_uniform_source_index(ctx.programs@[idx as int].linked_sources@, name@);
        }
        Ok(None)
    } else {
        ctx.error = INVALID_OPERATION;
        match assert_no_error(ctx) {
            Err(e) => Err(e),
            Ok(()) => Err(Error::InvalidOperation),
        }
    }
}

/// Uploads one 32-bit integer uniform to the program in use. Fails when no
/// program is in use.
pub fn set_uniform_i32(ctx: &mut Context, location: UniformLocation, data: i32) -> (r: Result<
    (),
    Error,
>)
    requires
        old(ctx).wf(),
        old(ctx).error == NO_ERROR,
    ensures
        final(ctx).wf(),
        final(ctx).error == NO_ERROR,
        old(ctx).current_program != 0 ==> {
            &&& r == Ok::<(), Error>(())
            &&& final(ctx).log_only(*old(ctx), GlCall::Uniform1I { location, value: data })
        },
        old(ctx).current_program == 0 ==> {
            &&& r == Err::<(), Error>(Error::InvalidOperation)
            &&& final(ctx).unchanged(*old(ctx))
        },
{
    if ctx.current_program != 0 {
        ctx.calls.push(GlCall::Uniform1I { location, value: data });
        assert_no_error(ctx)
    } else {
        ctx.error = INVALID_OPERATION;
        assert_no_error(ctx)
    }
}

/// Uploads one 32-bit scalar uniform, given as its raw bit pattern. Fails
/// when no program is in use.
pub fn set_uniform_f32(ctx: &mut Context, location: UniformLocation, data_bits: u32) -> (r: Result<
    (),
    Error,
>)
    requires
        old(ctx).wf(),
        old(ctx).error == NO_ERROR,
    ensures
        final(ctx).wf(),
        final(ctx).error == NO_ERROR,
        old(ctx).current_program != 0 ==> {
            &&& r == Ok::<(), Error>(())
            &&& final(ctx).log_only(*old(ctx), GlCall::Uniform1F { location, bits: data_bits })
        },
        old(ctx).current_program == 0 ==> {
            &&& r == Err::<(), Error>(Error::InvalidOperation)
            &&& final(ctx).unchanged(*old(ctx))
        },
{
    if ctx.current_program != 0 {
        ctx.calls.push(GlCall::Uniform1F { location, bits: data_bits });
        assert_no_error(ctx)
    } else {
        ctx.error = INVALID_OPERATION;
        assert_no_error(ctx)
    }
}

/// Uploads a two-component vector uniform, given as raw bit patterns. Fails
/// when no program is in use.
pub fn set_uniform_vec2(ctx: &mut Context, location: UniformLocation, data: &[u32; 2]) -> (r:
    Result<(), Error>)
    requires
        old(ctx).wf(),
        old(ctx).error == NO_ERROR,
    ensures
        final(ctx).wf(),
        final(ctx).error == NO_ERROR,
        old(ctx).current_program != 0 ==> {
            &&& r == Ok::<(), Error>(())
            &&& final(ctx).log_only(
                *old(ctx),
                GlCall::Uniform2F { location, bits0: data@[0], bits1: data@[1] },
            )
        },
        old(ctx).current_program == 0 ==> {
            &&& r == Err::<(), Error>(Error::InvalidOperation)
            &&& final(ctx).unchanged(*old(ctx))
        },
{
    if ctx.current_program != 0 {
        ctx.calls.push(GlCall::Uniform2F { location, bits0: data[0], bits1: data[1] });
        assert_no_error(ctx)
    } else {
        ctx.error = INVALID_OPERATION;
        assert_no_error(ctx)
    }
}

/// Uploads a three-component vector uniform, given as raw bit patterns.
/// Fails when no program is in use.
pub fn set_uniform_vec3(ctx: &mut Context, location: UniformLocation, data: &[u32; 3]) -> (r:
    Result<(), Error>)
    requires
        old(ctx).wf(),
        old(ctx).error == NO_ERROR,
    ensures
        final(ctx).wf(),
        final(ctx).error == NO_ERROR,
        old(ctx).current_program != 0 ==> {
            &&& r == Ok::<(), Error>(())
            &&& final(ctx).log_only(
                *old(ctx),
                GlCall::Uniform3F { location, bits0: data@[0], bits1: data@[1], bits2: data@[2] },
            )
        },
        old(ctx).current_program == 0 ==> {
            &&& r == Err::<(), Error>(Error::InvalidOperation)
            &&& final(ctx).unchanged(*old(ctx))
        },
{
    if ctx.current_program != 0 {
        ctx.calls.push(
            GlCall::Uniform3F { location, bits0: data[0], bits1: data[1], bits2: data[2] },
        );
        assert_no_error(ctx)
    } else {
        ctx.error = INVALID_OPERATION;
        assert_no_error(ctx)
    }
}

/// Uploads a four-by-four matrix uniform, given as raw bit patterns. Fails
/// when no program is in use.
pub fn set_uniform_mat4(
    ctx: &mut Context,
    location: UniformLocation,
    transpose: bool,
    data: &[u32],
) -> (r: Result<(), Error>)
    requires
        old(ctx).wf(),
        old(ctx).error == NO_ERROR,
    ensures
        final(ctx).wf(),
        final(ctx).error == NO_ERROR,
        old(ctx).current_program != 0 ==> {
            &&& r == Ok::<(), Error>(())
            &&& final(ctx).log_only(*old(ctx), GlCall::UniformMatrix4F { location, transpose })
        },
        old(ctx).current_program == 0 ==> {
            &&& r == Err::<(), Error>(Error::InvalidOperation)
            &&& final(ctx).unchanged(*old(ctx))
        },
{
    if ctx.current_program != 0 {
        ctx.calls.push(GlCall::UniformMatrix4F { location, transpose });
        assert_no_error(ctx)
    } else {
        ctx.error = INVALID_OPERATION;
        assert_no_error(ctx)
    }
}

/// Allocates a fresh texture name.
pub fn create_texture(ctx: &mut Context) -> (id: TextureID)
    requires
        old(ctx).wf(),
        old(ctx).error == NO_ERROR,
        old(ctx).textures@.len() < u32::MAX,
    ensures
        final(ctx).wf(),
        final(ctx).error == NO_ERROR,
        id == old(ctx).textures@.len() + 1,
        final(ctx).texture_live(id),
        final(ctx).textures@ == old(ctx).textures@.push(true),
        *final(ctx) == (Context { textures: final(ctx).textures, calls: final(ctx).calls, ..*old(ctx) }),
        final(ctx).logged(*old(ctx), GlCall::GenTexture { id }),
{
    let id = ctx.textures.len() as u32 + 1;
    ctx.textures.push(true);
    ctx.calls.push(GlCall::GenTexture { id });
    id
}

/// Releases a texture; a deleted texture is detached from the bind points
/// that held it. Fails exactly when the id does not name a live texture.
pub fn delete_texture(ctx: &mut Context, texture_id: TextureID) -> (r: Result<(), Error>)
    requires
        old(ctx).wf(),
        old(ctx).error == NO_ERROR,
    ensures
        final(ctx).wf(),
        final(ctx).error == NO_ERROR,
        old(ctx).texture_live(texture_id) ==> {
            &&& r == Ok::<(), Error>(())
            &&& final(ctx).textures@ == old(ctx).textures@.update(texture_id - 1, false)
            &&& final(ctx).bound_texture_2d == (if old(ctx).bound_texture_2d == texture_id {
                0u32
            } else {
                old(ctx).bound_texture_2d
            })
            &&& final(ctx).bound_texture_cube_map == (if old(ctx).bound_texture_cube_map
                == texture_id {
                0u32
            } else {
                old(ctx).bound_texture_cube_map
            })
            &&& *final(ctx) == (Context {
                textures: final(ctx).textures,
                bound_texture_2d: final(ctx).bound_texture_2d,
                bound_texture_cube_map: final(ctx).bound_texture_cube_map,
                calls: final(ctx).calls,
                ..*old(ctx)
            })
            &&& final(ctx).logged(*old(ctx), GlCall::DeleteTexture { id: texture_id })
        },
        !old(ctx).texture_live(texture_id) ==> {
            &&& r == Err::<(), Error>(Error::InvalidValue)
            &&& final(ctx).unchanged(*old(ctx))
        },
{
    if ctx.texture_is_live(texture_id) {
        ctx.textures.set((texture_id - 1) as usize, false);
        if ctx.bound_texture_2d == texture_id {
            ctx.bound_texture_2d = 0;
        }
        if ctx.bound_texture_cube_map == texture_id {
            ctx.bound_texture_cube_map = 0;
        }
        ctx.calls.push(GlCall::DeleteTexture { id: texture_id });
        assert_no_error(ctx)
    } else {
        ctx.error = INVALID_VALUE;
        assert_no_error(ctx)
    }
}

/// Binds a texture at the two-dimensional or cube-map bind point. A face
/// target is not a bind point and is refused; a dead id is refused.
pub fn bind_texture(ctx: &mut Context, texture_id: TextureID, texture_target: TextureTarget) -> (r:
    Result<(), Error>)
    requires
        old(ctx).wf(),
        old(ctx).error == NO_ERROR,
    ensures
        final(ctx).wf(),
        final(ctx).error == NO_ERROR,
        (texture_target matches TextureTarget::CubeMapFace(_)) ==> {
            &&& r == Err::<(), Error>(Error::InvalidEnum)
            &&& final(ctx).unchanged(*old(ctx))
        },
        !(texture_target matches TextureTarget::CubeMapFace(_)) && !(texture_id == 0 || old(
            ctx,
        ).texture_live(texture_id)) ==> {
            &&& r == Err::<(), Error>(Error::InvalidOperation)
            &&& final(ctx).unchanged(*old(ctx))
        },
        !(texture_target matches TextureTarget::CubeMapFace(_)) && (texture_id == 0 || old(
            ctx,
        ).texture_live(texture_id)) ==> {
            &&& r == Ok::<(), Error>(())
            &&& final(ctx).logged(
                *old(ctx),
                GlCall::BindTexture { target: texture_target, id: texture_id },
            )
            &&& (texture_target == TextureTarget::Image2D ==> *final(ctx) == (Context {
                bound_texture_2d: texture_id,
                calls: final(ctx).calls,
                ..*old(ctx)
            }))
            &&& (texture_target == TextureTarget::CubeMap ==> *final(ctx) == (Context {
                bound_texture_cube_map: texture_id,
                calls: final(ctx).calls,
                ..*old(ctx)
            }))
        },
{
    match texture_target {
        TextureTarget::CubeMapFace(_) => {
            ctx.error = INVALID_ENUM;
            assert_no_error(ctx)
        },
        TextureTarget::Image2D => {
            if texture_id == 0 || ctx.texture_is_live(texture_id) {
                ctx.bound_texture_2d = texture_id;
                ctx.calls.push(GlCall::BindTexture { target: texture_target, id: texture_id });
                assert_no_error(ctx)
            } else {
                ctx.error = INVALID_OPERATION;
                assert_no_error(ctx)
            }
        },
        TextureTarget::CubeMap => {
            if texture_id == 0 || ctx.texture_is_live(texture_id) {
                ctx.bound_texture_cube_map = texture_id;
                ctx.calls.push(GlCall::BindTexture { target: texture_target, id: texture_id });
                assert_no_error(ctx)
            } else {
                ctx.error = INVALID_OPERATION;
                assert_no_error(ctx)
            }
        },
    }
}

/// Selects the active texture unit. Fails when the unit index exceeds the
/// driver's limit.
pub fn active_texture(ctx: &mut Context, texture_index: u32) -> (r: Result<(), Error>)
    requires
        old(ctx).wf(),
        old(ctx).error == NO_ERROR,
    ensures
        final(ctx).wf(),
        final(ctx).error == NO_ERROR,
        texture_index < MAX_TEXTURE_UNITS ==> {
            &&& r == Ok::<(), Error>(())
            &&& *final(ctx) == (Context {
                active_texture_unit: texture_index,
                calls: final(ctx).calls,
                ..*old(ctx)
            })
            &&& final(ctx).logged(*old(ctx), GlCall::ActiveTexture { unit: texture_index })
        },
        texture_index >= MAX_TEXTURE_UNITS ==> {
            &&& r == Err::<(), Error>(Error::InvalidEnum)
            &&& final(ctx).unchanged(*old(ctx))
        },
{
    if texture_index < MAX_TEXTURE_UNITS {
        ctx.active_texture_unit = texture_index;
        ctx.calls.push(GlCall::ActiveTexture { unit: texture_index });
        assert_no_error(ctx)
    } else {
        ctx.error = INVALID_ENUM;
        assert_no_error(ctx)
    }
}

/// Selects the depth comparison used by the depth test. The wrapped call has
/// no failure path to translate, so none is offered here.
pub fn set_depth_func(ctx: &mut Context, func: DepthFunc)
    requires
        old(ctx).wf(),
        old(ctx).error == NO_ERROR,
    ensures
        final(ctx).wf(),
        final(ctx).error == NO_ERROR,
        final(ctx).log_only(*old(ctx), GlCall::SetDepthFunc { func }),
{
    ctx.calls.push(GlCall::SetDepthFunc { func });
}

/// Sets one sampling parameter of the texture bound at `texture_target`. A
/// face target is refused.
pub fn set_texture_parameter_value(
    ctx: &mut Context,
    texture_target: TextureTarget,
    texture_parameter_name: TextureParameterName,
    texture_parameter_value: TextureParameterValue,
) -> (r: Result<(), Error>)
    requires
        old(ctx).wf(),
        old(ctx).error == NO_ERROR,
    ensures
        final(ctx).wf(),
        final(ctx).error == NO_ERROR,
        (texture_target matches TextureTarget::CubeMapFace(_)) ==> {
            &&& r == Err::<(), Error>(Error::InvalidEnum)
            &&& final(ctx).unchanged(*old(ctx))
        },
        !(texture_target matches TextureTarget::CubeMapFace(_)) ==> {
            &&& r == Ok::<(), Error>(())
            &&& final(ctx).log_only(
                *old(ctx),
                GlCall::TexParameter {
                    target: texture_target,
                    name: texture_parameter_name,
                    value: texture_parameter_value,
                },
            )
        },
{
    match texture_target {
        TextureTarget::CubeMapFace(_) => {
            ctx.error = INVALID_ENUM;
            assert_no_error(ctx)
        },
        _ => {
            ctx.calls.push(
                GlCall::TexParameter {
                    target: texture_target,
                    name: texture_parameter_name,
                    value: texture_parameter_value,
                },
            );
            assert_no_error(ctx)
        },
    }
}

/// Uploads one mipmap level of image data to the texture bound at the
/// two-dimensional bind point or one cube-map face; `None` data allocates
/// storage without filling it. The cube-map bind point itself is not an
/// upload target and is refused.
#[allow(clippy::too_many_arguments)]
pub fn load_texture_image2d(
    ctx: &mut Context,
    texture_target: TextureTarget,
    mipmap_level: u32,
    internal_format: TextureFormat,
    width: u64,
    height: u64,
    data_format: TextureFormat,
    data_type: DataType,
    data: Option<&[u8]>,
) -> (r: Result<(), Error>)
    requires
        old(ctx).wf(),
        old(ctx).error == NO_ERROR,
    ensures
        final(ctx).wf(),
        final(ctx).error == NO_ERROR,
        texture_target == TextureTarget::CubeMap ==> {
            &&& r == Err::<(), Error>(Error::InvalidEnum)
            &&& final(ctx).unchanged(*old(ctx))
        },
        texture_target != TextureTarget::CubeMap ==> {
            &&& r == Ok::<(), Error>(())
            &&& final(ctx).log_only(
                *old(ctx),
                GlCall::TexImage2D {
                    target: texture_target,
                    mipmap_level,
                    internal_format,
                    width,
                    height,
                    data_format,
                    data_type,
                    has_data: data is Some,
                    byte_len: (match data {
                        Some(bytes) => bytes@.len() as usize,
                        None => 0usize,
                    }),
                },
            )
        },
{
    match texture_target {
        TextureTarget::CubeMap => {
            ctx.error = INVALID_ENUM;
            assert_no_error(ctx)
        },
        _ => {
            let byte_len = match data {
                Some(bytes) => bytes.len(),
                None => 0usize,
            };
            let has_data = match data {
                Some(_) => true,
                None => false,
            };
            ctx.calls.push(
                GlCall::TexImage2D {
                    target: texture_target,
                    mipmap_level,
                    internal_format,
                    width,
                    height,
                    data_format,
                    data_type,
                    has_data,
                    byte_len,
                },
            );
            assert_no_error(ctx)
        },
    }
}

/// Generates the mipmap chain of the texture bound at `texture_target`. A
/// face target is refused.
pub fn generate_mipmaps(ctx: &mut Context, texture_target: TextureTarget) -> (r: Result<(), Error>)
    requires
        old(ctx).wf(),
        old(ctx).error == NO_ERROR,
    ensures
        final(ctx).wf(),
        final(ctx).error == NO_ERROR,
        (texture_target matches TextureTarget::CubeMapFace(_)) ==> {
            &&& r == Err::<(), Error>(Error::InvalidEnum)
            &&& final(ctx).unchanged(*old(ctx))
        },
        !(texture_target matches TextureTarget::CubeMapFace(_)) ==> {
            &&& r == Ok::<(), Error>(())
            &&& final(ctx).log_only(*old(ctx), GlCall::GenerateMipmaps { target: texture_target })
        },
{
    match texture_target {
        TextureTarget::CubeMapFace(_) => {
            ctx.error = INVALID_ENUM;
            assert_no_error(ctx)
        },
        _ => {
            ctx.calls.push(GlCall::GenerateMipmaps { target: texture_target });
            assert_no_error(ctx)
        },
    }
}

/// Allocates a fresh frame-buffer name.
pub fn create_frame_buffer(ctx: &mut Context) -> (id: FrameBufferID)
    requires
        old(ctx).wf(),
        old(ctx).error == NO_ERROR,
        old(ctx).frame_buffers@.len() < u32::MAX,
    ensures
        final(ctx).wf(),
        final(ctx).error == NO_ERROR,
        id == old(ctx).frame_buffers@.len() + 1,
        final(ctx).frame_buffer_live(id),
        final(ctx).frame_buffers@ == old(ctx).frame_buffers@.push(true),
        *final(ctx) == (Context {
            frame_buffers: final(ctx).frame_buffers,
            calls: final(ctx).calls,
            ..*old(ctx)
        }),
        final(ctx).logged(*old(ctx), GlCall::GenFrameBuffer { id }),
{
    let id = ctx.frame_buffers.len() as u32 + 1;
    ctx.frame_buffers.push(true);
    ctx.calls.push(GlCall::GenFrameBuffer { id });
    id
}

/// Binds a frame buffer, or selects the display buffer when the id is 0.
/// Fails when the id names no live frame buffer.
pub fn bind_frame_buffer(ctx: &mut Context, id: FrameBufferID, target: FrameBufferTarget) -> (r:
    Result<(), Error>)
    requires
        old(ctx).wf(),
        old(ctx).error == NO_ERROR,
    ensures
        final(ctx).wf(),
        final(ctx).error == NO_ERROR,
        (id == 0 || old(ctx).frame_buffer_live(id)) ==> {
            &&& r == Ok::<(), Error>(())
            &&& *final(ctx) == (Context {
                bound_frame_buffer: id,
                calls: final(ctx).calls,
                ..*old(ctx)
            })
            &&& final(ctx).logged(*old(ctx), GlCall::BindFrameBuffer { target, id })
        },
        !(id == 0 || old(ctx).frame_buffer_live(id)) ==> {
            &&& r == Err::<(), Error>(Error::InvalidOperation)
            &&& final(ctx).unchanged(*old(ctx))
        },
{
    if id == 0 || ctx.frame_buffer_is_live(id) {
        ctx.bound_frame_buffer = id;
        ctx.calls.push(GlCall::BindFrameBuffer { target, id });
        assert_no_error(ctx)
    } else {
        ctx.error = INVALID_OPERATION;
        assert_no_error(ctx)
    }
}

/// Attaches one mipmap level of a texture to an attachment slot of the bound
/// frame buffer. Fails when the display buffer is bound or the texture id is
/// dead.
pub fn frame_buffer_texture_2d(
    ctx: &mut Context,
    framebuffer_target: FrameBufferTarget,
    attachment: FrameBufferAttachment,
    texture_target: TextureTarget,
    texture_id: TextureID,
    mipmap_level: u32,
) -> (r: Result<(), Error>)
    requires
        old(ctx).wf(),
        old(ctx).error == NO_ERROR,
    ensures
        final(ctx).wf(),
        final(ctx).error == NO_ERROR,
        (old(ctx).bound_frame_buffer != 0 && (texture_id == 0 || old(ctx).texture_live(
            texture_id,
        ))) ==> {
            &&& r == Ok::<(), Error>(())
            &&& final(ctx).log_only(
                *old(ctx),
                GlCall::FrameBufferTexture2D {
                    target: framebuffer_target,
                    attachment,
                    texture_target,
                    texture_id,
                    mipmap_level,
                },
            )
        },
        !(old(ctx).bound_frame_buffer != 0 && (texture_id == 0 || old(ctx).texture_live(
            texture_id,
        ))) ==> {
            &&& r == Err::<(), Error>(Error::InvalidOperation)
            &&& final(ctx).unchanged(*old(ctx))
        },
{
    if ctx.bound_frame_buffer != 0 && (texture_id == 0 || ctx.texture_is_live(texture_id)) {
        ctx.calls.push(
            GlCall::FrameBufferTexture2D {
                target: framebuffer_target,
                attachment,
                texture_target,
                texture_id,
                mipmap_level,
            },
        );
        assert_no_error(ctx)
    } else {
        ctx.error = INVALID_OPERATION;
        assert_no_error(ctx)
    }
}

/// Allocates a fresh render-buffer name.
pub fn create_render_buffer(ctx: &mut Context) -> (id: RenderBufferID)
    requires
        old(ctx).wf(),
        old(ctx).error == NO_ERROR,
        old(ctx).render_buffers@.len() < u32::MAX,
    ensures
        final(ctx).wf(),
        final(ctx).error == NO_ERROR,
        id == old(ctx).render_buffers@.len() + 1,
        final(ctx).render_buffer_live(id),
        final(ctx).render_buffers@ == old(ctx).render_buffers@.push(true),
        *final(ctx) == (Context {
            render_buffers: final(ctx).render_buffers,
            calls: final(ctx).calls,
            ..*old(ctx)
        }),
        final(ctx).logged(*old(ctx), GlCall::GenRenderBuffer { id }),
{
    let id = ctx.render_buffers.len() as u32 + 1;
    ctx.render_buffers.push(true);
    ctx.calls.push(GlCall::GenRenderBuffer { id });
    id
}

/// Binds a render buffer, or unbinds the current one when the id is 0.
/// Fails when the id names no live render buffer.
pub fn bind_render_buffer(ctx: &mut Context, id: RenderBufferID) -> (r: Result<(), Error>)
    requires
        old(ctx).wf(),
        old(ctx).error == NO_ERROR,
    ensures
        final(ctx).wf(),
        final(ctx).error == NO_ERROR,
        (id == 0 || old(ctx).render_buffer_live(id)) ==> {
            &&& r == Ok::<(), Error>(())
            &&& *final(ctx) == (Context {
                bound_render_buffer: id,
                calls: final(ctx).calls,
                ..*old(ctx)
            })
            &&& final(ctx).logged(*old(ctx), GlCall::BindRenderBuffer { id })
        },
        !(id == 0 || old(ctx).render_buffer_live(id)) ==> {
            &&& r == Err::<(), Error>(Error::InvalidOperation)
            &&& final(ctx).unchanged(*old(ctx))
        },
{
    if id == 0 || ctx.render_buffer_is_live(id) {
        ctx.bound_render_buffer = id;
        ctx.calls.push(GlCall::BindRenderBuffer { id });
        assert_no_error(ctx)
    } else {
        ctx.error = INVALID_OPERATION;
        assert_no_error(ctx)
    }
}

/// Allocates single-image storage for the bound render buffer. Fails when no
/// render buffer is bound.
pub fn render_buffer_storage(
    ctx: &mut Context,
    internal_format: RenderBufferStorageFormat,
    width: u32,
    height: u32,
) -> (r: Result<(), Error>)
    requires
        old(ctx).wf(),
        old(ctx).error == NO_ERROR,
    ensures
        final(ctx).wf(),
        final(ctx).error == NO_ERROR,
        old(ctx).bound_render_buffer != 0 ==> {
            &&& r == Ok::<(), Error>(())
            &&& final(ctx).log_only(
                *old(ctx),
                GlCall::RenderBufferStorage { format: internal_format, width, height },
            )
        },
        old(ctx).bound_render_buffer == 0 ==> {
            &&& r == Err::<(), Error>(Error::InvalidOperation)
            &&& final(ctx).unchanged(*old(ctx))
        },
{
    if ctx.bound_render_buffer != 0 {
        ctx.calls.push(GlCall::RenderBufferStorage { format: internal_format, width, height });
        assert_no_error(ctx)
    } else {
        ctx.error = INVALID_OPERATION;
        assert_no_error(ctx)
    }
}

/// Attaches a render buffer to an attachment slot of the bound frame buffer.
/// Fails when the display buffer is bound or the render-buffer id is dead.
pub fn frame_buffer_render_buffer(
    ctx: &mut Context,
    target: FrameBufferTarget,
    attachment: FrameBufferAttachment,
    render_buffer_id: RenderBufferID,
) -> (r: Result<(), Error>)
    requires
        old(ctx).wf(),
        old(ctx).error == NO_ERROR,
    ensures
        final(ctx).wf(),
        final(ctx).error == NO_ERROR,
        (old(ctx).bound_frame_buffer != 0 && (render_buffer_id == 0 || old(
            ctx,
        ).render_buffer_live(render_buffer_id))) ==> {
            &&& r == Ok::<(), Error>(())
            &&& final(ctx).log_only(
                *old(ctx),
                GlCall::FrameBufferRenderBuffer { target, attachment, render_buffer_id },
            )
        },
        !(old(ctx).bound_frame_buffer != 0 && (render_buffer_id == 0 || old(
            ctx,
        ).render_buffer_live(render_buffer_id))) ==> {
            &&& r == Err::<(), Error>(Error::InvalidOperation)
            &&& final(ctx).unchanged(*old(ctx))
        },
{
    if ctx.bound_frame_buffer != 0 && (render_buffer_id == 0 || ctx.render_buffer_is_live(
        render_buffer_id,
    )) {
        ctx.calls.push(GlCall::FrameBufferRenderBuffer { target, attachment, render_buffer_id });
        assert_no_error(ctx)
    } else {
        ctx.error = INVALID_OPERATION;
        assert_no_error(ctx)
    }
}

/// Switches a pipeline feature on.
pub fn enable(ctx: &mut Context, feature: Feature) -> (r: Result<(), Error>)
    requires
        old(ctx).wf(),
        old(ctx).error == NO_ERROR,
    ensures
        final(ctx).wf(),
        final(ctx).error == NO_ERROR,
        r == Ok::<(), Error>(()),
        final(ctx).log_only(*old(ctx), GlCall::Enable { feature }),
{
    ctx.calls.push(GlCall::Enable { feature });
    assert_no_error(ctx)
}

/// Switches a pipeline feature off.
pub fn disable(ctx: &mut Context, feature: Feature) -> (r: Result<(), Error>)
    requires
        old(ctx).wf(),
        old(ctx).error == NO_ERROR,
    ensures
        final(ctx).wf(),
        final(ctx).error == NO_ERROR,
        r == Ok::<(), Error>(()),
        final(ctx).log_only(*old(ctx), GlCall::Disable { feature }),
{
    ctx.calls.push(GlCall::Disable { feature });
    assert_no_error(ctx)
}

/// Clears one plane of the bound frame buffer.
pub fn clear(ctx: &mut Context, buffer: BufferBit) -> (r: Result<(), Error>)
    requires
        old(ctx).wf(),
        old(ctx).error == NO_ERROR,
    ensures
        final(ctx).wf(),
        final(ctx).error == NO_ERROR,
        r == Ok::<(), Error>(()),
        final(ctx).log_only(*old(ctx), GlCall::Clear { buffer }),
{
    ctx.calls.push(GlCall::Clear { buffer });
    assert_no_error(ctx)
}

/// Sets the colour the colour plane clears to, each channel given as the raw
/// bit pattern of a 32-bit float.
pub fn clear_colour(
    ctx: &mut Context,
    red_bits: u32,
    green_bits: u32,
    blue_bits: u32,
    alpha_bits: u32,
) -> (r: Result<(), Error>)
    requires
        old(ctx).wf(),
        old(ctx).error == NO_ERROR,
    ensures
        final(ctx).wf(),
        final(ctx).error == NO_ERROR,
        r == Ok::<(), Error>(()),
        final(ctx).log_only(
            *old(ctx),
            GlCall::ClearColour { red_bits, green_bits, blue_bits, alpha_bits },
        ),
{
    ctx.calls.push(GlCall::ClearColour { red_bits, green_bits, blue_bits, alpha_bits });
    assert_no_error(ctx)
}

} // verus!
