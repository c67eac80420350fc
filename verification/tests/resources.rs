//! Resource handle lifecycle: one delete per wrapper, never duplicated.

use safegl::buffer::{Buffer, VertexArray};
use safegl::context::{Context, GlCall};
use safegl::sys;
use safegl::types::BufferTarget;

fn delete_buffer_calls(ctx: &Context, id: u32) -> usize {
    ctx.calls
        .iter()
        .filter(|c| matches!(c, GlCall::DeleteBuffer { id: deleted } if *deleted == id))
        .count()
}

#[test]
fn destroying_a_buffer_issues_exactly_one_delete() {
    let mut ctx = Context::new();
    let buffer = Buffer::new(&mut ctx, BufferTarget::Array);
    let id = buffer.id;
    buffer.destroy(&mut ctx);
    assert_eq!(delete_buffer_calls(&ctx, id), 1);
    assert!(!ctx.buffer_is_live(id));
}

#[test]
fn three_wrappers_three_deletes_none_duplicated() {
    let mut ctx = Context::new();
    let a = Buffer::new(&mut ctx, BufferTarget::Array);
    let b = Buffer::new(&mut ctx, BufferTarget::Array);
    let c = Buffer::new(&mut ctx, BufferTarget::ElementArray);
    let ids = [a.id, b.id, c.id];
    assert!(ids[0] != ids[1] && ids[1] != ids[2] && ids[0] != ids[2]);
    a.destroy(&mut ctx);
    b.destroy(&mut ctx);
    c.destroy(&mut ctx);
    for id in ids {
        assert_eq!(delete_buffer_calls(&ctx, id), 1);
    }
    let total_deletes = ctx
        .calls
        .iter()
        .filter(|c| matches!(c, GlCall::DeleteBuffer { .. }))
        .count();
    assert_eq!(total_deletes, 3);
}

#[test]
fn vertex_array_destroy_issues_one_delete() {
    let mut ctx = Context::new();
    let vertex_array = VertexArray::new(&mut ctx);
    let id = vertex_array.id;
    vertex_array.destroy(&mut ctx);
    let deletes = ctx
        .calls
        .iter()
        .filter(|c| matches!(c, GlCall::DeleteVertexArray { id: deleted } if *deleted == id))
        .count();
    assert_eq!(deletes, 1);
}

#[test]
fn deleting_a_dead_handle_is_a_value_error() {
    let mut ctx = Context::new();
    let id = sys::create_buffer(&mut ctx);
    sys::delete_buffer(&mut ctx, id).unwrap();
    let second = sys::delete_buffer(&mut ctx, id);
    assert_eq!(second, Err(sys::Error::InvalidValue));
}

#[test]
fn binding_a_dead_handle_is_a_state_error() {
    let mut ctx = Context::new();
    let id = sys::create_buffer(&mut ctx);
    sys::delete_buffer(&mut ctx, id).unwrap();
    let bound = sys::bind_buffer(&mut ctx, id, BufferTarget::Array);
    assert_eq!(bound, Err(sys::Error::InvalidOperation));
}

#[test]
fn handle_names_are_never_reused() {
    let mut ctx = Context::new();
    let a = sys::create_buffer(&mut ctx);
    sys::delete_buffer(&mut ctx, a).unwrap();
    let b = sys::create_buffer(&mut ctx);
    assert_ne!(a, b);
}

#[test]
fn error_flag_is_consumed_by_one_query() {
    let mut ctx = Context::new();
    let id = sys::create_buffer(&mut ctx);
    sys::delete_buffer(&mut ctx, id).unwrap();
    // A failing call reports its error once; the flag is clear afterwards.
    assert!(sys::delete_buffer(&mut ctx, id).is_err());
    assert_eq!(sys::get_error(&mut ctx), None);
}

#[test]
fn error_codes_map_to_their_kinds() {
    let mut ctx = Context::new();
    ctx.error = safegl::types::INVALID_ENUM;
    assert_eq!(sys::get_error(&mut ctx), Some(sys::Error::InvalidEnum));
    ctx.error = safegl::types::STACK_OVERFLOW;
    assert_eq!(sys::get_error(&mut ctx), Some(sys::Error::StackOverflow));
    ctx.error = safegl::types::STACK_UNDERFLOW;
    assert_eq!(sys::get_error(&mut ctx), Some(sys::Error::StackUnderflow));
    ctx.error = safegl::types::OUT_OF_MEMORY;
    assert_eq!(sys::get_error(&mut ctx), Some(sys::Error::OutOfMemory));
    ctx.error = safegl::types::INVALID_FRAMEBUFFER_OPERATION;
    assert_eq!(
        sys::get_error(&mut ctx),
        Some(sys::Error::InvalidFrameBufferOperation)
    );
    ctx.error = 0xbeef;
    assert_eq!(sys::get_error(&mut ctx), Some(sys::Error::Unknown(0xbeef)));
    assert_eq!(sys::get_error(&mut ctx), None);
}
