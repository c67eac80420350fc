//! Vertex-layout arithmetic: strides and per-attribute offsets.

use safegl::buffer::{Buffer, VertexArray};
use safegl::context::{Context, GlCall};
use safegl::types::{
    compute_stride, BufferAttribute, BufferTarget, DataType, VertexAttributeSize,
};

fn attr(index: u32, size: VertexAttributeSize, data_type: DataType) -> BufferAttribute {
    BufferAttribute::of_size_and_type(index, size, data_type)
}

#[test]
fn stride_of_empty_layout_is_zero() {
    let layout: Vec<BufferAttribute> = Vec::new();
    assert_eq!(compute_stride(&layout), 0);
}

#[test]
fn stride_of_single_attribute() {
    let layout = vec![attr(0, VertexAttributeSize::Triple, DataType::F32)];
    assert_eq!(compute_stride(&layout), 12);
}

#[test]
fn stride_of_position_and_uv_layout_is_twenty() {
    let layout = vec![
        attr(0, VertexAttributeSize::Triple, DataType::F32),
        attr(1, VertexAttributeSize::Double, DataType::F32),
    ];
    assert_eq!(compute_stride(&layout), 20);
}

#[test]
fn stride_sums_component_width_products() {
    let layout = vec![
        attr(0, VertexAttributeSize::Triple, DataType::I16),
        attr(1, VertexAttributeSize::Double, DataType::U8),
        attr(2, VertexAttributeSize::Quadruple, DataType::U32),
    ];
    assert_eq!(compute_stride(&layout), 3 * 2 + 2 * 1 + 4 * 4);
}

#[test]
fn colour_reordering_size_counts_four_components() {
    let layout = vec![attr(0, VertexAttributeSize::BGRA, DataType::U8)];
    assert_eq!(compute_stride(&layout), 4);
    assert_eq!(VertexAttributeSize::BGRA.as_value(), 0x80e1);
    assert_eq!(VertexAttributeSize::BGRA.component_count(), 4);
}

/// Collects the attribute-description calls recorded after a buffer upload.
fn described_attributes(calls: &[GlCall]) -> Vec<(u32, u32, u32)> {
    let mut described = Vec::new();
    for call in calls {
        if let GlCall::VertexAttributePointer { index, stride, offset, .. } = call {
            described.push((*index, *stride, *offset));
        }
    }
    described
}

#[test]
fn second_attribute_offset_is_twelve() {
    let mut ctx = Context::new();
    let vertex_array = VertexArray::new(&mut ctx);
    vertex_array.bind(&mut ctx).unwrap();
    let mut buffer = Buffer::new(&mut ctx, BufferTarget::Array);
    let layout = vec![
        attr(0, VertexAttributeSize::Triple, DataType::F32),
        attr(1, VertexAttributeSize::Double, DataType::F32),
    ];
    let data = [0u8; 20];
    buffer.bind(&mut ctx, &data, 1, &layout).unwrap();

    let described = described_attributes(&ctx.calls);
    assert_eq!(described, vec![(0, 20, 0), (1, 20, 12)]);
}

#[test]
fn offsets_are_running_sums_over_three_attributes() {
    let mut ctx = Context::new();
    let vertex_array = VertexArray::new(&mut ctx);
    vertex_array.bind(&mut ctx).unwrap();
    let mut buffer = Buffer::new(&mut ctx, BufferTarget::Array);
    let layout = vec![
        attr(0, VertexAttributeSize::Triple, DataType::F32),
        attr(1, VertexAttributeSize::Double, DataType::F32),
        attr(2, VertexAttributeSize::Single, DataType::U32),
    ];
    let data = [0u8; 24];
    buffer.bind(&mut ctx, &data, 1, &layout).unwrap();

    let described = described_attributes(&ctx.calls);
    assert_eq!(described, vec![(0, 24, 0), (1, 24, 12), (2, 24, 20)]);
}

#[test]
fn one_attribute_layout_has_offset_zero() {
    let mut ctx = Context::new();
    let vertex_array = VertexArray::new(&mut ctx);
    vertex_array.bind(&mut ctx).unwrap();
    let mut buffer = Buffer::new(&mut ctx, BufferTarget::Array);
    let layout = vec![attr(0, VertexAttributeSize::Quadruple, DataType::F32)];
    let data = [0u8; 16];
    buffer.bind(&mut ctx, &data, 1, &layout).unwrap();

    let described = described_attributes(&ctx.calls);
    assert_eq!(described, vec![(0, 16, 0)]);
}

#[test]
fn attribute_beyond_driver_slots_is_rejected() {
    let mut ctx = Context::new();
    let vertex_array = VertexArray::new(&mut ctx);
    vertex_array.bind(&mut ctx).unwrap();
    let mut buffer = Buffer::new(&mut ctx, BufferTarget::Array);
    let layout = vec![attr(99, VertexAttributeSize::Triple, DataType::F32)];
    let data = [0u8; 12];
    let result = buffer.bind(&mut ctx, &data, 1, &layout);
    assert!(matches!(
        result,
        Err(safegl::error::Error::Driver(safegl::sys::Error::InvalidValue))
    ));
}
