//! The closed vocabularies of the wrapped graphics API: element types, draw
//! modes, shader stages, bind targets, and the numeric constants the driver
//! speaks, together with the byte-size arithmetic used for vertex layouts.

use vstd::prelude::*;

verus! {

/// Raw error codes of the driver's side-channel error flag.
pub const NO_ERROR: u32 = 0;
pub const INVALID_ENUM: u32 = 0x0500;
pub const INVALID_VALUE: u32 = 0x0501;
pub const INVALID_OPERATION: u32 = 0x0502;
pub const STACK_OVERFLOW: u32 = 0x0503;
pub const STACK_UNDERFLOW: u32 = 0x0504;
pub const OUT_OF_MEMORY: u32 = 0x0505;
pub const INVALID_FRAMEBUFFER_OPERATION: u32 = 0x0506;

/// Highest vertex-attribute slot index the modelled driver supports.
pub const MAX_VERTEX_ATTRIBUTES: u32 = 16;

/// Number of texture units the modelled driver supports.
pub const MAX_TEXTURE_UNITS: u32 = 32;

/// Longest shader source the modelled driver accepts, in characters.
pub const MAX_SOURCE_LEN: u32 = 0x7fffffff;

/// Element type of one vertex-attribute component.
#[derive(Clone, Copy, Debug, PartialEq, Eq, Structural)]
pub enum DataType {
    I8,
    U8,
    I16,
    U16,
    I32,
    U32,
    F32,
}

impl DataType {
    /// Byte width of one element of this type.
    pub open spec fn spec_num_bytes(self) -> u32 {
        match self {
            DataType::I8 | DataType::U8 => 1,
            DataType::I16 | DataType::U16 => 2,
            DataType::I32 | DataType::U32 => 4,
            DataType::F32 => 4,
        }
    }

    pub fn num_bytes(&self) -> (n: u32)
        ensures
            n == self.spec_num_bytes(),
    {
        match self {
            DataType::I8 | DataType::U8 => 1,
            DataType::I16 | DataType::U16 => 2,
            DataType::I32 | DataType::U32 => 4,
            DataType::F32 => 4,
        }
    }

    /// The driver's numeric name for this element type.
    pub open spec fn spec_gl_constant(self) -> u32 {
        match self {
            DataType::I8 => 0x1400,
            DataType::U8 => 0x1401,
            DataType::I16 => 0x1402,
            DataType::U16 => 0x1403,
            DataType::I32 => 0x1404,
            DataType::U32 => 0x1405,
            DataType::F32 => 0x1406,
        }
    }

    pub fn gl_constant(&self) -> (c: u32)
        ensures
            c == self.spec_gl_constant(),
    {
        match self {
            DataType::I8 => 0x1400,
            DataType::U8 => 0x1401,
            DataType::I16 => 0x1402,
            DataType::U16 => 0x1403,
            DataType::I32 => 0x1404,
            DataType::U32 => 0x1405,
            DataType::F32 => 0x1406,
        }
    }
}

/// Primitive kind handed verbatim to every draw call.
#[derive(Clone, Copy, Debug, PartialEq, Eq, Structural)]
pub enum DrawMode {
    Points,
    Triangles,
}

impl DrawMode {
    pub open spec fn spec_gl_constant(self) -> u32 {
        match self {
            DrawMode::Points => 0x0000,
            DrawMode::Triangles => 0x0004,
        }
    }

    pub fn gl_constant(&self) -> (c: u32)
        ensures
            c == self.spec_gl_constant(),
    {
        match self {
            DrawMode::Points => 0x0000,
            DrawMode::Triangles => 0x0004,
        }
    }
}

/// Stage of the programmable pipeline a shader object belongs to.
#[derive(Clone, Copy, Debug, PartialEq, Eq, Structural)]
pub enum ShaderType {
    Vertex,
    Geometry,
    Fragment,
    Compute,
}

impl ShaderType {
    pub open spec fn spec_gl_constant(self) -> u32 {
        match self {
            ShaderType::Vertex => 0x8b31,
            ShaderType::Geometry => 0x8dd9,
            ShaderType::Fragment => 0x8b30,
            ShaderType::Compute => 0x91b9,
        }
    }

    pub fn gl_constant(&self) -> (c: u32)
        ensures
            c == self.spec_gl_constant(),
    {
        match self {
            ShaderType::Vertex => 0x8b31,
            ShaderType::Geometry => 0x8dd9,
            ShaderType::Fragment => 0x8b30,
            ShaderType::Compute => 0x91b9,
        }
    }
}

/// Maps a driver constant back to the shader stage it names.
pub fn shader_type_from_constant(value: u32) -> (r: Option<ShaderType>)
    ensures
        forall|t: ShaderType| t.spec_gl_constant() == value ==> r == Some(t),
        r is None ==> forall|t: ShaderType| t.spec_gl_constant() != value,
{
    if value == 0x8b31 {
        Some(ShaderType::Vertex)
    } else if value == 0x8dd9 {
        Some(ShaderType::Geometry)
    } else if value == 0x8b30 {
        Some(ShaderType::Fragment)
    } else if value == 0x91b9 {
        Some(ShaderType::Compute)
    } else {
        None
    }
}

/// Queryable per-shader state words.
#[derive(Clone, Copy, Debug, PartialEq, Eq, Structural)]
pub enum ShaderParameter {
    ShaderType,
    DeleteStatus,
    CompileStatus,
    InfoLogLength,
    SourceLength,
}

/// Queryable per-program state words.
#[derive(Clone, Copy, Debug, PartialEq, Eq, Structural)]
pub enum ProgramParameter {
    LinkStatus,
    InfoLogLength,
}

/// The two buffer bind points this layer uses.
#[derive(Clone, Copy, Debug, PartialEq, Eq, Structural)]
pub enum BufferTarget {
    Array,
    ElementArray,
}

impl BufferTarget {
    pub open spec fn spec_gl_constant(self) -> u32 {
        match self {
            BufferTarget::Array => 0x8892,
            BufferTarget::ElementArray => 0x8893,
        }
    }

    pub fn gl_constant(&self) -> (c: u32)
        ensures
            c == self.spec_gl_constant(),
    {
        match self {
            BufferTarget::Array => 0x8892,
            BufferTarget::ElementArray => 0x8893,
        }
    }
}

/// Buffer allocation usage hint.
#[derive(Clone, Copy, Debug, PartialEq, Eq, Structural)]
pub enum BufferUsage {
    StaticDraw,
}

impl BufferUsage {
    pub open spec fn spec_gl_constant(self) -> u32 {
        match self {
            BufferUsage::StaticDraw => 0x88e4,
        }
    }

    pub fn gl_constant(&self) -> (c: u32)
        ensures
            c == self.spec_gl_constant(),
    {
        match self {
            BufferUsage::StaticDraw => 0x88e4,
        }
    }
}

/// Component count of one vertex attribute. The colour-reordering size counts
/// as four components for all byte arithmetic; only the element
/// interpretation differs.
#[derive(Clone, Copy, Debug, PartialEq, Eq, Structural)]
pub enum VertexAttributeSize {
    Single,
    Double,
    Triple,
    Quadruple,
    BGRA,
}

impl VertexAttributeSize {
    /// Numeric component count used for stride and offset arithmetic.
    pub open spec fn spec_component_count(self) -> u32 {
        match self {
            VertexAttributeSize::Single => 1,
            VertexAttributeSize::Double => 2,
            VertexAttributeSize::Triple => 3,
            VertexAttributeSize::Quadruple => 4,
            VertexAttributeSize::BGRA => 4,
        }
    }

    pub fn component_count(&self) -> (n: u32)
        ensures
            n == self.spec_component_count(),
    {
        match self {
            VertexAttributeSize::Single => 1,
            VertexAttributeSize::Double => 2,
            VertexAttributeSize::Triple => 3,
            VertexAttributeSize::Quadruple => 4,
            VertexAttributeSize::BGRA => 4,
        }
    }

    /// The value handed to the driver when the attribute is described: the
    /// component count, except for the colour-reordering size, which has a
    /// numeric name of its own.
    pub open spec fn spec_as_value(self) -> u32 {
        match self {
            VertexAttributeSize::Single => 1,
            VertexAttributeSize::Double => 2,
            VertexAttributeSize::Triple => 3,
            VertexAttributeSize::Quadruple => 4,
            VertexAttributeSize::BGRA => 0x80e1,
        }
    }

    pub fn as_value(&self) -> (v: u32)
        ensures
            v == self.spec_as_value(),
    {
        match self {
            VertexAttributeSize::Single => 1,
            VertexAttributeSize::Double => 2,
            VertexAttributeSize::Triple => 3,
            VertexAttributeSize::Quadruple => 4,
            VertexAttributeSize::BGRA => 0x80e1,
        }
    }
}

/// One face of a six-face cube-map texture.
#[derive(Clone, Copy, Debug, PartialEq, Eq, Structural)]
pub enum TextureCubeMapFaceTarget {
    Right,
    Left,
    Top,
    Bottom,
    Back,
    Front,
}

impl TextureCubeMapFaceTarget {
    pub open spec fn spec_gl_constant(self) -> u32 {
        match self {
            TextureCubeMapFaceTarget::Right => 0x8515,
            TextureCubeMapFaceTarget::Left => 0x8516,
            TextureCubeMapFaceTarget::Top => 0x8517,
            TextureCubeMapFaceTarget::Bottom => 0x8518,
            TextureCubeMapFaceTarget::Front => 0x8519,
            TextureCubeMapFaceTarget::Back => 0x851a,
        }
    }

    pub fn gl_constant(&self) -> (c: u32)
        ensures
            c == self.spec_gl_constant(),
    {
        match self {
            TextureCubeMapFaceTarget::Right => 0x8515,
            TextureCubeMapFaceTarget::Left => 0x8516,
            TextureCubeMapFaceTarget::Top => 0x8517,
            TextureCubeMapFaceTarget::Bottom => 0x8518,
            TextureCubeMapFaceTarget::Front => 0x8519,
            TextureCubeMapFaceTarget::Back => 0x851a,
        }
    }
}

/// Texture bind targets, including the per-face upload targets of a cube map.
#[derive(Clone, Copy, Debug, PartialEq, Eq, Structural)]
pub enum TextureTarget {
    Image2D,
    CubeMap,
    CubeMapFace(TextureCubeMapFaceTarget),
}

impl TextureTarget {
    pub open spec fn spec_gl_constant(self) -> u32 {
        match self {
            TextureTarget::Image2D => 0x0de1,
            TextureTarget::CubeMap => 0x8513,
            TextureTarget::CubeMapFace(face) => face.spec_gl_constant(),
        }
    }

    pub fn gl_constant(&self) -> (c: u32)
        ensures
            c == self.spec_gl_constant(),
    {
        match self {
            TextureTarget::Image2D => 0x0de1,
            TextureTarget::CubeMap => 0x8513,
            TextureTarget::CubeMapFace(face) => face.gl_constant(),
        }
    }
}

/// Depth comparison functions.
#[derive(Clone, Copy, Debug, PartialEq, Eq, Structural)]
pub enum DepthFunc {
    Less,
    LessEqual,
}

impl DepthFunc {
    pub open spec fn spec_gl_constant(self) -> u32 {
        match self {
            DepthFunc::Less => 0x0201,
            DepthFunc::LessEqual => 0x0203,
        }
    }

    pub fn gl_constant(&self) -> (c: u32)
        ensures
            c == self.spec_gl_constant(),
    {
        match self {
            DepthFunc::Less => 0x0201,
            DepthFunc::LessEqual => 0x0203,
        }
    }
}

/// Settable per-texture sampling parameters.
#[derive(Clone, Copy, Debug, PartialEq, Eq, Structural)]
pub enum TextureParameterName {
    WrapS,
    WrapT,
    WrapR,
    MinFilter,
    MagFilter,
}

impl TextureParameterName {
    pub open spec fn spec_gl_constant(self) -> u32 {
        match self {
            TextureParameterName::WrapS => 0x2802,
            TextureParameterName::WrapT => 0x2803,
            TextureParameterName::WrapR => 0x8072,
            TextureParameterName::MinFilter => 0x2801,
            TextureParameterName::MagFilter => 0x2800,
        }
    }

    pub fn gl_constant(&self) -> (c: u32)
        ensures
            c == self.spec_gl_constant(),
    {
        match self {
            TextureParameterName::WrapS => 0x2802,
            TextureParameterName::WrapT => 0x2803,
            TextureParameterName::WrapR => 0x8072,
            TextureParameterName::MinFilter => 0x2801,
            TextureParameterName::MagFilter => 0x2800,
        }
    }
}

/// Values accepted by the sampling parameters above.
#[derive(Clone, Copy, Debug, PartialEq, Eq, Structural)]
pub enum TextureParameterValue {
    Linear,
    ClampToEdge,
    Repeat,
    MirroredRepeat,
}

impl TextureParameterValue {
    pub open spec fn spec_gl_constant(self) -> u32 {
        match self {
            TextureParameterValue::Linear => 0x2601,
            TextureParameterValue::ClampToEdge => 0x812f,
            TextureParameterValue::Repeat => 0x2901,
            TextureParameterValue::MirroredRepeat => 0x8370,
        }
    }

    pub fn gl_constant(&self) -> (c: u32)
        ensures
            c == self.spec_gl_constant(),
    {
        match self {
            TextureParameterValue::Linear => 0x2601,
            TextureParameterValue::ClampToEdge => 0x812f,
            TextureParameterValue::Repeat => 0x2901,
            TextureParameterValue::MirroredRepeat => 0x8370,
        }
    }
}

/// Pixel layouts accepted for image uploads.
#[derive(Clone, Copy, Debug, PartialEq, Eq, Structural)]
pub enum TextureFormat {
    RGB,
    RGBA,
}

impl TextureFormat {
    pub open spec fn spec_gl_constant(self) -> u32 {
        match self {
            TextureFormat::RGB => 0x1907,
            TextureFormat::RGBA => 0x1908,
        }
    }

    pub fn gl_constant(&self) -> (c: u32)
        ensures
            c == self.spec_gl_constant(),
    {
        match self {
            TextureFormat::RGB => 0x1907,
            TextureFormat::RGBA => 0x1908,
        }
    }
}

/// Frame-buffer bind targets.
#[derive(Clone, Copy, Debug, PartialEq, Eq, Structural)]
pub enum FrameBufferTarget {
    All,
    Read,
    Draw,
}

impl FrameBufferTarget {
    pub open spec fn spec_gl_constant(self) -> u32 {
        match self {
            FrameBufferTarget::All => 0x8d40,
            FrameBufferTarget::Read => 0x8ca8,
            FrameBufferTarget::Draw => 0x8ca9,
        }
    }

    pub fn gl_constant(&self) -> (c: u32)
        ensures
            c == self.spec_gl_constant(),
    {
        match self {
            FrameBufferTarget::All => 0x8d40,
            FrameBufferTarget::Read => 0x8ca8,
            FrameBufferTarget::Draw => 0x8ca9,
        }
    }
}

/// Attachment slots of a frame buffer.
#[derive(Clone, Copy, Debug, PartialEq, Eq, Structural)]
pub enum FrameBufferAttachment {
    Colour(u32),
    DepthStencil,
}

impl FrameBufferAttachment {
    pub open spec fn spec_gl_constant(self) -> u32 {
        match self {
            FrameBufferAttachment::Colour(index) => (0x8ce0 + index) as u32,
            FrameBufferAttachment::DepthStencil => 0x821a,
        }
    }
}

/// Single-image storage formats of a render buffer.
#[derive(Clone, Copy, Debug, PartialEq, Eq, Structural)]
pub enum RenderBufferStorageFormat {
    Depth24Stencil8,
}

impl RenderBufferStorageFormat {
    pub open spec fn spec_gl_constant(self) -> u32 {
        match self {
            RenderBufferStorageFormat::Depth24Stencil8 => 0x88f0,
        }
    }

    pub fn gl_constant(&self) -> (c: u32)
        ensures
            c == self.spec_gl_constant(),
    {
        match self {
            RenderBufferStorageFormat::Depth24Stencil8 => 0x88f0,
        }
    }
}

/// Toggleable pipeline features.
#[derive(Clone, Copy, Debug, PartialEq, Eq, Structural)]
pub enum Feature {
    DepthTest,
}

impl Feature {
    pub open spec fn spec_gl_constant(self) -> u32 {
        match self {
            Feature::DepthTest => 0x0b71,
        }
    }

    pub fn gl_constant(&self) -> (c: u32)
        ensures
            c == self.spec_gl_constant(),
    {
        match self {
            Feature::DepthTest => 0x0b71,
        }
    }
}

/// Clearable planes of the current frame buffer.
#[derive(Clone, Copy, Debug, PartialEq, Eq, Structural)]
pub enum BufferBit {
    Colour,
    Depth,
}

impl BufferBit {
    pub open spec fn spec_gl_constant(self) -> u32 {
        match self {
            BufferBit::Colour => 0x4000,
            BufferBit::Depth => 0x0100,
        }
    }

    pub fn gl_constant(&self) -> (c: u32)
        ensures
            c == self.spec_gl_constant(),
    {
        match self {
            BufferBit::Colour => 0x4000,
            BufferBit::Depth => 0x0100,
        }
    }
}

/// Declarative description of one interleaved field of a vertex record.
#[derive(Clone, Copy, Debug, PartialEq, Eq, Structural)]
pub struct BufferAttribute {
    /// Attribute slot the field is bound to.
    pub index: u32,
    /// Component count of the field.
    pub size: VertexAttributeSize,
    /// Element type of each component.
    pub data_type: DataType,
    /// 0 advances the attribute per vertex; N advances it once per N
    /// instances.
    pub divisor: u32,
}

impl BufferAttribute {
    /// A per-vertex attribute of 32-bit floating point components.
    pub fn of_size(index: u32, size: VertexAttributeSize) -> (a: BufferAttribute)
        ensures
            a == (BufferAttribute {
                index,
                size,
                data_type: DataType::F32,
                divisor: 0,
            }),
    {
        BufferAttribute { index, size, data_type: DataType::F32, divisor: 0 }
    }

    /// A per-vertex attribute of the given element type.
    pub fn of_size_and_type(index: u32, size: VertexAttributeSize, data_type: DataType) -> (a:
        BufferAttribute)
        ensures
            a == (BufferAttribute { index, size, data_type, divisor: 0 }),
    {
        BufferAttribute { index, size, data_type, divisor: 0 }
    }
}

/// Bytes one attribute occupies inside a vertex record.
pub open spec fn spec_attribute_bytes(a: BufferAttribute) -> int {
    a.size.spec_component_count() * a.data_type.spec_num_bytes()
}

/// Byte stride of one interleaved vertex record: the sum of the byte widths
/// of every attribute of the layout, in declaration order.
pub open spec fn spec_stride(layout: Seq<BufferAttribute>) -> int
    decreases layout.len(),
{
    if layout.len() == 0 {
        0
    } else {
        spec_stride(layout.drop_last()) + spec_attribute_bytes(layout.last())
    }
}

/// Byte offset of attribute `i`: the sum of the byte widths of all attributes
/// declared before it.
pub open spec fn spec_offset(layout: Seq<BufferAttribute>, i: int) -> int {
    spec_stride(layout.take(i))
}

/// The stride of a layout is the offset one past its last attribute: the
/// total of all attribute byte widths.
pub proof fn lemma_stride_is_total_offset(layout: Seq<BufferAttribute>)
    ensures
        spec_stride(layout) == spec_offset(layout, layout.len() as int),
{
    assert(layout.take(layout.len() as int) =~= layout);
}

/// Extending a prefix by one attribute grows its stride by that attribute's
/// byte width.
pub proof fn lemma_stride_take_succ(layout: Seq<BufferAttribute>, i: int)
    requires
        0 <= i < layout.len(),
    ensures
        spec_stride(layout.take(i + 1)) == spec_stride(layout.take(i)) + spec_attribute_bytes(
            layout[i],
        ),
{
    assert(layout.take(i + 1).drop_last() =~= layout.take(i));
    assert(layout.take(i + 1).last() == layout[i]);
}

/// Strides are non-negative and grow along prefixes.
pub proof fn lemma_stride_prefix_le(layout: Seq<BufferAttribute>, i: int)
    requires
        0 <= i <= layout.len(),
    ensures
        0 <= spec_stride(layout.take(i)) <= spec_stride(layout),
    decreases layout.len(),
{
    if layout.len() == 0 {
        assert(layout.take(i) =~= layout);
    } else if i == layout.len() {
        assert(layout.take(i) =~= layout);
        lemma_stride_prefix_le(layout.drop_last(), i - 1);
    } else {
        lemma_stride_prefix_le(layout.drop_last(), i);
        assert(layout.take(i) =~= layout.drop_last().take(i));
    }
}

/// Computes the byte stride of an interleaved vertex layout.
pub fn compute_stride(layout: &[BufferAttribute]) -> (stride: u32)
    requires
        spec_stride(layout@) <= u32::MAX,
    ensures
        stride == spec_stride(layout@),
{
    let mut stride: u32 = 0;
    let mut i: usize = 0;
    while i < layout.len()
        invariant
            0 <= i <= layout@.len(),
            stride == spec_stride(layout@.take(i as int)),
            spec_stride(layout@) <= u32::MAX,
        decreases layout@.len() - i,
    {
        proof {
            lemma_stride_take_succ(layout@, i as int);
            lemma_stride_prefix_le(layout@, i + 1);
        }
        let a = layout[i];
        stride = stride + a.size.component_count() * a.data_type.num_bytes();
        i = i + 1;
    }
    proof {
        assert(layout@.take(layout@.len() as int) =~= layout@);
    }
    stride
}

} // verus!
