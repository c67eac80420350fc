//! The scene-asset resource layer: vertex records described by a trait the
//! calling code implements, indexed and point meshes built from them, and
//! textures tied to named sampler uniforms. Decoding scene and image files is
//! a collaborator's job; this layer consumes plain records and decoded
//! pixels.

use vstd::prelude::*;

use crate::context::{Context, GlCall};
use crate::error::Error;
use crate::shader::ShaderProgram;
use crate::sys;
use crate::texture::{CubeMap, ImageData};
use crate::types::{
    BufferTarget, BufferUsage, DataType, DrawMode, MAX_TEXTURE_UNITS, MAX_VERTEX_ATTRIBUTES,
    NO_ERROR, TextureCubeMapFaceTarget, TextureFormat, TextureParameterName, TextureParameterValue,
    TextureTarget, VertexAttributeSize,
};

verus! {

/// Element type of one vertex-record field.
#[derive(Clone, Copy, Debug, PartialEq, Eq, Structural)]
pub enum AttributeType {
    F32,
    U32,
}

impl AttributeType {
    /// Byte width of one element.
    pub open spec fn spec_num_bytes(self) -> usize {
        4
    }

    pub fn num_bytes(&self) -> (n: usize)
        ensures
            n == self.spec_num_bytes(),
    {
        match self {
            AttributeType::F32 => 4,
            AttributeType::U32 => 4,
        }
    }

    /// The element type of the call layer this field maps to.
    pub open spec fn spec_data_type(self) -> DataType {
        match self {
            AttributeType::F32 => DataType::F32,
            AttributeType::U32 => DataType::U32,
        }
    }

    pub fn data_type(&self) -> (d: DataType)
        ensures
            d == self.spec_data_type(),
    {
        match self {
            AttributeType::F32 => DataType::F32,
            AttributeType::U32 => DataType::U32,
        }
    }
}

/// One interleaved field of a vertex record, in declaration order; fields
/// are bound to attribute slots by position.
#[derive(Clone, Copy, Debug, PartialEq, Eq, Structural)]
pub struct Attribute {
    /// Element type of the field.
    pub attribute_type: AttributeType,
    /// Component count of the field.
    pub count: usize,
}

/// A vertex record type declares its interleaved fields.
pub trait Vertex {
    /// The declared fields, as a mathematical value.
    spec fn spec_attributes() -> Seq<Attribute>;

    /// The declared fields, in declaration order.
    fn attributes() -> (r: Vec<Attribute>)
        ensures
            r@ == Self::spec_attributes(),
    ;
}

/// Byte stride of one record: the sum of all fields' byte widths.
pub open spec fn spec_record_stride(attrs: Seq<Attribute>) -> int
    decreases attrs.len(),
{
    if attrs.len() == 0 {
        0
    } else {
        spec_record_stride(attrs.drop_last()) + attrs.last().count
            * attrs.last().attribute_type.spec_num_bytes()
    }
}

/// Total component count of one record.
pub open spec fn spec_component_total(attrs: Seq<Attribute>) -> int
    decreases attrs.len(),
{
    if attrs.len() == 0 {
        0
    } else {
        spec_component_total(attrs.drop_last()) + attrs.last().count
    }
}

/// Every field has between one and four components.
pub open spec fn spec_counts_in_range(attrs: Seq<Attribute>) -> bool {
    forall|i: int| 0 <= i < attrs.len() ==> 1 <= (#[trigger] attrs[i]).count <= 4
}

/// Extending a prefix by one field grows its stride by that field's bytes.
proof fn lemma_record_stride_take_succ(attrs: Seq<Attribute>, i: int)
    requires
        0 <= i < attrs.len(),
    ensures
        spec_record_stride(attrs.take(i + 1)) == spec_record_stride(attrs.take(i)) + attrs[i].count
            * attrs[i].attribute_type.spec_num_bytes(),
{
    assert(attrs.take(i + 1).drop_last() =~= attrs.take(i));
    assert(attrs.take(i + 1).last() == attrs[i]);
}

/// Record strides are non-negative and grow along prefixes.
proof fn lemma_record_stride_prefix_le(attrs: Seq<Attribute>, i: int)
    requires
        0 <= i <= attrs.len(),
        spec_counts_in_range(attrs),
    ensures
        0 <= spec_record_stride(attrs.take(i)) <= spec_record_stride(attrs),
    decreases attrs.len(),
{
    if attrs.len() == 0 {
        assert(attrs.take(i) =~= attrs);
    } else if i == attrs.len() {
        assert(attrs.take(i) =~= attrs);
        assert(spec_counts_in_range(attrs.drop_last()));
        lemma_record_stride_prefix_le(attrs.drop_last(), i - 1);
    } else {
        assert(spec_counts_in_range(attrs.drop_last()));
        lemma_record_stride_prefix_le(attrs.drop_last(), i);
        assert(attrs.take(i) =~= attrs.drop_last().take(i));
    }
}

/// Maps a component count to the call layer's size vocabulary.
fn attribute_size_of_count(count: usize) -> (r: Option<VertexAttributeSize>)
    ensures
        1 <= count <= 4 ==> (r matches Some(s) && s.spec_component_count() == count
            && !(s is BGRA)),
        !(1 <= count <= 4) ==> r is None,
{
    if count == 1 {
        Some(VertexAttributeSize::Single)
    } else if count == 2 {
        Some(VertexAttributeSize::Double)
    } else if count == 3 {
        Some(VertexAttributeSize::Triple)
    } else if count == 4 {
        Some(VertexAttributeSize::Quadruple)
    } else {
        None
    }
}

/// A texture tied to a sampler uniform of a program.
pub struct Texture {
    /// The owned native handle.
    pub id: u32,
}

/// A mesh of vertex records drawn through an index list, with the textures
/// it samples from.
pub struct IndexedMesh {
    /// The owned vertex array.
    pub vao: u32,
    /// The owned vertex buffer.
    pub vbo: u32,
    /// The owned index buffer.
    pub ebo: u32,
    /// Number of indices uploaded; sizes the indexed draw.
    pub num_indices: usize,
    /// Textures bound, in unit order, before each draw.
    pub textures: Vec<Texture>,
}

/// A mesh of vertex records drawn directly, with the textures it samples
/// from.
pub struct PointsMesh {
    /// The owned vertex array.
    pub vao: u32,
    /// The owned vertex buffer.
    pub vbo: u32,
    /// Draw size: the record count times the components per record.
    pub num_points: usize,
    /// Textures bound, in unit order, before each draw.
    pub textures: Vec<Texture>,
}

/// The commands that bind `textures` to consecutive texture units at
/// `target`, in unit order.
pub open spec fn spec_texture_calls(textures: Seq<Texture>, target: TextureTarget) -> Seq<GlCall>
    decreases textures.len(),
{
    if textures.len() == 0 {
        Seq::<GlCall>::empty()
    } else {
        spec_texture_calls(textures.drop_last(), target) + seq![
            GlCall::ActiveTexture { unit: (textures.len() - 1) as u32 },
            GlCall::BindTexture { target, id: textures.last().id },
        ]
    }
}

/// Extending a prefix by one texture appends its two bind commands.
proof fn lemma_texture_calls_take_succ(textures: Seq<Texture>, target: TextureTarget, i: int)
    requires
        0 <= i < textures.len(),
    ensures
        spec_texture_calls(textures.take(i + 1), target) == spec_texture_calls(
            textures.take(i),
            target,
        ) + seq![
            GlCall::ActiveTexture { unit: i as u32 },
            GlCall::BindTexture { target, id: textures[i].id },
        ],
{
    assert(textures.take(i + 1).drop_last() =~= textures.take(i));
    assert(textures.take(i + 1).last() == textures[i]);
}

/// Binds `textures` to consecutive texture units at `target`, in unit order.
#[verifier::loop_isolation(false)]
fn bind_textures(ctx: &mut Context, textures: &Vec<Texture>, target: TextureTarget) -> (r: Result<
    (),
    Error,
>)
    requires
        old(ctx).wf(),
        old(ctx).error == NO_ERROR,
        textures@.len() <= MAX_TEXTURE_UNITS,
        target == TextureTarget::Image2D || target == TextureTarget::CubeMap,
        forall|k: int| 0 <= k < textures@.len() ==> old(ctx).texture_live((#[trigger] textures@[k]).id),
    ensures
        final(ctx).wf(),
        final(ctx).error == NO_ERROR,
        r == Ok::<(), Error>(()),
        final(ctx).same_objects(*old(ctx)),
        final(ctx).logged_seq(*old(ctx), spec_texture_calls(textures@, target)),
        final(ctx).bound_vertex_array == old(ctx).bound_vertex_array,
        final(ctx).current_program == old(ctx).current_program,
{
    let mut k: usize = 0;
    while k < textures.len()
        invariant
            0 <= k <= textures@.len(),
            ctx.wf(),
            ctx.error == NO_ERROR,
            ctx.same_objects(*old(ctx)),
            ctx.logged_seq(*old(ctx), spec_texture_calls(textures@.take(k as int), target)),
            ctx.bound_vertex_array == old(ctx).bound_vertex_array,
            ctx.current_program == old(ctx).current_program,
        decreases textures@.len() - k,
    {
        proof {
            lemma_texture_calls_take_succ(textures@, target, k as int);
        }
        match sys::active_texture(ctx, k as u32) {
            Ok(()) => (),
            Err(e) => {
                proof {
                    assert(false);
                }
                return Err(Error::Driver(e));
            },
        }
        match sys::bind_texture(ctx, textures[k].id, target) {
            Ok(()) => (),
            Err(e) => {
                proof {
                    assert(false);
                }
                return Err(Error::Driver(e));
            },
        }
        proof {
            assert(ctx.calls@ =~= old(ctx).calls@ + spec_texture_calls(
                textures@.take(k as int + 1),
                target,
            ));
        }
        k = k + 1;
    }
    proof {
        assert(textures@.take(textures@.len() as int) =~= textures@);
    }
    Ok(())
}

/// Enables attribute slots 0 onwards, one per declared field in declaration
/// order, describing each with the record stride and its running offset.
#[verifier::loop_isolation(false)]
fn apply_record_layout(ctx: &mut Context, attrs: &Vec<Attribute>) -> (r: Result<(), Error>)
    requires
        old(ctx).wf(),
        old(ctx).error == NO_ERROR,
        old(ctx).bound_vertex_array != 0,
        old(ctx).bound_array_buffer != 0,
        attrs@.len() <= MAX_VERTEX_ATTRIBUTES,
        spec_counts_in_range(attrs@),
        spec_record_stride(attrs@) <= u32::MAX,
    ensures
        final(ctx).wf(),
        final(ctx).error == NO_ERROR,
        r == Ok::<(), Error>(()),
        final(ctx).same_objects(*old(ctx)),
        final(ctx).same_binds(*old(ctx)),
        old(ctx).calls@.is_prefix_of(final(ctx).calls@),
{
    let stride_total = compute_record_stride(attrs);
    let mut offset: u32 = 0;
    let mut i: usize = 0;
    while i < attrs.len()
        invariant
            0 <= i <= attrs@.len(),
            offset == spec_record_stride(attrs@.take(i as int)),
            ctx.wf(),
            ctx.error == NO_ERROR,
            ctx.same_objects(*old(ctx)),
            ctx.same_binds(*old(ctx)),
            old(ctx).calls@.is_prefix_of(ctx.calls@),
        decreases attrs@.len() - i,
    {
        proof {
            lemma_record_stride_prefix_le(attrs@, i as int);
            lemma_record_stride_prefix_le(attrs@, i + 1);
            lemma_record_stride_take_succ(attrs@, i as int);
        }
        let attribute = attrs[i];
        let size = match attribute_size_of_count(attribute.count) {
            Some(size) => size,
            None => {
                proof {
                    assert(false);
                }
                return Err(Error::Driver(sys::Error::InvalidValue));
            },
        };
        match sys::enable_vertex_attribute_array(ctx, i as u32) {
            Ok(()) => (),
            Err(e) => {
                proof {
                    assert(false);
                }
                return Err(Error::Driver(e));
            },
        }
        match sys::vertex_attribute_pointer(
            ctx,
            i as u32,
            size,
            attribute.attribute_type.data_type(),
            false,
            stride_total,
            offset,
        ) {
            Ok(()) => (),
            Err(e) => {
                proof {
                    assert(false);
                }
                return Err(Error::Driver(e));
            },
        }
        proof {
            assert(old(ctx).calls@.is_prefix_of(ctx.calls@)) by {
                assert(ctx.calls@.subrange(0, old(ctx).calls@.len() as int) =~= old(ctx).calls@);
            }
        }
        offset = offset + (attribute.count as u32) * attribute.attribute_type.num_bytes() as u32;
        i = i + 1;
    }
    Ok(())
}

/// Computes the byte stride of one record.
#[verifier::loop_isolation(false)]
fn compute_record_stride(attrs: &Vec<Attribute>) -> (stride: u32)
    requires
        spec_counts_in_range(attrs@),
        spec_record_stride(attrs@) <= u32::MAX,
    ensures
        stride == spec_record_stride(attrs@),
{
    let mut stride: u32 = 0;
    let mut i: usize = 0;
    while i < attrs.len()
        invariant
            0 <= i <= attrs@.len(),
            stride == spec_record_stride(attrs@.take(i as int)),
        decreases attrs@.len() - i,
    {
        proof {
            lemma_record_stride_prefix_le(attrs@, i as int);
            lemma_record_stride_prefix_le(attrs@, i + 1);
            lemma_record_stride_take_succ(attrs@, i as int);
        }
        let a = attrs[i];
        stride = stride + (a.count as u32) * a.attribute_type.num_bytes() as u32;
        i = i + 1;
    }
    proof {
        assert(attrs@.take(attrs@.len() as int) =~= attrs@);
    }
    stride
}

impl IndexedMesh {
    /// All owned handles are live, distinct, and the vertex array has
    /// captured the index buffer.
    pub open spec fn valid(self, ctx: Context) -> bool {
        &&& ctx.vertex_array_live(self.vao)
        &&& ctx.buffer_live(self.vbo)
        &&& ctx.buffer_live(self.ebo)
        &&& self.vbo != self.ebo
        &&& ctx.vertex_array_at(self.vao).element_buffer == self.ebo
    }

    /// Builds an indexed mesh from `vertices`, whose fields `V` declares,
    /// and an index list; the vertex array captures both buffers and the
    /// record layout, and is unbound again afterwards. Remembers the index
    /// count to size later draws. Cannot fail within the driver's attribute
    /// and size limits, which the caller must respect.
    #[verifier::loop_isolation(false)]
    pub fn new<V: Vertex>(
        ctx: &mut Context,
        indices: &[u32],
        vertices: &[V],
        textures: Vec<Texture>,
    ) -> (r: Result<IndexedMesh, Error>)
        requires
            old(ctx).wf(),
            old(ctx).error == NO_ERROR,
            V::spec_attributes().len() <= MAX_VERTEX_ATTRIBUTES,
            spec_counts_in_range(V::spec_attributes()),
            spec_record_stride(V::spec_attributes()) <= u32::MAX,
            vertices@.len() * spec_record_stride(V::spec_attributes()) <= usize::MAX,
            indices@.len() * 4 <= usize::MAX,
            old(ctx).buffers@.len() + 2 <= u32::MAX,
            old(ctx).vertex_arrays@.len() < u32::MAX,
        ensures
            final(ctx).wf(),
            final(ctx).error == NO_ERROR,
            final(ctx).textures == old(ctx).textures,
            final(ctx).shaders == old(ctx).shaders,
            final(ctx).programs == old(ctx).programs,
            final(ctx).current_program == old(ctx).current_program,
            r matches Ok(m) ==> {
                &&& m.valid(*final(ctx))
                &&& m.num_indices == indices@.len()
                &&& m.textures == textures
                &&& final(ctx).bound_vertex_array == 0
            },
            r is Ok,
    {
        let vao = sys::create_vertex_array(ctx);
        let vbo = sys::create_buffer(ctx);
        let ebo = sys::create_buffer(ctx);
        let num_indices = indices.len();

        match sys::bind_vertex_array(ctx, vao) {
            Ok(()) => (),
            Err(e) => {
                proof {
                    assert(false);
                }
                return Err(Error::Driver(e));
            },
        }
        match sys::bind_buffer(ctx, vbo, BufferTarget::Array) {
            Ok(()) => (),
            Err(e) => {
                proof {
                    assert(false);
                }
                return Err(Error::Driver(e));
            },
        }
        match sys::bind_buffer(ctx, ebo, BufferTarget::ElementArray) {
            Ok(()) => (),
            Err(e) => {
                proof {
                    assert(false);
                }
                return Err(Error::Driver(e));
            },
        }

        let attrs = V::attributes();
        let stride = compute_record_stride(&attrs);
        match sys::set_buffer_data_sized(
            ctx,
            BufferTarget::Array,
            BufferUsage::StaticDraw,
            vertices.len() * stride as usize,
        ) {
            Ok(()) => (),
            Err(e) => {
                proof {
                    assert(false);
                }
                return Err(Error::Driver(e));
            },
        }
        match sys::set_buffer_data_u32(ctx, BufferTarget::ElementArray, BufferUsage::StaticDraw, indices) {
            Ok(()) => (),
            Err(e) => {
                proof {
                    assert(false);
                }
                return Err(Error::Driver(e));
            },
        }
        match apply_record_layout(ctx, &attrs) {
            Ok(()) => (),
            Err(e) => {
                proof {
                    assert(false);
                }
                return Err(e);
            },
        }
        match sys::bind_vertex_array(ctx, 0) {
            Ok(()) => (),
            Err(e) => {
                proof {
                    assert(false);
                }
                return Err(Error::Driver(e));
            },
        }

        Ok(IndexedMesh { vao, vbo, ebo, num_indices, textures })
    }

    /// Draws the mesh: binds its vertex array, binds its textures to
    /// consecutive units, and issues one indexed triangle draw sized by the
    /// remembered index count, never by the vertex count. Fails exactly when
    /// no program is in use.
    pub fn draw(&self, ctx: &mut Context) -> (r: Result<(), Error>)
        requires
            old(ctx).wf(),
            old(ctx).error == NO_ERROR,
            self.valid(*old(ctx)),
            self.textures@.len() <= MAX_TEXTURE_UNITS,
            forall|k: int|
                0 <= k < self.textures@.len() ==> old(ctx).texture_live(
                    (#[trigger] self.textures@[k]).id,
                ),
        ensures
            final(ctx).wf(),
            final(ctx).error == NO_ERROR,
            final(ctx).same_objects(*old(ctx)),
            old(ctx).current_program != 0 ==> {
                &&& r == Ok::<(), Error>(())
                &&& final(ctx).logged_seq(
                    *old(ctx),
                    seq![GlCall::BindVertexArray { id: self.vao }] + spec_texture_calls(
                        self.textures@,
                        TextureTarget::Image2D,
                    ) + seq![
                        GlCall::DrawElements {
                            mode: DrawMode::Triangles,
                            count: self.num_indices as u64,
                            index_type: DataType::U32,
                        },
                    ],
                )
            },
            old(ctx).current_program == 0 ==> r == Err::<(), Error>(
                Error::Driver(sys::Error::InvalidOperation),
            ),
    {
        match sys::bind_vertex_array(ctx, self.vao) {
            Ok(()) => (),
            Err(e) => {
                proof {
                    assert(false);
                }
                return Err(Error::Driver(e));
            },
        }
        match bind_textures(ctx, &self.textures, TextureTarget::Image2D) {
            Ok(()) => (),
            Err(e) => {
                proof {
                    assert(false);
                }
                return Err(e);
            },
        }
        match sys::draw_elements(ctx, DrawMode::Triangles, self.num_indices as u64, DataType::U32) {
            Ok(()) => (),
            Err(e) => {
                return Err(Error::Driver(e));
            },
        }
        proof {
            assert(ctx.calls@ =~= old(ctx).calls@ + (seq![GlCall::BindVertexArray { id: self.vao }]
                + spec_texture_calls(self.textures@, TextureTarget::Image2D) + seq![
                GlCall::DrawElements {
                    mode: DrawMode::Triangles,
                    count: self.num_indices as u64,
                    index_type: DataType::U32,
                },
            ]));
        }
        Ok(())
    }

    /// Releases the owned handles: exactly one delete call for each of the
    /// index buffer, the vertex buffer, and the vertex array, in that order.
    /// Textures are owned separately and stay alive.
    pub fn destroy(self, ctx: &mut Context) -> (textures: Vec<Texture>)
        requires
            old(ctx).wf(),
            old(ctx).error == NO_ERROR,
            self.valid(*old(ctx)),
        ensures
            final(ctx).wf(),
            final(ctx).error == NO_ERROR,
            !final(ctx).buffer_live(self.ebo),
            !final(ctx).buffer_live(self.vbo),
            !final(ctx).vertex_array_live(self.vao),
            final(ctx).textures == old(ctx).textures,
            final(ctx).logged_seq(
                *old(ctx),
                seq![
                    GlCall::DeleteBuffer { id: self.ebo },
                    GlCall::DeleteBuffer { id: self.vbo },
                    GlCall::DeleteVertexArray { id: self.vao },
                ],
            ),
            textures == self.textures,
    {
        let IndexedMesh { vao, vbo, ebo, num_indices: _, textures } = self;
        let r1 = sys::delete_buffer(ctx, ebo);
        let r2 = sys::delete_buffer(ctx, vbo);
        let r3 = sys::delete_vertex_array(ctx, vao);
        proof {
            assert(r1 is Ok && r2 is Ok && r3 is Ok);
            assert(ctx.calls@ =~= old(ctx).calls@ + seq![
                GlCall::DeleteBuffer { id: ebo },
                GlCall::DeleteBuffer { id: vbo },
                GlCall::DeleteVertexArray { id: vao },
            ]);
        }
        textures
    }
}

impl PointsMesh {
    /// Both owned handles are live and distinct from one another.
    pub open spec fn valid(self, ctx: Context) -> bool {
        &&& ctx.vertex_array_live(self.vao)
        &&& ctx.buffer_live(self.vbo)
    }

    /// Builds a non-indexed mesh from `vertices`, whose fields `V`
    /// declares. The remembered draw size is the record count times the
    /// components per record. Cannot fail within the driver's attribute and
    /// size limits, which the caller must respect.
    #[verifier::loop_isolation(false)]
    pub fn new<V: Vertex>(ctx: &mut Context, vertices: &[V], textures: Vec<Texture>) -> (r: Result<
        PointsMesh,
        Error,
    >)
        requires
            old(ctx).wf(),
            old(ctx).error == NO_ERROR,
            V::spec_attributes().len() <= MAX_VERTEX_ATTRIBUTES,
            spec_counts_in_range(V::spec_attributes()),
            spec_record_stride(V::spec_attributes()) <= u32::MAX,
            vertices@.len() * spec_record_stride(V::spec_attributes()) <= usize::MAX,
            vertices@.len() * spec_component_total(V::spec_attributes()) <= usize::MAX,
            old(ctx).buffers@.len() < u32::MAX,
            old(ctx).vertex_arrays@.len() < u32::MAX,
        ensures
            final(ctx).wf(),
            final(ctx).error == NO_ERROR,
            final(ctx).textures == old(ctx).textures,
            final(ctx).shaders == old(ctx).shaders,
            final(ctx).programs == old(ctx).programs,
            final(ctx).current_program == old(ctx).current_program,
            r matches Ok(m) ==> {
                &&& m.valid(*final(ctx))
                &&& m.num_points == vertices@.len() * spec_component_total(V::spec_attributes())
                &&& m.textures == textures
                &&& final(ctx).bound_vertex_array == 0
            },
            r is Ok,
    {
        let attrs = V::attributes();
        let stride = compute_record_stride(&attrs);

        let vao = sys::create_vertex_array(ctx);
        let vbo = sys::create_buffer(ctx);

        match sys::bind_vertex_array(ctx, vao) {
            Ok(()) => (),
            Err(e) => {
                proof {
                    assert(false);
                }
                return Err(Error::Driver(e));
            },
        }
        match sys::bind_buffer(ctx, vbo, BufferTarget::Array) {
            Ok(()) => (),
            Err(e) => {
                proof {
                    assert(false);
                }
                return Err(Error::Driver(e));
            },
        }
        match sys::set_buffer_data_sized(
            ctx,
            BufferTarget::Array,
            BufferUsage::StaticDraw,
            vertices.len() * stride as usize,
        ) {
            Ok(()) => (),
            Err(e) => {
                proof {
                    assert(false);
                }
                return Err(Error::Driver(e));
            },
        }
        match apply_record_layout(ctx, &attrs) {
            Ok(()) => (),
            Err(e) => {
                proof {
                    assert(false);
                }
                return Err(e);
            },
        }
        match sys::bind_vertex_array(ctx, 0) {
            Ok(()) => (),
            Err(e) => {
                proof {
                    assert(false);
                }
                return Err(Error::Driver(e));
            },
        }

        proof {
            lemma_component_total_le(V::spec_attributes());
        }
        let num_points = vertices.len() * compute_component_total(&attrs);
        Ok(PointsMesh { vao, vbo, num_points, textures })
    }

    /// Draws the mesh: binds its textures to consecutive cube-map units,
    /// binds its vertex array, and issues one triangle draw of the
    /// remembered size. Fails exactly when no program is in use.
    pub fn draw(&self, ctx: &mut Context) -> (r: Result<(), Error>)
        requires
            old(ctx).wf(),
            old(ctx).error == NO_ERROR,
            self.valid(*old(ctx)),
            self.textures@.len() <= MAX_TEXTURE_UNITS,
            forall|k: int|
                0 <= k < self.textures@.len() ==> old(ctx).texture_live(
                    (#[trigger] self.textures@[k]).id,
                ),
        ensures
            final(ctx).wf(),
            final(ctx).error == NO_ERROR,
            final(ctx).same_objects(*old(ctx)),
            old(ctx).current_program != 0 ==> {
                &&& r == Ok::<(), Error>(())
                &&& final(ctx).logged_seq(
                    *old(ctx),
                    spec_texture_calls(self.textures@, TextureTarget::CubeMap) + seq![
                        GlCall::BindVertexArray { id: self.vao },
                        GlCall::DrawArrays {
                            mode: DrawMode::Triangles,
                            starting_index: 0,
                            count: self.num_points as u64,
                        },
                    ],
                )
            },
            old(ctx).current_program == 0 ==> r == Err::<(), Error>(
                Error::Driver(sys::Error::InvalidOperation),
            ),
    {
        match bind_textures(ctx, &self.textures, TextureTarget::CubeMap) {
            Ok(()) => (),
            Err(e) => {
                proof {
                    assert(false);
                }
                return Err(e);
            },
        }
        match sys::bind_vertex_array(ctx, self.vao) {
            Ok(()) => (),
            Err(e) => {
                proof {
                    assert(false);
                }
                return Err(Error::Driver(e));
            },
        }
        match sys::draw_arrays(ctx, DrawMode::Triangles, 0, self.num_points as u64) {
            Ok(()) => (),
            Err(e) => {
                return Err(Error::Driver(e));
            },
        }
        proof {
            assert(ctx.calls@ =~= old(ctx).calls@ + (spec_texture_calls(
                self.textures@,
                TextureTarget::CubeMap,
            ) + seq![
                GlCall::BindVertexArray { id: self.vao },
                GlCall::DrawArrays {
                    mode: DrawMode::Triangles,
                    starting_index: 0,
                    count: self.num_points as u64,
                },
            ]));
        }
        Ok(())
    }

    /// Releases the owned handles: exactly one delete call for each of the
    /// vertex buffer and the vertex array, in that order. Textures are owned
    /// separately and stay alive.
    pub fn destroy(self, ctx: &mut Context) -> (textures: Vec<Texture>)
        requires
            old(ctx).wf(),
            old(ctx).error == NO_ERROR,
            self.valid(*old(ctx)),
        ensures
            final(ctx).wf(),
            final(ctx).error == NO_ERROR,
            !final(ctx).buffer_live(self.vbo),
            !final(ctx).vertex_array_live(self.vao),
            final(ctx).textures == old(ctx).textures,
            final(ctx).logged_seq(
                *old(ctx),
                seq![
                    GlCall::DeleteBuffer { id: self.vbo },
                    GlCall::DeleteVertexArray { id: self.vao },
                ],
            ),
            textures == self.textures,
    {
        let PointsMesh { vao, vbo, num_points: _, textures } = self;
        let r1 = sys::delete_buffer(ctx, vbo);
        let r2 = sys::delete_vertex_array(ctx, vao);
        proof {
            assert(r1 is Ok && r2 is Ok);
            assert(ctx.calls@ =~= old(ctx).calls@ + seq![
                GlCall::DeleteBuffer { id: vbo },
                GlCall::DeleteVertexArray { id: vao },
            ]);
        }
        textures
    }
}

/// Total component count of one record, as executable arithmetic.
#[verifier::loop_isolation(false)]
fn compute_component_total(attrs: &Vec<Attribute>) -> (total: usize)
    requires
        spec_counts_in_range(attrs@),
        spec_component_total(attrs@) <= usize::MAX,
    ensures
        total == spec_component_total(attrs@),
{
    let mut total: usize = 0;
    let mut i: usize = 0;
    while i < attrs.len()
        invariant
            0 <= i <= attrs@.len(),
            total == spec_component_total(attrs@.take(i as int)),
        decreases attrs@.len() - i,
    {
        proof {
            lemma_component_total_prefix_le(attrs@, i as int);
            lemma_component_total_prefix_le(attrs@, i + 1);
            assert(attrs@.take(i + 1).drop_last() =~= attrs@.take(i as int));
            assert(attrs@.take(i + 1).last() == attrs@[i as int]);
        }
        total = total + attrs[i].count;
        i = i + 1;
    }
    proof {
        assert(attrs@.take(attrs@.len() as int) =~= attrs@);
    }
    total
}

/// A record of in-range fields has at most four components per field.
proof fn lemma_component_total_le(attrs: Seq<Attribute>)
    requires
        spec_counts_in_range(attrs),
    ensures
        0 <= spec_component_total(attrs) <= 4 * attrs.len(),
    decreases attrs.len(),
{
    if attrs.len() > 0 {
        assert(spec_counts_in_range(attrs.drop_last()));
        lemma_component_total_le(attrs.drop_last());
    }
}

/// Component totals are non-negative and grow along prefixes.
proof fn lemma_component_total_prefix_le(attrs: Seq<Attribute>, i: int)
    requires
        0 <= i <= attrs.len(),
        spec_counts_in_range(attrs),
    ensures
        0 <= spec_component_total(attrs.take(i)) <= spec_component_total(attrs),
    decreases attrs.len(),
{
    if attrs.len() == 0 {
        assert(attrs.take(i) =~= attrs);
    } else if i == attrs.len() {
        assert(attrs.take(i) =~= attrs);
        assert(spec_counts_in_range(attrs.drop_last()));
        lemma_component_total_prefix_le(attrs.drop_last(), i - 1);
    } else {
        assert(spec_counts_in_range(attrs.drop_last()));
        lemma_component_total_prefix_le(attrs.drop_last(), i);
        assert(attrs.take(i) =~= attrs.drop_last().take(i));
    }
}

impl Texture {
    /// The owned handle is live in `ctx`.
    pub open spec fn valid(self, ctx: Context) -> bool {
        ctx.texture_live(self.id)
    }

    /// Creates a texture from one decoded image and ties it to a named
    /// sampler uniform at texture unit `index`: the pixels are uploaded
    /// under repeat wrapping and linear filtering, the sampler is resolved
    /// in the program, the program is enabled, and the sampler is pointed at
    /// the unit. Succeeds exactly when the sampler name resolves.
    pub fn from_memory_2d(
        ctx: &mut Context,
        shader_program: &ShaderProgram,
        texture_shader_name: &str,
        index: u32,
        image: &ImageData,
    ) -> (r: Result<Texture, Error>)
        requires
            old(ctx).wf(),
            old(ctx).error == NO_ERROR,
            shader_program.valid(*old(ctx)),
            index <= i32::MAX,
            old(ctx).textures@.len() < u32::MAX,
        ensures
            final(ctx).wf(),
            final(ctx).error == NO_ERROR,
            final(ctx).textures@ == old(ctx).textures@.push(true),
            final(ctx).shaders == old(ctx).shaders,
            final(ctx).programs == old(ctx).programs,
            (r is Ok) == sys::spec_uniform_active(
                old(ctx).program_at(shader_program.id),
                texture_shader_name@,
            ),
            r matches Ok(t) ==> t.id == old(ctx).textures@.len() + 1 && t.valid(*final(ctx))
                && final(ctx).current_program == shader_program.id,
            r is Err ==> (r matches Err(Error::MissingUniform(n)) && n@ == texture_shader_name@),
    {
        let id = sys::create_texture(ctx);
        match sys::bind_texture(ctx, id, TextureTarget::Image2D) {
            Ok(()) => (),
            Err(e) => {
                proof {
                    assert(false);
                }
                return Err(Error::Driver(e));
            },
        }
        let p1 = sys::set_texture_parameter_value(
            ctx,
            TextureTarget::Image2D,
            TextureParameterName::WrapS,
            TextureParameterValue::Repeat,
        );
        let p2 = sys::set_texture_parameter_value(
            ctx,
            TextureTarget::Image2D,
            TextureParameterName::WrapT,
            TextureParameterValue::Repeat,
        );
        let p3 = sys::set_texture_parameter_value(
            ctx,
            TextureTarget::Image2D,
            TextureParameterName::MinFilter,
            TextureParameterValue::Linear,
        );
        let p4 = sys::set_texture_parameter_value(
            ctx,
            TextureTarget::Image2D,
            TextureParameterName::MagFilter,
            TextureParameterValue::Linear,
        );
        let up = sys::load_texture_image2d(
            ctx,
            TextureTarget::Image2D,
            0,
            TextureFormat::RGBA,
            image.width as u64,
            image.height as u64,
            image.format,
            DataType::U8,
            Some(image.pixels.as_slice()),
        );
        let mm = sys::generate_mipmaps(ctx, TextureTarget::Image2D);
        proof {
            assert(p1 is Ok && p2 is Ok && p3 is Ok && p4 is Ok && up is Ok && mm is Ok);
        }

        let texture_location = match shader_program.locate_uniform(ctx, texture_shader_name) {
            Ok(location) => location,
            Err(e) => {
                return Err(e);
            },
        };
        match shader_program.enable(ctx) {
            Ok(()) => (),
            Err(e) => {
                proof {
                    assert(false);
                }
                return Err(e);
            },
        }
        match sys::set_uniform_i32(ctx, texture_location, index as i32) {
            Ok(()) => (),
            Err(e) => {
                proof {
                    assert(false);
                }
                return Err(Error::Driver(e));
            },
        }
        Ok(Texture { id })
    }

    /// Creates a cube-map texture from six decoded face images and ties it
    /// to a named sampler uniform at texture unit `index`: the faces are
    /// uploaded in the fixed face order under clamped wrapping and linear
    /// filtering. Succeeds exactly when the sampler name resolves.
    pub fn from_memory_cubemap(
        ctx: &mut Context,
        shader_program: &ShaderProgram,
        texture_shader_name: &str,
        index: u32,
        texture_faces: &CubeMap<ImageData>,
    ) -> (r: Result<Texture, Error>)
        requires
            old(ctx).wf(),
            old(ctx).error == NO_ERROR,
            shader_program.valid(*old(ctx)),
            index <= i32::MAX,
            old(ctx).textures@.len() < u32::MAX,
        ensures
            final(ctx).wf(),
            final(ctx).error == NO_ERROR,
            final(ctx).textures@ == old(ctx).textures@.push(true),
            final(ctx).shaders == old(ctx).shaders,
            final(ctx).programs == old(ctx).programs,
            (r is Ok) == sys::spec_uniform_active(
                old(ctx).program_at(shader_program.id),
                texture_shader_name@,
            ),
            r matches Ok(t) ==> t.id == old(ctx).textures@.len() + 1 && t.valid(*final(ctx))
                && final(ctx).current_program == shader_program.id,
            r is Err ==> (r matches Err(Error::MissingUniform(n)) && n@ == texture_shader_name@),
    {
        let id = sys::create_texture(ctx);
        match sys::bind_texture(ctx, id, TextureTarget::CubeMap) {
            Ok(()) => (),
            Err(e) => {
                proof {
                    assert(false);
                }
                return Err(Error::Driver(e));
            },
        }
        let p1 = sys::set_texture_parameter_value(
            ctx,
            TextureTarget::CubeMap,
            TextureParameterName::WrapS,
            TextureParameterValue::ClampToEdge,
        );
        let p2 = sys::set_texture_parameter_value(
            ctx,
            TextureTarget::CubeMap,
            TextureParameterName::WrapT,
            TextureParameterValue::ClampToEdge,
        );
        let p3 = sys::set_texture_parameter_value(
            ctx,
            TextureTarget::CubeMap,
            TextureParameterName::WrapR,
            TextureParameterValue::ClampToEdge,
        );
        let p4 = sys::set_texture_parameter_value(
            ctx,
            TextureTarget::CubeMap,
            TextureParameterName::MinFilter,
            TextureParameterValue::Linear,
        );
        let p5 = sys::set_texture_parameter_value(
            ctx,
            TextureTarget::CubeMap,
            TextureParameterName::MagFilter,
            TextureParameterValue::Linear,
        );
        proof {
            assert(p1 is Ok && p2 is Ok && p3 is Ok && p4 is Ok && p5 is Ok);
        }

        let u1 = Self::upload_cube_face(
            ctx,
            TextureCubeMapFaceTarget::Right,
            &texture_faces.right,
        );
        let u2 = Self::upload_cube_face(ctx, TextureCubeMapFaceTarget::Left, &texture_faces.left);
        let u3 = Self::upload_cube_face(ctx, TextureCubeMapFaceTarget::Top, &texture_faces.top);
        let u4 = Self::upload_cube_face(
            ctx,
            TextureCubeMapFaceTarget::Bottom,
            &texture_faces.bottom,
        );
        let u5 = Self::upload_cube_face(
            ctx,
            TextureCubeMapFaceTarget::Front,
            &texture_faces.front,
        );
        let u6 = Self::upload_cube_face(ctx, TextureCubeMapFaceTarget::Back, &texture_faces.back);
        proof {
            assert(u1 is Ok && u2 is Ok && u3 is Ok && u4 is Ok && u5 is Ok && u6 is Ok);
        }

        let texture_location = match shader_program.locate_uniform(ctx, texture_shader_name) {
            Ok(location) => location,
            Err(e) => {
                return Err(e);
            },
        };
        match shader_program.enable(ctx) {
            Ok(()) => (),
            Err(e) => {
                proof {
                    assert(false);
                }
                return Err(e);
            },
        }
        match sys::set_uniform_i32(ctx, texture_location, index as i32) {
            Ok(()) => (),
            Err(e) => {
                proof {
                    assert(false);
                }
                return Err(Error::Driver(e));
            },
        }
        Ok(Texture { id })
    }

    /// Uploads one face of the bound cube map.
    fn upload_cube_face(
        ctx: &mut Context,
        face: TextureCubeMapFaceTarget,
        image: &ImageData,
    ) -> (r: Result<(), Error>)
        requires
            old(ctx).wf(),
            old(ctx).error == NO_ERROR,
        ensures
            final(ctx).wf(),
            final(ctx).error == NO_ERROR,
            r == Ok::<(), Error>(()),
            final(ctx).same_objects(*old(ctx)),
            final(ctx).same_binds(*old(ctx)),
    {
        match sys::load_texture_image2d(
            ctx,
            TextureTarget::CubeMapFace(face),
            0,
            TextureFormat::RGB,
            image.width as u64,
            image.height as u64,
            image.format,
            DataType::U8,
            Some(image.pixels.as_slice()),
        ) {
            Ok(()) => Ok(()),
            Err(e) => {
                proof {
                    assert(false);
                }
                Err(Error::Driver(e))
            },
        }
    }

    /// Releases the owned handle: exactly one delete call is issued.
    pub fn destroy(self, ctx: &mut Context)
        requires
            old(ctx).wf(),
            old(ctx).error == NO_ERROR,
            self.valid(*old(ctx)),
        ensures
            final(ctx).wf(),
            final(ctx).error == NO_ERROR,
            !final(ctx).texture_live(self.id),
            final(ctx).textures@ == old(ctx).textures@.update(self.id - 1, false),
            final(ctx).logged(*old(ctx), GlCall::DeleteTexture { id: self.id }),
    {
        let r = sys::delete_texture(ctx, self.id);
        proof {
            assert(r is Ok);
        }
    }
}

} // verus!
