//! The explicit model of the driver's global state machine: object tables,
//! bind points, the side-channel error flag, and the stream of commands the
//! driver has accepted. Every operation of the layer takes a [`Context`];
//! contracts are stated over its fields and over the recorded command stream.

use vstd::prelude::*;

use crate::types::{
    BufferBit, BufferTarget, BufferUsage, DataType, DepthFunc, DrawMode, Feature,
    FrameBufferAttachment, FrameBufferTarget, RenderBufferStorageFormat, ShaderType,
    TextureFormat, TextureParameterName, TextureParameterValue, TextureTarget,
    VertexAttributeSize, MAX_SOURCE_LEN, NO_ERROR,
};

verus! {

/// One command accepted by the modelled driver, in the order issued.
#[derive(Clone, Copy, Debug, PartialEq)]
pub enum GlCall {
    GenBuffer { id: u32 },
    DeleteBuffer { id: u32 },
    BindBuffer { target: BufferTarget, id: u32 },
    BufferData { target: BufferTarget, usage: BufferUsage, byte_len: usize },
    GenVertexArray { id: u32 },
    DeleteVertexArray { id: u32 },
    BindVertexArray { id: u32 },
    EnableVertexAttributeArray { index: u32 },
    VertexAttributePointer {
        index: u32,
        size: VertexAttributeSize,
        data_type: DataType,
        normalised: bool,
        stride: u32,
        offset: u32,
    },
    VertexAttributeDivisor { index: u32, divisor: u32 },
    DrawArrays { mode: DrawMode, starting_index: u64, count: u64 },
    DrawArraysInstanced { mode: DrawMode, starting_index: u64, count: u64, instances: u32 },
    DrawElements { mode: DrawMode, count: u64, index_type: DataType },
    DrawElementsInstanced { mode: DrawMode, count: u64, index_type: DataType, instances: u32 },
    CreateShader { id: u32, shader_type: ShaderType },
    DeleteShader { id: u32 },
    ShaderSource { id: u32 },
    CompileShader { id: u32 },
    CreateProgram { id: u32 },
    DeleteProgram { id: u32 },
    AttachShader { program: u32, shader: u32 },
    DetachShader { program: u32, shader: u32 },
    LinkProgram { id: u32 },
    UseProgram { id: u32 },
    Uniform1I { location: u32, value: i32 },
    Uniform1F { location: u32, bits: u32 },
    Uniform2F { location: u32, bits0: u32, bits1: u32 },
    Uniform3F { location: u32, bits0: u32, bits1: u32, bits2: u32 },
    UniformMatrix4F { location: u32, transpose: bool },
    GenTexture { id: u32 },
    DeleteTexture { id: u32 },
    BindTexture { target: TextureTarget, id: u32 },
    ActiveTexture { unit: u32 },
    SetDepthFunc { func: DepthFunc },
    TexParameter {
        target: TextureTarget,
        name: TextureParameterName,
        value: TextureParameterValue,
    },
    TexImage2D {
        target: TextureTarget,
        mipmap_level: u32,
        internal_format: TextureFormat,
        width: u64,
        height: u64,
        data_format: TextureFormat,
        data_type: DataType,
        has_data: bool,
        byte_len: usize,
    },
    GenerateMipmaps { target: TextureTarget },
    GenFrameBuffer { id: u32 },
    BindFrameBuffer { target: FrameBufferTarget, id: u32 },
    FrameBufferTexture2D {
        target: FrameBufferTarget,
        attachment: FrameBufferAttachment,
        texture_target: TextureTarget,
        texture_id: u32,
        mipmap_level: u32,
    },
    GenRenderBuffer { id: u32 },
    BindRenderBuffer { id: u32 },
    RenderBufferStorage { format: RenderBufferStorageFormat, width: u32, height: u32 },
    FrameBufferRenderBuffer {
        target: FrameBufferTarget,
        attachment: FrameBufferAttachment,
        render_buffer_id: u32,
    },
    Enable { feature: Feature },
    Disable { feature: Feature },
    Clear { buffer: BufferBit },
    ClearColour { red_bits: u32, green_bits: u32, blue_bits: u32, alpha_bits: u32 },
}

/// Per-shader state of the modelled driver.
pub struct ShaderObj {
    /// Still allocated (not yet deleted).
    pub alive: bool,
    /// Pipeline stage the shader was created for.
    pub stage: ShaderType,
    /// Source text of the last source upload.
    pub source: String,
    /// A compile has been attempted since creation.
    pub compile_done: bool,
    /// Result of the last compile.
    pub compiled: bool,
    /// Log text produced by the last compile.
    pub info_log: String,
}

/// Per-program state of the modelled driver.
pub struct ProgramObj {
    /// Still allocated (not yet deleted).
    pub alive: bool,
    /// Shader ids currently attached.
    pub attached: Vec<u32>,
    /// A link has been attempted since creation.
    pub link_done: bool,
    /// Result of the last link.
    pub link_ok: bool,
    /// Snapshot of the attached shaders' sources taken by the last
    /// successful link; uniform names resolve against these.
    pub linked_sources: Vec<String>,
    /// Log text produced by the last link.
    pub info_log: String,
}

/// Per-vertex-array state of the modelled driver.
#[derive(Clone, Copy, Debug, PartialEq, Eq, Structural)]
pub struct VaoObj {
    /// Still allocated (not yet deleted).
    pub alive: bool,
    /// Index buffer captured by this vertex array; 0 means none.
    pub element_buffer: u32,
}

/// The driver's global state machine, made explicit. Object ids are never
/// reused: each table only grows, and id `n` names entry `n - 1`; id 0 always
/// means "no object".
pub struct Context {
    /// Liveness of each allocated buffer.
    pub buffers: Vec<bool>,
    /// State of each allocated vertex array.
    pub vertex_arrays: Vec<VaoObj>,
    /// Liveness of each allocated texture.
    pub textures: Vec<bool>,
    /// State of each allocated shader.
    pub shaders: Vec<ShaderObj>,
    /// State of each allocated program.
    pub programs: Vec<ProgramObj>,
    /// Liveness of each allocated frame buffer.
    pub frame_buffers: Vec<bool>,
    /// Liveness of each allocated render buffer.
    pub render_buffers: Vec<bool>,
    /// Buffer bound at the vertex-data bind point; 0 means none.
    pub bound_array_buffer: u32,
    /// Index buffer bound while no vertex array is bound; 0 means none.
    pub bound_element_buffer: u32,
    /// Currently bound vertex array; 0 means none.
    pub bound_vertex_array: u32,
    /// Texture bound at the two-dimensional bind point; 0 means none.
    pub bound_texture_2d: u32,
    /// Texture bound at the cube-map bind point; 0 means none.
    pub bound_texture_cube_map: u32,
    /// Currently bound frame buffer; 0 means the display buffer.
    pub bound_frame_buffer: u32,
    /// Currently bound render buffer; 0 means none.
    pub bound_render_buffer: u32,
    /// Currently selected texture unit.
    pub active_texture_unit: u32,
    /// Program in use; 0 means none.
    pub current_program: u32,
    /// The side-channel error flag: a raw error code, 0 when clear.
    pub error: u32,
    /// Every command the driver has accepted, in order.
    pub calls: Vec<GlCall>,
}

impl Context {
    /// A context as the windowing collaborator hands it over: empty object
    /// tables, nothing bound, error flag clear.
    pub fn new() -> (ctx: Context)
        ensures
            ctx.wf(),
            ctx.error == NO_ERROR,
            ctx.buffers@.len() == 0,
            ctx.vertex_arrays@.len() == 0,
            ctx.textures@.len() == 0,
            ctx.shaders@.len() == 0,
            ctx.programs@.len() == 0,
            ctx.frame_buffers@.len() == 0,
            ctx.render_buffers@.len() == 0,
            ctx.bound_array_buffer == 0,
            ctx.bound_element_buffer == 0,
            ctx.bound_vertex_array == 0,
            ctx.bound_texture_2d == 0,
            ctx.bound_texture_cube_map == 0,
            ctx.bound_frame_buffer == 0,
            ctx.bound_render_buffer == 0,
            ctx.active_texture_unit == 0,
            ctx.current_program == 0,
            ctx.calls@.len() == 0,
    {
        Context {
            buffers: Vec::new(),
            vertex_arrays: Vec::new(),
            textures: Vec::new(),
            shaders: Vec::new(),
            programs: Vec::new(),
            frame_buffers: Vec::new(),
            render_buffers: Vec::new(),
            bound_array_buffer: 0,
            bound_element_buffer: 0,
            bound_vertex_array: 0,
            bound_texture_2d: 0,
            bound_texture_cube_map: 0,
            bound_frame_buffer: 0,
            bound_render_buffer: 0,
            active_texture_unit: 0,
            current_program: 0,
            error: NO_ERROR,
            calls: Vec::new(),
        }
    }

    /// Buffer id `id` has been allocated and not yet deleted.
    pub open spec fn buffer_live(self, id: u32) -> bool {
        1 <= id && id <= self.buffers@.len() && self.buffers@[id - 1]
    }

    /// Vertex-array id `id` has been allocated and not yet deleted.
    pub open spec fn vertex_array_live(self, id: u32) -> bool {
        1 <= id && id <= self.vertex_arrays@.len() && self.vertex_arrays@[id - 1].alive
    }

    /// Texture id `id` has been allocated and not yet deleted.
    pub open spec fn texture_live(self, id: u32) -> bool {
        1 <= id && id <= self.textures@.len() && self.textures@[id - 1]
    }

    /// Shader id `id` has been allocated and not yet deleted.
    pub open spec fn shader_live(self, id: u32) -> bool {
        1 <= id && id <= self.shaders@.len() && self.shaders@[id - 1].alive
    }

    /// Program id `id` has been allocated and not yet deleted.
    pub open spec fn program_live(self, id: u32) -> bool {
        1 <= id && id <= self.programs@.len() && self.programs@[id - 1].alive
    }

    /// Frame-buffer id `id` has been allocated and not yet deleted.
    pub open spec fn frame_buffer_live(self, id: u32) -> bool {
        1 <= id && id <= self.frame_buffers@.len() && self.frame_buffers@[id - 1]
    }

    /// Render-buffer id `id` has been allocated and not yet deleted.
    pub open spec fn render_buffer_live(self, id: u32) -> bool {
        1 <= id && id <= self.render_buffers@.len() && self.render_buffers@[id - 1]
    }

    /// State of vertex array `id`.
    pub open spec fn vertex_array_at(self, id: u32) -> VaoObj {
        self.vertex_arrays@[id - 1]
    }

    /// State of shader `id`.
    pub open spec fn shader_at(self, id: u32) -> ShaderObj {
        self.shaders@[id - 1]
    }

    /// State of program `id`.
    pub open spec fn program_at(self, id: u32) -> ProgramObj {
        self.programs@[id - 1]
    }

    /// Structural well-formedness: every bind point and every stored id is in
    /// range of its table, so the model can always be read.
    pub open spec fn wf(self) -> bool {
        &&& self.bound_array_buffer <= self.buffers@.len()
        &&& self.bound_element_buffer <= self.buffers@.len()
        &&& self.bound_vertex_array <= self.vertex_arrays@.len()
        &&& self.bound_texture_2d <= self.textures@.len()
        &&& self.bound_texture_cube_map <= self.textures@.len()
        &&& self.bound_frame_buffer <= self.frame_buffers@.len()
        &&& self.bound_render_buffer <= self.render_buffers@.len()
        &&& self.current_program <= self.programs@.len()
        &&& (forall|i: int|
            0 <= i < self.vertex_arrays@.len() ==> self.vertex_arrays@[i].element_buffer
                <= self.buffers@.len())
        &&& (forall|i: int, j: int|
            0 <= i < self.programs@.len() && 0 <= j < self.programs@[i].attached@.len() ==> (1
                <= #[trigger] self.programs@[i].attached@[j] && self.programs@[i].attached@[j]
                <= self.shaders@.len()))
        &&& (forall|i: int|
            #![trigger self.shaders@[i]]
            0 <= i < self.shaders@.len() ==> self.shaders@[i].source@.len() <= MAX_SOURCE_LEN
                && self.shaders@[i].info_log@.len() <= MAX_SOURCE_LEN)
        &&& (forall|i: int|
            #![trigger self.programs@[i]]
            0 <= i < self.programs@.len() ==> self.programs@[i].info_log@.len() <= MAX_SOURCE_LEN
                && self.programs@[i].linked_sources@.len() <= u32::MAX)
    }

    /// A buffer is attached at `target`: for vertex data the global bind
    /// point, for index data the bound vertex array's captured index buffer
    /// (or the global slot when no vertex array is bound).
    pub open spec fn target_buffer_bound(self, target: BufferTarget) -> bool {
        match target {
            BufferTarget::Array => self.bound_array_buffer != 0,
            BufferTarget::ElementArray => {
                if self.bound_vertex_array == 0 {
                    self.bound_element_buffer != 0
                } else {
                    self.vertex_array_at(self.bound_vertex_array).element_buffer != 0
                }
            },
        }
    }

    /// A non-indexed draw can proceed: a vertex array is bound and a program
    /// is in use.
    pub open spec fn draw_ready(self) -> bool {
        self.bound_vertex_array != 0 && self.current_program != 0
    }

    /// An indexed draw can proceed: additionally, the bound vertex array has
    /// captured an index buffer.
    pub open spec fn indexed_draw_ready(self) -> bool {
        self.draw_ready() && self.vertex_array_at(self.bound_vertex_array).element_buffer != 0
    }

    /// Runtime check of [`Context::buffer_live`].
    pub fn buffer_is_live(&self, id: u32) -> (b: bool)
        ensures
            b == self.buffer_live(id),
    {
        1 <= id && (id as usize) <= self.buffers.len() && self.buffers[(id - 1) as usize]
    }

    /// Runtime check of [`Context::vertex_array_live`].
    pub fn vertex_array_is_live(&self, id: u32) -> (b: bool)
        ensures
            b == self.vertex_array_live(id),
    {
        1 <= id && (id as usize) <= self.vertex_arrays.len() && self.vertex_arrays[(id
            - 1) as usize].alive
    }

    /// Runtime check of [`Context::texture_live`].
    pub fn texture_is_live(&self, id: u32) -> (b: bool)
        ensures
            b == self.texture_live(id),
    {
        1 <= id && (id as usize) <= self.textures.len() && self.textures[(id - 1) as usize]
    }

    /// Runtime check of [`Context::shader_live`].
    pub fn shader_is_live(&self, id: u32) -> (b: bool)
        ensures
            b == self.shader_live(id),
    {
        1 <= id && (id as usize) <= self.shaders.len() && self.shaders[(id - 1) as usize].alive
    }

    /// Runtime check of [`Context::program_live`].
    pub fn program_is_live(&self, id: u32) -> (b: bool)
        ensures
            b == self.program_live(id),
    {
        1 <= id && (id as usize) <= self.programs.len() && self.programs[(id - 1) as usize].alive
    }

    /// Runtime check of [`Context::frame_buffer_live`].
    pub fn frame_buffer_is_live(&self, id: u32) -> (b: bool)
        ensures
            b == self.frame_buffer_live(id),
    {
        1 <= id && (id as usize) <= self.frame_buffers.len() && self.frame_buffers[(id
            - 1) as usize]
    }

    /// Runtime check of [`Context::render_buffer_live`].
    pub fn render_buffer_is_live(&self, id: u32) -> (b: bool)
        ensures
            b == self.render_buffer_live(id),
    {
        1 <= id && (id as usize) <= self.render_buffers.len() && self.render_buffers[(id
            - 1) as usize]
    }

    /// The seven object tables are unchanged.
    pub open spec fn same_objects(self, prev: Context) -> bool {
        &&& self.buffers == prev.buffers
        &&& self.vertex_arrays == prev.vertex_arrays
        &&& self.textures == prev.textures
        &&& self.shaders == prev.shaders
        &&& self.programs == prev.programs
        &&& self.frame_buffers == prev.frame_buffers
        &&& self.render_buffers == prev.render_buffers
    }

    /// All bind points are unchanged.
    pub open spec fn same_binds(self, prev: Context) -> bool {
        &&& self.bound_array_buffer == prev.bound_array_buffer
        &&& self.bound_element_buffer == prev.bound_element_buffer
        &&& self.bound_vertex_array == prev.bound_vertex_array
        &&& self.bound_texture_2d == prev.bound_texture_2d
        &&& self.bound_texture_cube_map == prev.bound_texture_cube_map
        &&& self.bound_frame_buffer == prev.bound_frame_buffer
        &&& self.bound_render_buffer == prev.bound_render_buffer
        &&& self.active_texture_unit == prev.active_texture_unit
        &&& self.current_program == prev.current_program
    }

    /// Exactly `call` was appended to the command stream.
    pub open spec fn logged(self, prev: Context, call: GlCall) -> bool {
        self.calls@ == prev.calls@.push(call)
    }

    /// Exactly `calls` were appended to the command stream, in order.
    pub open spec fn logged_seq(self, prev: Context, calls: Seq<GlCall>) -> bool {
        self.calls@ == prev.calls@ + calls
    }

    /// Nothing changed but one appended command.
    pub open spec fn log_only(self, prev: Context, call: GlCall) -> bool {
        &&& self.logged(prev, call)
        &&& self.same_objects(prev)
        &&& self.same_binds(prev)
        &&& self.error == prev.error
    }

    /// Nothing at all changed.
    pub open spec fn unchanged(self, prev: Context) -> bool {
        &&& self.calls@ == prev.calls@
        &&& self.same_objects(prev)
        &&& self.same_binds(prev)
        &&& self.error == prev.error
    }
}

} // verus!
