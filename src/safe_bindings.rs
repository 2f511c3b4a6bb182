//! The raw layer: each OpenGL entry point this library uses, described as a [`GlCall`]
//! whose arguments are already the values the driver expects, and the typed enumerations
//! that those arguments are converted from.
//!
//! Names of objects (buffers, vertex arrays, shaders, programs) are `u32`s here; where a GL
//! argument is a signed size or count, the builders ask that the value fits in an `i32`.
use vstd::prelude::*;
use crate::codes;

verus! {

/// One call into OpenGL, with every argument in the form the driver takes it.
#[derive(Clone, Debug, PartialEq, Eq)]
#[allow(inconsistent_fields)]
pub enum GlCall {
    Clear { mask: u32 },
    GenBuffers { count: i32 },
    DeleteBuffers { names: Vec<u32> },
    BindBuffer { target: u32, buffer: u32 },
    BufferData { target: u32, data: Vec<u8>, usage: u32 },
    BufferSubData { target: u32, offset: isize, data: Vec<u8> },
    GenVertexArrays { count: i32 },
    DeleteVertexArrays { names: Vec<u32> },
    BindVertexArray { array: u32 },
    EnableVertexAttribArray { index: u32 },
    VertexAttribPointer { index: u32, size: i32, data_type: u32, normalised: bool, stride: i32, offset: i32 },
    VertexAttribIPointer { index: u32, size: i32, data_type: u32, stride: i32, offset: usize },
    GetIntegerv { parameter: u32 },
    CreateShader { shader_type: u32 },
    DeleteShader { shader: u32 },
    ShaderSource { shader: u32, sources: Vec<String> },
    CompileShader { shader: u32 },
    AttachShader { program: u32, shader: u32 },
    DetachShader { program: u32, shader: u32 },
    GetShaderiv { shader: u32, parameter: u32 },
    GetShaderInfoLog { shader: u32, capacity: i32 },
    CreateProgram,
    LinkProgram { program: u32 },
    GetProgramiv { program: u32, parameter: u32 },
    GetProgramInfoLog { program: u32, capacity: i32 },
    UseProgram { program: u32 },
    DeleteProgram { program: u32 },
    DrawElements { mode: u32, count: i32, index_type: u32, offset: usize },
    DrawArrays { mode: u32, first: i32, count: i32 },
}

/// The buffers that `glClear` can clear, as a set of bits.
#[derive(Clone, Copy, Debug, PartialEq, Eq, Hash, Structural)]
pub struct ClearFlags {
    pub bits: u32,
}

pub const CLEAR_COLOUR_BUFFER: u32 = 1;
pub const CLEAR_STENCIL_BUFFER: u32 = 2;
pub const CLEAR_DEPTH_BUFFER: u32 = 4;

impl ClearFlags {
    pub open spec fn has(self, flag: u32) -> bool {
        self.bits & flag == flag
    }

    pub open spec fn spec_gl_bitfield(self) -> u32 {
        (if self.has(CLEAR_COLOUR_BUFFER) { codes::COLOR_BUFFER_BIT } else { 0u32 })
            | (if self.has(CLEAR_STENCIL_BUFFER) { codes::STENCIL_BUFFER_BIT } else { 0u32 })
            | (if self.has(CLEAR_DEPTH_BUFFER) { codes::DEPTH_BUFFER_BIT } else { 0u32 })
    }

    pub fn contains(self, other: ClearFlags) -> (r: bool)
        ensures
            r == self.has(other.bits),
    {
        self.bits & other.bits == other.bits
    }

    /// The `GLbitfield` mask that `glClear` takes for these flags.
    pub fn gl_bitfield(self) -> (r: u32)
        ensures
            r == self.spec_gl_bitfield(),
    {
        let colour: u32 = if self.bits & CLEAR_COLOUR_BUFFER == CLEAR_COLOUR_BUFFER {
            codes::COLOR_BUFFER_BIT
        } else {
            0
        };
        let stencil: u32 = if self.bits & CLEAR_STENCIL_BUFFER == CLEAR_STENCIL_BUFFER {
            codes::STENCIL_BUFFER_BIT
        } else {
            0
        };
        let depth: u32 = if self.bits & CLEAR_DEPTH_BUFFER == CLEAR_DEPTH_BUFFER {
            codes::DEPTH_BUFFER_BIT
        } else {
            0
        };
        colour | stencil | depth
    }
}

/// A binding point for buffer objects.
#[derive(Clone, Copy, Debug, PartialEq, Eq, Hash, Structural)]
pub enum BufferType {
    Array,
    AtomicCounter,
    CopyRead,
    CopyWrite,
    DispatchIndirect,
    DrawIndirect,
    ElementArray,
    PixelPack,
    PixelUnpack,
    Query,
    ShaderStorage,
    Texture,
    TransformFeedback,
    Uniform,
}

impl BufferType {
    pub open spec fn spec_gl_enum(self) -> u32 {
        match self {
            BufferType::Array => codes::ARRAY_BUFFER,
            BufferType::AtomicCounter => codes::ATOMIC_COUNTER_BUFFER,
            BufferType::CopyRead => codes::COPY_READ_BUFFER,
            BufferType::CopyWrite => codes::COPY_WRITE_BUFFER,
            BufferType::DispatchIndirect => codes::DISPATCH_INDIRECT_BUFFER,
            BufferType::DrawIndirect => codes::DRAW_INDIRECT_BUFFER,
            BufferType::ElementArray => codes::ELEMENT_ARRAY_BUFFER,
            BufferType::PixelPack => codes::PIXEL_PACK_BUFFER,
            BufferType::PixelUnpack => codes::PIXEL_UNPACK_BUFFER,
            BufferType::Query => codes::QUERY_BUFFER,
            BufferType::ShaderStorage => codes::SHADER_STORAGE_BUFFER,
            BufferType::Texture => codes::TEXTURE_BUFFER,
            BufferType::TransformFeedback => codes::TRANSFORM_FEEDBACK_BUFFER,
            BufferType::Uniform => codes::UNIFORM_BUFFER,
        }
    }

    /// The `GLenum` value that stands for this variant.
    pub fn gl_enum(self) -> (r: u32)
        ensures
            r == self.spec_gl_enum(),
    {
        match self {
            BufferType::Array => codes::ARRAY_BUFFER,
            BufferType::AtomicCounter => codes::ATOMIC_COUNTER_BUFFER,
            BufferType::CopyRead => codes::COPY_READ_BUFFER,
            BufferType::CopyWrite => codes::COPY_WRITE_BUFFER,
            BufferType::DispatchIndirect => codes::DISPATCH_INDIRECT_BUFFER,
            BufferType::DrawIndirect => codes::DRAW_INDIRECT_BUFFER,
            BufferType::ElementArray => codes::ELEMENT_ARRAY_BUFFER,
            BufferType::PixelPack => codes::PIXEL_PACK_BUFFER,
            BufferType::PixelUnpack => codes::PIXEL_UNPACK_BUFFER,
            BufferType::Query => codes::QUERY_BUFFER,
            BufferType::ShaderStorage => codes::SHADER_STORAGE_BUFFER,
            BufferType::Texture => codes::TEXTURE_BUFFER,
            BufferType::TransformFeedback => codes::TRANSFORM_FEEDBACK_BUFFER,
            BufferType::Uniform => codes::UNIFORM_BUFFER,
        }
    }
}

/// How the contents of a buffer's data store are expected to be used.
#[derive(Clone, Copy, Debug, PartialEq, Eq, Hash, Structural)]
pub enum BufferUsage {
    StreamDraw,
    StreamRead,
    StreamCopy,
    StaticDraw,
    StaticRead,
    StaticCopy,
    DynamicDraw,
    DynamicRead,
    DynamicCopy,
}

impl BufferUsage {
    pub open spec fn spec_gl_enum(self) -> u32 {
        match self {
            BufferUsage::StreamDraw => codes::STREAM_DRAW,
            BufferUsage::StreamRead => codes::STREAM_READ,
            BufferUsage::StreamCopy => codes::STREAM_COPY,
            BufferUsage::StaticDraw => codes::STATIC_DRAW,
            BufferUsage::StaticRead => codes::STATIC_READ,
            BufferUsage::StaticCopy => codes::STATIC_COPY,
            BufferUsage::DynamicDraw => codes::DYNAMIC_DRAW,
            BufferUsage::DynamicRead => codes::DYNAMIC_READ,
            BufferUsage::DynamicCopy => codes::DYNAMIC_COPY,
        }
    }

    /// The `GLenum` value that stands for this variant.
    pub fn gl_enum(self) -> (r: u32)
        ensures
            r == self.spec_gl_enum(),
    {
        match self {
            BufferUsage::StreamDraw => codes::STREAM_DRAW,
            BufferUsage::StreamRead => codes::STREAM_READ,
            BufferUsage::StreamCopy => codes::STREAM_COPY,
            BufferUsage::StaticDraw => codes::STATIC_DRAW,
            BufferUsage::StaticRead => codes::STATIC_READ,
            BufferUsage::StaticCopy => codes::STATIC_COPY,
            BufferUsage::DynamicDraw => codes::DYNAMIC_DRAW,
            BufferUsage::DynamicRead => codes::DYNAMIC_READ,
            BufferUsage::DynamicCopy => codes::DYNAMIC_COPY,
        }
    }
}

/// A single-valued integer state that `glGetIntegerv` can report.
#[derive(Clone, Copy, Debug, PartialEq, Eq, Hash, Structural)]
pub enum Parameter {
    MaxVertexAttribs,
    ArrayBufferBinding,
    ElementBufferBinding,
    MaxComputeShaderStorageBlocks,
}

impl Parameter {
    pub open spec fn spec_gl_enum(self) -> u32 {
        match self {
            Parameter::MaxVertexAttribs => codes::MAX_VERTEX_ATTRIBS,
            Parameter::ArrayBufferBinding => codes::ARRAY_BUFFER_BINDING,
            Parameter::ElementBufferBinding => codes::ELEMENT_ARRAY_BUFFER_BINDING,
            Parameter::MaxComputeShaderStorageBlocks => codes::MAX_COMPUTE_SHADER_STORAGE_BLOCKS,
        }
    }

    /// The `GLenum` value that stands for this variant.
    pub fn gl_enum(self) -> (r: u32)
        ensures
            r == self.spec_gl_enum(),
    {
        match self {
            Parameter::MaxVertexAttribs => codes::MAX_VERTEX_ATTRIBS,
            Parameter::ArrayBufferBinding => codes::ARRAY_BUFFER_BINDING,
            Parameter::ElementBufferBinding => codes::ELEMENT_ARRAY_BUFFER_BINDING,
            Parameter::MaxComputeShaderStorageBlocks => codes::MAX_COMPUTE_SHADER_STORAGE_BLOCKS,
        }
    }
}

/// The stage a shader object belongs to.
#[derive(Clone, Copy, Debug, PartialEq, Eq, Hash, Structural)]
pub enum ShaderType {
    Compute,
    Vertex,
    TessControl,
    TessEvaluation,
    Geometry,
    Fragment,
}

impl ShaderType {
    pub open spec fn spec_gl_enum(self) -> u32 {
        match self {
            ShaderType::Compute => codes::COMPUTE_SHADER,
            ShaderType::Vertex => codes::VERTEX_SHADER,
            ShaderType::TessControl => codes::TESS_CONTROL_SHADER,
            ShaderType::TessEvaluation => codes::TESS_EVALUATION_SHADER,
            ShaderType::Geometry => codes::GEOMETRY_SHADER,
            ShaderType::Fragment => codes::FRAGMENT_SHADER,
        }
    }

    /// The `GLenum` value that stands for this variant.
    pub fn gl_enum(self) -> (r: u32)
        ensures
            r == self.spec_gl_enum(),
    {
        match self {
            ShaderType::Compute => codes::COMPUTE_SHADER,
            ShaderType::Vertex => codes::VERTEX_SHADER,
            ShaderType::TessControl => codes::TESS_CONTROL_SHADER,
            ShaderType::TessEvaluation => codes::TESS_EVALUATION_SHADER,
            ShaderType::Geometry => codes::GEOMETRY_SHADER,
            ShaderType::Fragment => codes::FRAGMENT_SHADER,
        }
    }
}

/// A property of a shader object that `glGetShaderiv` reports.
#[derive(Clone, Copy, Debug, PartialEq, Eq, Hash, Structural)]
pub enum ShaderParameter {
    ShaderType,
    DeleteStatus,
    CompileStatus,
    InfoLogLength,
    ShaderSourceLength,
}

impl ShaderParameter {
    pub open spec fn spec_gl_enum(self) -> u32 {
        match self {
            ShaderParameter::ShaderType => codes::SHADER_TYPE,
            ShaderParameter::DeleteStatus => codes::DELETE_STATUS,
            ShaderParameter::CompileStatus => codes::COMPILE_STATUS,
            ShaderParameter::InfoLogLength => codes::INFO_LOG_LENGTH,
            ShaderParameter::ShaderSourceLength => codes::SHADER_SOURCE_LENGTH,
        }
    }

    /// The `GLenum` value that stands for this variant.
    pub fn gl_enum(self) -> (r: u32)
        ensures
            r == self.spec_gl_enum(),
    {
        match self {
            ShaderParameter::ShaderType => codes::SHADER_TYPE,
            ShaderParameter::DeleteStatus => codes::DELETE_STATUS,
            ShaderParameter::CompileStatus => codes::COMPILE_STATUS,
            ShaderParameter::InfoLogLength => codes::INFO_LOG_LENGTH,
            ShaderParameter::ShaderSourceLength => codes::SHADER_SOURCE_LENGTH,
        }
    }
}

/// A property of a program object that `glGetProgramiv` reports.
#[derive(Clone, Copy, Debug, PartialEq, Eq, Hash, Structural)]
pub enum ProgramParameter {
    DeleteStatus,
    LinkStatus,
    ValidateStatus,
    InfoLogLength,
    AttachedShaders,
    ActiveAttributes,
    ActiveAttributeMaxLength,
    ActiveUniforms,
    ActiveUniformBlocks,
    ActiveUniformBlockMaxNameLength,
    ActiveUniformMaxLength,
    TransformFeedbackBufferMode,
    TransformFeedbackVaryings,
    TransformFeedbackVaryingMaxLength,
    GeometryVerticesOut,
    GeometryInputType,
    GeometryOutputType,
}

impl ProgramParameter {
    pub open spec fn spec_gl_enum(self) -> u32 {
        match self {
            ProgramParameter::DeleteStatus => codes::DELETE_STATUS,
            ProgramParameter::LinkStatus => codes::LINK_STATUS,
            ProgramParameter::ValidateStatus => codes::VALIDATE_STATUS,
            ProgramParameter::InfoLogLength => codes::INFO_LOG_LENGTH,
            ProgramParameter::AttachedShaders => codes::ATTACHED_SHADERS,
            ProgramParameter::ActiveAttributes => codes::ACTIVE_ATTRIBUTES,
            ProgramParameter::ActiveAttributeMaxLength => codes::ACTIVE_ATTRIBUTE_MAX_LENGTH,
            ProgramParameter::ActiveUniforms => codes::ACTIVE_UNIFORMS,
            ProgramParameter::ActiveUniformBlocks => codes::ACTIVE_UNIFORM_BLOCKS,
            ProgramParameter::ActiveUniformBlockMaxNameLength => codes::ACTIVE_UNIFORM_BLOCK_MAX_NAME_LENGTH,
            ProgramParameter::ActiveUniformMaxLength => codes::ACTIVE_UNIFORM_MAX_LENGTH,
            ProgramParameter::TransformFeedbackBufferMode => codes::TRANSFORM_FEEDBACK_BUFFER_MODE,
            ProgramParameter::TransformFeedbackVaryings => codes::TRANSFORM_FEEDBACK_VARYINGS,
            ProgramParameter::TransformFeedbackVaryingMaxLength => codes::TRANSFORM_FEEDBACK_VARYING_MAX_LENGTH,
            ProgramParameter::GeometryVerticesOut => codes::GEOMETRY_VERTICES_OUT,
            ProgramParameter::GeometryInputType => codes::GEOMETRY_INPUT_TYPE,
            ProgramParameter::GeometryOutputType => codes::GEOMETRY_OUTPUT_TYPE,
        }
    }

    /// The `GLenum` value that stands for this variant.
    pub fn gl_enum(self) -> (r: u32)
        ensures
            r == self.spec_gl_enum(),
    {
        match self {
            ProgramParameter::DeleteStatus => codes::DELETE_STATUS,
            ProgramParameter::LinkStatus => codes::LINK_STATUS,
            ProgramParameter::ValidateStatus => codes::VALIDATE_STATUS,
            ProgramParameter::InfoLogLength => codes::INFO_LOG_LENGTH,
            ProgramParameter::AttachedShaders => codes::ATTACHED_SHADERS,
            ProgramParameter::ActiveAttributes => codes::ACTIVE_ATTRIBUTES,
            ProgramParameter::ActiveAttributeMaxLength => codes::ACTIVE_ATTRIBUTE_MAX_LENGTH,
            ProgramParameter::ActiveUniforms => codes::ACTIVE_UNIFORMS,
            ProgramParameter::ActiveUniformBlocks => codes::ACTIVE_UNIFORM_BLOCKS,
            ProgramParameter::ActiveUniformBlockMaxNameLength => codes::ACTIVE_UNIFORM_BLOCK_MAX_NAME_LENGTH,
            ProgramParameter::ActiveUniformMaxLength => codes::ACTIVE_UNIFORM_MAX_LENGTH,
            ProgramParameter::TransformFeedbackBufferMode => codes::TRANSFORM_FEEDBACK_BUFFER_MODE,
            ProgramParameter::TransformFeedbackVaryings => codes::TRANSFORM_FEEDBACK_VARYINGS,
            ProgramParameter::TransformFeedbackVaryingMaxLength => codes::TRANSFORM_FEEDBACK_VARYING_MAX_LENGTH,
            ProgramParameter::GeometryVerticesOut => codes::GEOMETRY_VERTICES_OUT,
            ProgramParameter::GeometryInputType => codes::GEOMETRY_INPUT_TYPE,
            ProgramParameter::GeometryOutputType => codes::GEOMETRY_OUTPUT_TYPE,
        }
    }
}

/// The kind of primitive that a draw call assembles.
#[derive(Clone, Copy, Debug, PartialEq, Eq, Hash, Structural)]
pub enum DrawMode {
    Points,
    LineStrip,
    LineLoop,
    Lines,
    LineStripAdjacency,
    LinesAdjacency,
    TriangleStrip,
    TriangleFan,
    Triangles,
    TriangleStripAdjacency,
    TrianglesAdjacency,
    Patches,
}

impl DrawMode {
    pub open spec fn spec_gl_enum(self) -> u32 {
        match self {
            DrawMode::Points => codes::POINTS,
            DrawMode::LineStrip => codes::LINE_STRIP,
            DrawMode::LineLoop => codes::LINE_LOOP,
            DrawMode::Lines => codes::LINES,
            DrawMode::LineStripAdjacency => codes::LINE_STRIP_ADJACENCY,
            DrawMode::LinesAdjacency => codes::LINES_ADJACENCY,
            DrawMode::TriangleStrip => codes::TRIANGLE_STRIP,
            DrawMode::TriangleFan => codes::TRIANGLE_FAN,
            DrawMode::Triangles => codes::TRIANGLES,
            DrawMode::TriangleStripAdjacency => codes::TRIANGLE_STRIP_ADJACENCY,
            DrawMode::TrianglesAdjacency => codes::TRIANGLES_ADJACENCY,
            DrawMode::Patches => codes::PATCHES,
        }
    }

    /// The `GLenum` value that stands for this variant.
    pub fn gl_enum(self) -> (r: u32)
        ensures
            r == self.spec_gl_enum(),
    {
        match self {
            DrawMode::Points => codes::POINTS,
            DrawMode::LineStrip => codes::LINE_STRIP,
            DrawMode::LineLoop => codes::LINE_LOOP,
            DrawMode::Lines => codes::LINES,
            DrawMode::LineStripAdjacency => codes::LINE_STRIP_ADJACENCY,
            DrawMode::LinesAdjacency => codes::LINES_ADJACENCY,
            DrawMode::TriangleStrip => codes::TRIANGLE_STRIP,
            DrawMode::TriangleFan => codes::TRIANGLE_FAN,
            DrawMode::Triangles => codes::TRIANGLES,
            DrawMode::TriangleStripAdjacency => codes::TRIANGLE_STRIP_ADJACENCY,
            DrawMode::TrianglesAdjacency => codes::TRIANGLES_ADJACENCY,
            DrawMode::Patches => codes::PATCHES,
        }
    }
}

/// The type of the indices stored in an element buffer.
#[derive(Clone, Copy, Debug, PartialEq, Eq, Hash, Structural)]
pub enum IndexType {
    UnsignedByte,
    UnsignedShort,
    UnsignedInt,
}

impl IndexType {
    pub open spec fn spec_gl_enum(self) -> u32 {
        match self {
            IndexType::UnsignedByte => codes::UNSIGNED_BYTE,
            IndexType::UnsignedShort => codes::UNSIGNED_SHORT,
            IndexType::UnsignedInt => codes::UNSIGNED_INT,
        }
    }

    /// The `GLenum` value that stands for this variant.
    pub fn gl_enum(self) -> (r: u32)
        ensures
            r == self.spec_gl_enum(),
    {
        match self {
            IndexType::UnsignedByte => codes::UNSIGNED_BYTE,
            IndexType::UnsignedShort => codes::UNSIGNED_SHORT,
            IndexType::UnsignedInt => codes::UNSIGNED_INT,
        }
    }
}

/// The type of each component of a vertex attribute in its buffer.
#[derive(Clone, Copy, Debug, PartialEq, Eq, Hash, Structural)]
pub enum DataType {
    Byte,
    UnsignedByte,
    Short,
    UnsignedShort,
    Int,
    UnsignedInt,
    HalfFloat,
    Float,
    Double,
    Fixed,
    Int2_10_10_10Rev,
    UnsignedInt2_10_10_10Rev,
    UnsignedInt10f11f11fRev,
}

impl DataType {
    pub open spec fn spec_gl_enum(self) -> u32 {
        match self {
            DataType::Byte => codes::BYTE,
            DataType::UnsignedByte => codes::UNSIGNED_BYTE,
            DataType::Short => codes::SHORT,
            DataType::UnsignedShort => codes::UNSIGNED_SHORT,
            DataType::Int => codes::INT,
            DataType::UnsignedInt => codes::UNSIGNED_INT,
            DataType::HalfFloat => codes::HALF_FLOAT,
            DataType::Float => codes::FLOAT,
            DataType::Double => codes::DOUBLE,
            DataType::Fixed => codes::FIXED,
            DataType::Int2_10_10_10Rev => codes::INT_2_10_10_10_REV,
            DataType::UnsignedInt2_10_10_10Rev => codes::UNSIGNED_INT_2_10_10_10_REV,
            DataType::UnsignedInt10f11f11fRev => codes::UNSIGNED_INT_10F_11F_11F_REV,
        }
    }

    /// The `GLenum` value that stands for this variant.
    pub fn gl_enum(self) -> (r: u32)
        ensures
            r == self.spec_gl_enum(),
    {
        match self {
            DataType::Byte => codes::BYTE,
            DataType::UnsignedByte => codes::UNSIGNED_BYTE,
            DataType::Short => codes::SHORT,
            DataType::UnsignedShort => codes::UNSIGNED_SHORT,
            DataType::Int => codes::INT,
            DataType::UnsignedInt => codes::UNSIGNED_INT,
            DataType::HalfFloat => codes::HALF_FLOAT,
            DataType::Float => codes::FLOAT,
            DataType::Double => codes::DOUBLE,
            DataType::Fixed => codes::FIXED,
            DataType::Int2_10_10_10Rev => codes::INT_2_10_10_10_REV,
            DataType::UnsignedInt2_10_10_10Rev => codes::UNSIGNED_INT_2_10_10_10_REV,
            DataType::UnsignedInt10f11f11fRev => codes::UNSIGNED_INT_10F_11F_11F_REV,
        }
    }
}

/// The integral component types that integer vertex attributes may use.
#[derive(Clone, Copy, Debug, PartialEq, Eq, Hash, Structural)]
pub enum IntegralDataType {
    Byte,
    UnsignedByte,
    Short,
    UnsignedShort,
    Int,
    UnsignedInt,
}

impl IntegralDataType {
    pub open spec fn spec_gl_enum(self) -> u32 {
        match self {
            IntegralDataType::Byte => codes::BYTE,
            IntegralDataType::UnsignedByte => codes::UNSIGNED_BYTE,
            IntegralDataType::Short => codes::SHORT,
            IntegralDataType::UnsignedShort => codes::UNSIGNED_SHORT,
            IntegralDataType::Int => codes::INT,
            IntegralDataType::UnsignedInt => codes::UNSIGNED_INT,
        }
    }

    /// The `GLenum` value that stands for this variant.
    pub fn gl_enum(self) -> (r: u32)
        ensures
            r == self.spec_gl_enum(),
    {
        match self {
            IntegralDataType::Byte => codes::BYTE,
            IntegralDataType::UnsignedByte => codes::UNSIGNED_BYTE,
            IntegralDataType::Short => codes::SHORT,
            IntegralDataType::UnsignedShort => codes::UNSIGNED_SHORT,
            IntegralDataType::Int => codes::INT,
            IntegralDataType::UnsignedInt => codes::UNSIGNED_INT,
        }
    }
}

impl DataType {
    pub open spec fn spec_size_bytes(self) -> usize {
        match self {
            DataType::Byte | DataType::UnsignedByte => 1,
            DataType::Short | DataType::UnsignedShort | DataType::HalfFloat => 2,
            DataType::Double => 8,
            _ => 4,
        }
    }

    /// The number of bytes one component of this type takes in a buffer.
    pub fn size_bytes(&self) -> (r: usize)
        ensures
            r == self.spec_size_bytes(),
    {
        match self {
            DataType::Byte | DataType::UnsignedByte => 1,
            DataType::Short | DataType::UnsignedShort | DataType::HalfFloat => 2,
            DataType::Int | DataType::UnsignedInt | DataType::Float | DataType::Fixed
            | DataType::Int2_10_10_10Rev | DataType::UnsignedInt2_10_10_10Rev
            | DataType::UnsignedInt10f11f11fRev => 4,
            DataType::Double => 8,
        }
    }
}

impl IntegralDataType {
    pub open spec fn spec_size_bytes(self) -> usize {
        match self {
            IntegralDataType::Byte | IntegralDataType::UnsignedByte => 1,
            IntegralDataType::Short | IntegralDataType::UnsignedShort => 2,
            IntegralDataType::Int | IntegralDataType::UnsignedInt => 4,
        }
    }

    /// The number of bytes one component of this type takes in a buffer.
    pub fn size_bytes(&self) -> (r: usize)
        ensures
            r == self.spec_size_bytes(),
    {
        match self {
            IntegralDataType::Byte | IntegralDataType::UnsignedByte => 1,
            IntegralDataType::Short | IntegralDataType::UnsignedShort => 2,
            IntegralDataType::Int | IntegralDataType::UnsignedInt => 4,
        }
    }
}

/// The number of components of a floating-point vertex attribute; `Bgra` is four
/// components stored in blue, green, red, alpha order.
#[derive(Clone, Copy, Debug, PartialEq, Eq, Hash, Structural)]
pub enum AttribSize {
    One,
    Two,
    Three,
    Four,
    Bgra,
}

impl AttribSize {
    pub open spec fn spec_gl_size(self) -> i32 {
        match self {
            AttribSize::One => 1,
            AttribSize::Two => 2,
            AttribSize::Three => 3,
            AttribSize::Four => 4,
            AttribSize::Bgra => codes::BGRA as i32,
        }
    }

    /// The `GLint` that `glVertexAttribPointer` takes as its size.
    pub fn gl_size(self) -> (r: i32)
        ensures
            r == self.spec_gl_size(),
    {
        match self {
            AttribSize::One => 1,
            AttribSize::Two => 2,
            AttribSize::Three => 3,
            AttribSize::Four => 4,
            AttribSize::Bgra => codes::BGRA as i32,
        }
    }
}

/// The number of components of an integer vertex attribute.
#[derive(Clone, Copy, Debug, PartialEq, Eq, Hash, Structural)]
pub enum IntegralAttribSize {
    One,
    Two,
    Three,
    Four,
}

impl IntegralAttribSize {
    pub open spec fn spec_gl_size(self) -> i32 {
        match self {
            IntegralAttribSize::One => 1,
            IntegralAttribSize::Two => 2,
            IntegralAttribSize::Three => 3,
            IntegralAttribSize::Four => 4,
        }
    }

    /// The `GLint` that `glVertexAttribIPointer` takes as its size.
    pub fn gl_size(self) -> (r: i32)
        ensures
            r == self.spec_gl_size(),
    {
        match self {
            IntegralAttribSize::One => 1,
            IntegralAttribSize::Two => 2,
            IntegralAttribSize::Three => 3,
            IntegralAttribSize::Four => 4,
        }
    }
}

/// An error that `glGetError` reports. `GL_INVALID_ENUM` has no variant: every enumerant
/// this library passes comes from a typed enumeration, so the driver cannot reject one.
#[derive(Clone, Copy, Debug, PartialEq, Eq, Hash, Structural)]
pub enum Error {
    InvalidValue,
    InvalidOperation,
    InvalidFramebufferOperation,
    OutOfMemory,
    StackUnderflow,
    StackOverflow,
}

/// The codes that `glGetError` reports and that [`Error`] stands for.
pub open spec fn is_reported_error(code: u32) -> bool {
    ||| code == codes::INVALID_VALUE
    ||| code == codes::INVALID_OPERATION
    ||| code == codes::INVALID_FRAMEBUFFER_OPERATION
    ||| code == codes::OUT_OF_MEMORY
    ||| code == codes::STACK_UNDERFLOW
    ||| code == codes::STACK_OVERFLOW
}

impl Error {
    pub open spec fn spec_gl_enum(self) -> u32 {
        match self {
            Error::InvalidValue => codes::INVALID_VALUE,
            Error::InvalidOperation => codes::INVALID_OPERATION,
            Error::InvalidFramebufferOperation => codes::INVALID_FRAMEBUFFER_OPERATION,
            Error::OutOfMemory => codes::OUT_OF_MEMORY,
            Error::StackUnderflow => codes::STACK_UNDERFLOW,
            Error::StackOverflow => codes::STACK_OVERFLOW,
        }
    }

    pub open spec fn spec_from_code(code: u32) -> Error {
        if code == codes::INVALID_VALUE {
            Error::InvalidValue
        } else if code == codes::INVALID_OPERATION {
            Error::InvalidOperation
        } else if code == codes::INVALID_FRAMEBUFFER_OPERATION {
            Error::InvalidFramebufferOperation
        } else if code == codes::OUT_OF_MEMORY {
            Error::OutOfMemory
        } else if code == codes::STACK_UNDERFLOW {
            Error::StackUnderflow
        } else {
            Error::StackOverflow
        }
    }

    /// The error that a `glGetError` code stands for.
    pub fn from_code(code: u32) -> (r: Error)
        requires
            is_reported_error(code),
        ensures
            r == Error::spec_from_code(code),
            r.spec_gl_enum() == code,
    {
        if code == codes::INVALID_VALUE {
            Error::InvalidValue
        } else if code == codes::INVALID_OPERATION {
            Error::InvalidOperation
        } else if code == codes::INVALID_FRAMEBUFFER_OPERATION {
            Error::InvalidFramebufferOperation
        } else if code == codes::OUT_OF_MEMORY {
            Error::OutOfMemory
        } else if code == codes::STACK_UNDERFLOW {
            Error::StackUnderflow
        } else {
            Error::StackOverflow
        }
    }

    /// The error a `glGetError` code stands for, or none for a code it does not report
    /// (`GL_NO_ERROR`, `GL_INVALID_ENUM` or anything else).
    pub fn from_reported(code: u32) -> (r: Option<Error>)
        ensures
            is_reported_error(code) ==> r == Some(Error::spec_from_code(code)),
            !is_reported_error(code) ==> r is None,
    {
        if code == codes::INVALID_VALUE || code == codes::INVALID_OPERATION
            || code == codes::INVALID_FRAMEBUFFER_OPERATION || code == codes::OUT_OF_MEMORY
            || code == codes::STACK_UNDERFLOW || code == codes::STACK_OVERFLOW {
            Some(Error::from_code(code))
        } else {
            None
        }
    }

    pub open spec fn spec_message(self) -> Seq<char> {
        match self {
            Error::InvalidValue => "invalid value"@,
            Error::InvalidOperation => "invalid operation"@,
            Error::InvalidFramebufferOperation => "invalid framebuffer operation"@,
            Error::OutOfMemory => "out of memory"@,
            Error::StackUnderflow => "stack underflow"@,
            Error::StackOverflow => "stack overflow"@,
        }
    }

    /// A short description of the error, in lower case.
    pub fn message(&self) -> (r: String)
        ensures
            r@ == self.spec_message(),
    {
        let s = match self {
            Error::InvalidValue => "invalid value",
            Error::InvalidOperation => "invalid operation",
            Error::InvalidFramebufferOperation => "invalid framebuffer operation",
            Error::OutOfMemory => "out of memory",
            Error::StackUnderflow => "stack underflow",
            Error::StackOverflow => "stack overflow",
        };
        String::from_str(s)
    }
}

/// Clears the buffers named by `flags`.
pub fn Clear(flags: ClearFlags) -> (r: GlCall)
    ensures
        r == (GlCall::Clear { mask: flags.spec_gl_bitfield() }),
{
    GlCall::Clear { mask: flags.gl_bitfield() }
}

/// Asks for `count` new buffer names.
pub fn GenBuffers(count: usize) -> (r: GlCall)
    requires
        count <= i32::MAX,
    ensures
        r == (GlCall::GenBuffers { count: count as i32 }),
{
    GlCall::GenBuffers { count: count as i32 }
}

/// Asks for one new buffer name.
pub fn GenBuffer() -> (r: GlCall)
    ensures
        r == (GlCall::GenBuffers { count: 1 }),
{
    GenBuffers(1)
}

/// Deletes the buffers with the given names.
pub fn DeleteBuffers(buffers: Vec<u32>) -> (r: GlCall)
    requires
        buffers.len() <= i32::MAX,
    ensures
        r matches GlCall::DeleteBuffers { names } && names@ == buffers@,
{
    GlCall::DeleteBuffers { names: buffers }
}

/// Deletes the buffer with the given name.
pub fn DeleteBuffer(buffer: u32) -> (r: GlCall)
    ensures
        r matches GlCall::DeleteBuffers { names } && names@ == seq![buffer],
{
    let v = vec![buffer];
    DeleteBuffers(v)
}


/// Binds `buffer` (or no buffer, for 0) to `target`.
pub fn BindBuffer(target: BufferType, buffer: u32) -> (r: GlCall)
    ensures
        r == (GlCall::BindBuffer { target: target.spec_gl_enum(), buffer }),
{
    GlCall::BindBuffer { target: target.gl_enum(), buffer }
}

/// Replaces the data store of the buffer bound to `target` with `data`.
pub fn BufferData(target: BufferType, data: Vec<u8>, usage: BufferUsage) -> (r: GlCall)
    ensures
        r matches GlCall::BufferData { target: t, data: d, usage: u }
            && t == target.spec_gl_enum() && d@ == data@ && u == usage.spec_gl_enum(),
{
    GlCall::BufferData { target: target.gl_enum(), data, usage: usage.gl_enum() }
}

/// Overwrites the bytes of the buffer bound to `target` from byte `offset` on with `data`.
pub fn BufferSubData(target: BufferType, data: Vec<u8>, offset: usize) -> (r: GlCall)
    requires
        offset <= isize::MAX,
    ensures
        r matches GlCall::BufferSubData { target: t, offset: o, data: d }
            && t == target.spec_gl_enum() && o == offset && d@ == data@,
{
    GlCall::BufferSubData { target: target.gl_enum(), offset: offset as isize, data }
}

/// Asks for `count` new vertex array names.
pub fn GenVertexArrays(count: usize) -> (r: GlCall)
    requires
        count <= i32::MAX,
    ensures
        r == (GlCall::GenVertexArrays { count: count as i32 }),
{
    GlCall::GenVertexArrays { count: count as i32 }
}

/// Asks for one new vertex array name.
pub fn GenVertexArray() -> (r: GlCall)
    ensures
        r == (GlCall::GenVertexArrays { count: 1 }),
{
    GenVertexArrays(1)
}

/// Deletes the vertex arrays with the given names.
pub fn DeleteVertexArrays(vertex_arrays: Vec<u32>) -> (r: GlCall)
    requires
        vertex_arrays.len() <= i32::MAX,
    ensures
        r matches GlCall::DeleteVertexArrays { names } && names@ == vertex_arrays@,
{
    GlCall::DeleteVertexArrays { names: vertex_arrays }
}

/// Deletes the vertex array with the given name.
pub fn DeleteVertexArray(vertex_array: u32) -> (r: GlCall)
    ensures
        r matches GlCall::DeleteVertexArrays { names } && names@ == seq![vertex_array],
{
    let v = vec![vertex_array];
    DeleteVertexArrays(v)
}

/// Binds `vertex_array` (or no vertex array, for 0).
pub fn BindVertexArray(vertex_array: u32) -> (r: GlCall)
    ensures
        r == (GlCall::BindVertexArray { array: vertex_array }),
{
    GlCall::BindVertexArray { array: vertex_array }
}

/// Enables the generic vertex attribute array at `attribute_index` of the bound vertex array.
pub fn EnableVertexAttribArray(attribute_index: u8) -> (r: GlCall)
    ensures
        r == (GlCall::EnableVertexAttribArray { index: attribute_index as u32 }),
{
    GlCall::EnableVertexAttribArray { index: attribute_index as u32 }
}

/// Describes where and how the floating-point attribute `index` is read from the bound
/// array buffer: `stride` and `offset` are in bytes.
pub fn VertexAttribPointer(index: u8, size: AttribSize, data_type: DataType, normalised: bool,
    stride: usize, offset: usize) -> (r: GlCall)
    requires
        stride <= i32::MAX,
        offset <= i32::MAX,
    ensures
        r == (GlCall::VertexAttribPointer {
            index: index as u32,
            size: size.spec_gl_size(),
            data_type: data_type.spec_gl_enum(),
            normalised,
            stride: stride as i32,
            offset: offset as i32,
        }),
{
    GlCall::VertexAttribPointer {
        index: index as u32,
        size: size.gl_size(),
        data_type: data_type.gl_enum(),
        normalised,
        stride: stride as i32,
        offset: offset as i32,
    }
}

/// Describes where and how the integer attribute `index` is read from the bound array
/// buffer: `stride` and `offset` are in bytes.
pub fn VertexAttribIPointer(index: u8, size: IntegralAttribSize, data_type: IntegralDataType,
    stride: usize, offset: usize) -> (r: GlCall)
    requires
        stride <= i32::MAX,
    ensures
        r == (GlCall::VertexAttribIPointer {
            index: index as u32,
            size: size.spec_gl_size(),
            data_type: data_type.spec_gl_enum(),
            stride: stride as i32,
            offset,
        }),
{
    GlCall::VertexAttribIPointer {
        index: index as u32,
        size: size.gl_size(),
        data_type: data_type.gl_enum(),
        stride: stride as i32,
        offset,
    }
}

/// Reads the single integer state `parameter`.
pub fn GetIntegerv(parameter: Parameter) -> (r: GlCall)
    ensures
        r == (GlCall::GetIntegerv { parameter: parameter.spec_gl_enum() }),
{
    GlCall::GetIntegerv { parameter: parameter.gl_enum() }
}

/// Creates a shader object of the given stage; the driver answers with its name, or 0.
pub fn CreateShader(shader_type: ShaderType) -> (r: GlCall)
    ensures
        r == (GlCall::CreateShader { shader_type: shader_type.spec_gl_enum() }),
{
    GlCall::CreateShader { shader_type: shader_type.gl_enum() }
}

/// Flags the shader object `shader` for deletion.
pub fn DeleteShader(shader: u32) -> (r: GlCall)
    ensures
        r == (GlCall::DeleteShader { shader }),
{
    GlCall::DeleteShader { shader }
}

/// Replaces the source of `shader` with the concatenation of `sources`. The driver takes
/// nul-terminated strings, so a source holding a nul cannot be passed.
pub fn ShaderSource(shader: u32, sources: Vec<String>) -> (r: GlCall)
    requires
        sources.len() <= i32::MAX,
    ensures
        r matches GlCall::ShaderSource { shader: s, sources: v } && s == shader && v@ == sources@,
{
    GlCall::ShaderSource { shader, sources }
}

/// Compiles the source attached to `shader`.
pub fn CompileShader(shader: u32) -> (r: GlCall)
    ensures
        r == (GlCall::CompileShader { shader }),
{
    GlCall::CompileShader { shader }
}

/// Attaches `shader` to `program`.
pub fn AttachShader(program: u32, shader: u32) -> (r: GlCall)
    ensures
        r == (GlCall::AttachShader { program, shader }),
{
    GlCall::AttachShader { program, shader }
}

/// Detaches `shader` from `program`.
pub fn DetachShader(program: u32, shader: u32) -> (r: GlCall)
    ensures
        r == (GlCall::DetachShader { program, shader }),
{
    GlCall::DetachShader { program, shader }
}

/// Reads one property of `shader`.
pub fn GetShaderiv(shader: u32, parameter: ShaderParameter) -> (r: GlCall)
    ensures
        r == (GlCall::GetShaderiv { shader, parameter: parameter.spec_gl_enum() }),
{
    GlCall::GetShaderiv { shader, parameter: parameter.gl_enum() }
}

/// Reads the information log of `shader` into a buffer of `capacity` bytes.
pub fn GetShaderInfoLog(shader: u32, capacity: usize) -> (r: GlCall)
    requires
        capacity <= i32::MAX,
    ensures
        r == (GlCall::GetShaderInfoLog { shader, capacity: capacity as i32 }),
{
    GlCall::GetShaderInfoLog { shader, capacity: capacity as i32 }
}

/// Creates a program object; the driver answers with its name, or 0.
pub fn CreateProgram() -> (r: GlCall)
    ensures
        r == GlCall::CreateProgram,
{
    GlCall::CreateProgram
}

/// Links the shaders attached to `program`.
pub fn LinkProgram(program: u32) -> (r: GlCall)
    ensures
        r == (GlCall::LinkProgram { program }),
{
    GlCall::LinkProgram { program }
}

/// Reads one property of `program`.
pub fn GetProgramiv(program: u32, parameter: ProgramParameter) -> (r: GlCall)
    ensures
        r == (GlCall::GetProgramiv { program, parameter: parameter.spec_gl_enum() }),
{
    GlCall::GetProgramiv { program, parameter: parameter.gl_enum() }
}

/// Reads the information log of `program` into a buffer of `capacity` bytes.
pub fn GetProgramInfoLog(program: u32, capacity: usize) -> (r: GlCall)
    requires
        capacity <= i32::MAX,
    ensures
        r == (GlCall::GetProgramInfoLog { program, capacity: capacity as i32 }),
{
    GlCall::GetProgramInfoLog { program, capacity: capacity as i32 }
}

/// Installs `program` (or none, for 0) as part of the current rendering state.
pub fn UseProgram(program: u32) -> (r: GlCall)
    ensures
        r == (GlCall::UseProgram { program }),
{
    GlCall::UseProgram { program }
}

/// Flags `program` for deletion.
pub fn DeleteProgram(program: u32) -> (r: GlCall)
    ensures
        r == (GlCall::DeleteProgram { program }),
{
    GlCall::DeleteProgram { program }
}

/// Draws `count` indexed vertices, reading indices of `index_type` from byte `offset` of
/// the bound element buffer.
pub fn DrawElements(mode: DrawMode, count: usize, index_type: IndexType, offset: usize) -> (r: GlCall)
    requires
        count <= i32::MAX,
    ensures
        r == (GlCall::DrawElements {
            mode: mode.spec_gl_enum(),
            count: count as i32,
            index_type: index_type.spec_gl_enum(),
            offset,
        }),
{
    GlCall::DrawElements {
        mode: mode.gl_enum(),
        count: count as i32,
        index_type: index_type.gl_enum(),
        offset,
    }
}

/// Draws `count` vertices of the enabled arrays, starting from vertex `first`.
pub fn DrawArrays(mode: DrawMode, first: usize, count: usize) -> (r: GlCall)
    requires
        first <= i32::MAX,
        count <= i32::MAX,
    ensures
        r == (GlCall::DrawArrays { mode: mode.spec_gl_enum(), first: first as i32, count: count as i32 }),
{
    GlCall::DrawArrays { mode: mode.gl_enum(), first: first as i32, count: count as i32 }
}

} // verus!
