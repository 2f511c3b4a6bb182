//! The typed layer: GL object names wrapped in their own types, vertex formats that can only
//! be combined in the ways the GL accepts, and GL error codes and query answers decoded into
//! results.
//!
//! An operation that needs one call is a function returning that [`GlCall`]; its outcome is
//! decoded from the error codes `glGetError` reported after it (see [`last_error_as_result`])
//! and, for queries, from what the call handed back. Operations that need several calls in
//! turn ([`compile_shader`], [`link_program`], reading an information log) are small state
//! machines: each step takes what the previous call produced and names the next call, or the
//! result.
use vstd::prelude::*;
use crate::codes;
use crate::safe_bindings::{self, AttribSize, BufferType, BufferUsage, DataType, DrawMode, Error,
    GlCall, IndexType, IntegralAttribSize, IntegralDataType, ShaderType, is_reported_error};
use crate::traits::{ByteOrder, ToByteVec};

verus! {

/// What the driver handed back for one call.
#[derive(Clone, Debug, PartialEq, Eq)]
pub enum Reply {
    /// The call returns nothing.
    Nothing,
    /// A single name, as `glCreateShader` and `glCreateProgram` return.
    Name(u32),
    /// The names written by `glGenBuffers` or `glGenVertexArrays`.
    Names(Vec<u32>),
    /// The integer written by `glGetIntegerv`, `glGetShaderiv` or `glGetProgramiv`.
    Integer(i32),
    /// The bytes written by `glGetShaderInfoLog` or `glGetProgramInfoLog`.
    Log(Vec<u8>),
}

/// The integer in a reply that carries one, else 0.
pub open spec fn reply_integer(reply: Reply) -> i32 {
    match reply {
        Reply::Integer(n) => n,
        _ => 0,
    }
}

/// The bytes in a reply that carries a log, else none.
pub open spec fn reply_log(reply: Reply) -> Seq<u8> {
    match reply {
        Reply::Log(bytes) => bytes@,
        _ => Seq::empty(),
    }
}

/// The name in a reply that carries one, else 0.
pub open spec fn reply_name(reply: Reply) -> u32 {
    match reply {
        Reply::Name(n) => n,
        _ => 0,
    }
}

/// What went wrong in a shader or program operation.
#[derive(Clone, Debug, PartialEq, Eq)]
pub enum ShaderError {
    CompilationFailed { info_log: String },
    CreationFailed,
    ProgramCreationFailed,
    LinkingFailed { info_log: String },
}

impl ShaderError {
    pub open spec fn spec_message(&self) -> Seq<char> {
        match self {
            ShaderError::CompilationFailed { info_log } => "shader compilation failed\n"@ + info_log@,
            ShaderError::CreationFailed => "shader creation failed"@,
            ShaderError::ProgramCreationFailed => "shader program creation failed"@,
            ShaderError::LinkingFailed { info_log } => "shader program linking failed\n"@ + info_log@,
        }
    }

    /// A description of the failure, followed by the driver's log where there is one.
    pub fn message(&self) -> (r: String)
        ensures
            r@ == self.spec_message(),
    {
        match self {
            ShaderError::CompilationFailed { info_log } => {
                String::from_str("shader compilation failed\n").concat(info_log.as_str())
            },
            ShaderError::CreationFailed => String::from_str("shader creation failed"),
            ShaderError::ProgramCreationFailed => String::from_str("shader program creation failed"),
            ShaderError::LinkingFailed { info_log } => {
                String::from_str("shader program linking failed\n").concat(info_log.as_str())
            },
        }
    }
}

/// An error of the typed layer: one the driver reported, or a failed shader operation.
#[derive(Clone, Debug, PartialEq, Eq)]
pub enum OxError {
    BaseError(Error),
    ShaderError(ShaderError),
}

impl OxError {
    pub open spec fn spec_message(&self) -> Seq<char> {
        match self {
            OxError::BaseError(e) => e.spec_message(),
            OxError::ShaderError(e) => e.spec_message(),
        }
    }

    /// The description of the underlying error.
    pub fn message(&self) -> (r: String)
        ensures
            r@ == self.spec_message(),
    {
        match self {
            OxError::BaseError(e) => e.message(),
            OxError::ShaderError(e) => e.message(),
        }
    }
}

pub open spec fn all_reported(errors: Seq<u32>) -> bool {
    forall|i: int| 0 <= i < errors.len() ==> is_reported_error(#[trigger] errors[i])
}

/// The driver error that the last of `errors` stands for.
pub open spec fn last_base_error(errors: Seq<u32>) -> OxError {
    OxError::BaseError(Error::spec_from_code(errors.last()))
}

/// Whether `r` is the driver error with code `code`.
pub open spec fn is_base_error(r: OxError, code: u32) -> bool {
    r == OxError::BaseError(Error::spec_from_code(code))
}

/// The error that stands for a call's outcome: the last of the codes `glGetError` reported
/// after it (read until it answered `GL_NO_ERROR`), or none when it reported none.
pub fn last_error(errors: &Vec<u32>) -> (r: Option<OxError>)
    requires
        all_reported(errors@),
    ensures
        errors@.len() == 0 ==> r is None,
        errors@.len() > 0 ==> (r matches Some(e) && is_base_error(e, errors@.last())),
{
    if errors.len() == 0 {
        None
    } else {
        let code = errors[errors.len() - 1];
        Some(OxError::BaseError(Error::from_code(code)))
    }
}

/// [`last_error`] as a result: `Ok` when the driver reported no error.
pub fn last_error_as_result(errors: &Vec<u32>) -> (r: Result<(), OxError>)
    requires
        all_reported(errors@),
    ensures
        errors@.len() == 0 ==> r is Ok,
        errors@.len() > 0 ==> (r matches Err(e) && is_base_error(e, errors@.last())),
{
    match last_error(errors) {
        None => Ok(()),
        Some(e) => Err(e),
    }
}

//
// Buffers
//

/// The name of a buffer object.
#[derive(Clone, Copy, Debug, PartialEq, Eq, Hash, Structural)]
pub struct Buffer(pub u32);

/// Asks for `count` new buffers; the driver answers with their names.
pub fn gen_buffers(count: usize) -> (r: GlCall)
    requires
        count <= i32::MAX,
    ensures
        r == (GlCall::GenBuffers { count: count as i32 }),
{
    safe_bindings::GenBuffers(count)
}

/// Asks for one new buffer; the driver answers with its name.
pub fn gen_buffer() -> (r: GlCall)
    ensures
        r == (GlCall::GenBuffers { count: 1 }),
{
    safe_bindings::GenBuffer()
}

/// The buffers with the names the driver answered.
pub fn buffers_from_names(names: &Vec<u32>) -> (r: Vec<Buffer>)
    ensures
        r@.len() == names@.len(),
        forall|i: int| 0 <= i < names@.len() ==> #[trigger] r@[i] == Buffer(names@[i]),
{
    let mut out: Vec<Buffer> = Vec::new();
    let mut i: usize = 0;
    while i < names.len()
        invariant
            i <= names.len(),
            out@.len() == i,
            forall|k: int| 0 <= k < i ==> #[trigger] out@[k] == Buffer(names@[k]),
        decreases names.len() - i,
    {
        out.push(Buffer(names[i]));
        i = i + 1;
    }
    out
}

/// Deletes the given buffers.
pub fn delete_buffers(buffers: Vec<Buffer>) -> (r: GlCall)
    requires
        buffers.len() <= i32::MAX,
    ensures
        r matches GlCall::DeleteBuffers { names } && names@.len() == buffers@.len()
            && forall|i: int| 0 <= i < buffers@.len() ==> #[trigger] names@[i] == buffers@[i].0,
{
    let mut names: Vec<u32> = Vec::new();
    let mut i: usize = 0;
    while i < buffers.len()
        invariant
            i <= buffers.len(),
            names@.len() == i,
            forall|k: int| 0 <= k < i ==> #[trigger] names@[k] == buffers@[k].0,
        decreases buffers.len() - i,
    {
        names.push(buffers[i].0);
        i = i + 1;
    }
    safe_bindings::DeleteBuffers(names)
}

/// Deletes the given buffer.
pub fn delete_buffer(buffer: Buffer) -> (r: GlCall)
    ensures
        is_delete_buffer_call(r, buffer),
{
    safe_bindings::DeleteBuffer(buffer.0)
}

pub open spec fn spec_bind_buffer(target: BufferType, buffer: Option<Buffer>) -> GlCall {
    GlCall::BindBuffer { target: target.spec_gl_enum(), buffer: match buffer { Some(b) => b.0, None => 0 } }
}

/// `call` deletes exactly `buffer`.
pub open spec fn is_delete_buffer_call(call: GlCall, buffer: Buffer) -> bool {
    call matches GlCall::DeleteBuffers { names } && names@ == seq![buffer.0]
}

/// `call` gives the buffer bound to `target` the bytes of `data`, in one byte order or the
/// other.
pub open spec fn is_buffer_data_call<T: ToByteVec>(call: GlCall, target: BufferType, data: Vec<T>, usage: BufferUsage) -> bool {
    call matches GlCall::BufferData { target: t, data: d, usage: u }
        && t == target.spec_gl_enum() && u == usage.spec_gl_enum()
        && (d@ == data.spec_bytes(ByteOrder::Little) || d@ == data.spec_bytes(ByteOrder::Big))
}

/// `call` writes the bytes of `subdata` into the buffer bound to `target`, `offset` items in.
pub open spec fn is_buffer_subdata_call<T: ToByteVec>(call: GlCall, target: BufferType, subdata: Vec<T>, offset: usize) -> bool {
    call matches GlCall::BufferSubData { target: t, offset: o, data: d }
        && t == target.spec_gl_enum() && o == subdata_byte_offset(subdata@, offset)
        && (d@ == subdata.spec_bytes(ByteOrder::Little) || d@ == subdata.spec_bytes(ByteOrder::Big))
}

/// Binds `buffer` to `target`, or unbinds `target` for `None`.
pub fn bind_buffer(target: BufferType, buffer: Option<Buffer>) -> (r: GlCall)
    ensures
        r == spec_bind_buffer(target, buffer),
{
    let name: u32 = match buffer {
        Some(b) => b.0,
        None => 0,
    };
    safe_bindings::BindBuffer(target, name)
}

/// Replaces the data of the buffer bound to `target` with the bytes of `data`, in the
/// machine's byte order.
pub fn buffer_data<T: ToByteVec>(target: BufferType, data: Vec<T>, usage: BufferUsage) -> (r: GlCall)
    ensures
        is_buffer_data_call(r, target, data, usage),
{
    let bytes = data.to_byte_vec();
    safe_bindings::BufferData(target, bytes, usage)
}

/// The byte offset at which [`buffer_subdata`] writes: `offset` counts items of `subdata`.
pub open spec fn subdata_byte_offset<T: ToByteVec>(subdata: Seq<T>, offset: usize) -> int {
    if subdata.len() > 0 {
        offset * subdata[0].spec_stride()
    } else {
        0
    }
}

/// Overwrites part of the buffer bound to `target` with the bytes of `subdata`, starting
/// `offset` items of `subdata`'s type into the buffer.
pub fn buffer_subdata<T: ToByteVec>(target: BufferType, subdata: Vec<T>, offset: usize) -> (r: GlCall)
    requires
        subdata_byte_offset(subdata@, offset) <= isize::MAX,
    ensures
        is_buffer_subdata_call(r, target, subdata, offset),
{
    let byte_offset: usize = if subdata.len() > 0 && offset > 0 {
        proof {
            let s = subdata@[0].spec_stride();
            assert(s <= offset * s) by (nonlinear_arith)
                requires
                    offset >= 1,
            ;
        }
        let stride = subdata[0].stride();
        offset * stride.0
    } else {
        assert(subdata@.len() > 0 ==> offset * subdata@[0].spec_stride() == 0) by (nonlinear_arith)
            requires
                subdata@.len() == 0 || offset == 0,
        ;
        0
    };
    let bytes = subdata.to_byte_vec();
    safe_bindings::BufferSubData(target, bytes, byte_offset)
}


//
// Vertex array objects
//

/// The name of a vertex array object.
#[derive(Clone, Copy, Debug, PartialEq, Eq, Hash, Structural)]
pub struct VertexArray(pub u32);

/// Asks for `count` new vertex arrays; the driver answers with their names.
pub fn gen_vertex_arrays(count: usize) -> (r: GlCall)
    requires
        count <= i32::MAX,
    ensures
        r == (GlCall::GenVertexArrays { count: count as i32 }),
{
    safe_bindings::GenVertexArrays(count)
}

/// Asks for one new vertex array; the driver answers with its name.
pub fn gen_vertex_array() -> (r: GlCall)
    ensures
        r == (GlCall::GenVertexArrays { count: 1 }),
{
    safe_bindings::GenVertexArray()
}

/// Deletes the given vertex arrays.
pub fn delete_vertex_arrays(vertex_arrays: Vec<VertexArray>) -> (r: GlCall)
    requires
        vertex_arrays.len() <= i32::MAX,
    ensures
        r matches GlCall::DeleteVertexArrays { names } && names@.len() == vertex_arrays@.len()
            && forall|i: int| 0 <= i < vertex_arrays@.len() ==> #[trigger] names@[i] == vertex_arrays@[i].0,
{
    let mut names: Vec<u32> = Vec::new();
    let mut i: usize = 0;
    while i < vertex_arrays.len()
        invariant
            i <= vertex_arrays.len(),
            names@.len() == i,
            forall|k: int| 0 <= k < i ==> #[trigger] names@[k] == vertex_arrays@[k].0,
        decreases vertex_arrays.len() - i,
    {
        names.push(vertex_arrays[i].0);
        i = i + 1;
    }
    safe_bindings::DeleteVertexArrays(names)
}

/// Deletes the given vertex array.
pub fn delete_vertex_array(vertex_array: VertexArray) -> (r: GlCall)
    ensures
        r matches GlCall::DeleteVertexArrays { names } && names@ == seq![vertex_array.0],
{
    safe_bindings::DeleteVertexArray(vertex_array.0)
}

pub open spec fn spec_bind_vertex_array(vertex_array: Option<VertexArray>) -> GlCall {
    GlCall::BindVertexArray { array: match vertex_array { Some(v) => v.0, None => 0 } }
}

/// Binds `vertex_array`, or unbinds the current one for `None`.
pub fn bind_vertex_array(vertex_array: Option<VertexArray>) -> (r: GlCall)
    ensures
        r == spec_bind_vertex_array(vertex_array),
{
    let name: u32 = match vertex_array {
        Some(v) => v.0,
        None => 0,
    };
    safe_bindings::BindVertexArray(name)
}

/// Enables the attribute array `attribute_index` of the bound vertex array.
pub fn enable_vertex_attrib_array(attribute_index: u8) -> (r: GlCall)
    ensures
        r == (GlCall::EnableVertexAttribArray { index: attribute_index as u32 }),
{
    safe_bindings::EnableVertexAttribArray(attribute_index)
}

/// The component types accepted for one- and two-component float attributes.
#[derive(Clone, Copy, Debug, PartialEq, Eq, Hash, Structural)]
pub enum DataTypeUnsized {
    Byte,
    UnsignedByte,
    Short,
    UnsignedShort,
    Int,
    UnsignedInt,
    HalfFloat,
    Float,
    Double,
    Fixed,
}

impl DataTypeUnsized {
    pub open spec fn spec_data_type(self) -> DataType {
        match self {
            DataTypeUnsized::Byte => DataType::Byte,
            DataTypeUnsized::UnsignedByte => DataType::UnsignedByte,
            DataTypeUnsized::Short => DataType::Short,
            DataTypeUnsized::UnsignedShort => DataType::UnsignedShort,
            DataTypeUnsized::Int => DataType::Int,
            DataTypeUnsized::UnsignedInt => DataType::UnsignedInt,
            DataTypeUnsized::HalfFloat => DataType::HalfFloat,
            DataTypeUnsized::Float => DataType::Float,
            DataTypeUnsized::Double => DataType::Double,
            DataTypeUnsized::Fixed => DataType::Fixed,
        }
    }

    /// The same type as a [`DataType`].
    pub fn data_type(self) -> (r: DataType)
        ensures
            r == self.spec_data_type(),
    {
        match self {
            DataTypeUnsized::Byte => DataType::Byte,
            DataTypeUnsized::UnsignedByte => DataType::UnsignedByte,
            DataTypeUnsized::Short => DataType::Short,
            DataTypeUnsized::UnsignedShort => DataType::UnsignedShort,
            DataTypeUnsized::Int => DataType::Int,
            DataTypeUnsized::UnsignedInt => DataType::UnsignedInt,
            DataTypeUnsized::HalfFloat => DataType::HalfFloat,
            DataTypeUnsized::Float => DataType::Float,
            DataTypeUnsized::Double => DataType::Double,
            DataTypeUnsized::Fixed => DataType::Fixed,
        }
    }
}

/// The component types accepted for three-component float attributes.
#[derive(Clone, Copy, Debug, PartialEq, Eq, Hash, Structural)]
pub enum DataTypeSize3 {
    Byte,
    UnsignedByte,
    Short,
    UnsignedShort,
    Int,
    UnsignedInt,
    HalfFloat,
    Float,
    Double,
    Fixed,
    UnsignedInt10f11f11fRev,
}

impl DataTypeSize3 {
    pub open spec fn spec_data_type(self) -> DataType {
        match self {
            DataTypeSize3::Byte => DataType::Byte,
            DataTypeSize3::UnsignedByte => DataType::UnsignedByte,
            DataTypeSize3::Short => DataType::Short,
            DataTypeSize3::UnsignedShort => DataType::UnsignedShort,
            DataTypeSize3::Int => DataType::Int,
            DataTypeSize3::UnsignedInt => DataType::UnsignedInt,
            DataTypeSize3::HalfFloat => DataType::HalfFloat,
            DataTypeSize3::Float => DataType::Float,
            DataTypeSize3::Double => DataType::Double,
            DataTypeSize3::Fixed => DataType::Fixed,
            DataTypeSize3::UnsignedInt10f11f11fRev => DataType::UnsignedInt10f11f11fRev,
        }
    }

    /// The same type as a [`DataType`].
    pub fn data_type(self) -> (r: DataType)
        ensures
            r == self.spec_data_type(),
    {
        match self {
            DataTypeSize3::Byte => DataType::Byte,
            DataTypeSize3::UnsignedByte => DataType::UnsignedByte,
            DataTypeSize3::Short => DataType::Short,
            DataTypeSize3::UnsignedShort => DataType::UnsignedShort,
            DataTypeSize3::Int => DataType::Int,
            DataTypeSize3::UnsignedInt => DataType::UnsignedInt,
            DataTypeSize3::HalfFloat => DataType::HalfFloat,
            DataTypeSize3::Float => DataType::Float,
            DataTypeSize3::Double => DataType::Double,
            DataTypeSize3::Fixed => DataType::Fixed,
            DataTypeSize3::UnsignedInt10f11f11fRev => DataType::UnsignedInt10f11f11fRev,
        }
    }
}

/// The component types accepted for four-component float attributes.
#[derive(Clone, Copy, Debug, PartialEq, Eq, Hash, Structural)]
pub enum DataTypeSize4 {
    Byte,
    UnsignedByte,
    Short,
    UnsignedShort,
    Int,
    UnsignedInt,
    HalfFloat,
    Float,
    Double,
    Fixed,
    Int2_10_10_10Rev,
    UnsignedInt2_10_10_10Rev,
}

impl DataTypeSize4 {
    pub open spec fn spec_data_type(self) -> DataType {
        match self {
            DataTypeSize4::Byte => DataType::Byte,
            DataTypeSize4::UnsignedByte => DataType::UnsignedByte,
            DataTypeSize4::Short => DataType::Short,
            DataTypeSize4::UnsignedShort => DataType::UnsignedShort,
            DataTypeSize4::Int => DataType::Int,
            DataTypeSize4::UnsignedInt => DataType::UnsignedInt,
            DataTypeSize4::HalfFloat => DataType::HalfFloat,
            DataTypeSize4::Float => DataType::Float,
            DataTypeSize4::Double => DataType::Double,
            DataTypeSize4::Fixed => DataType::Fixed,
            DataTypeSize4::Int2_10_10_10Rev => DataType::Int2_10_10_10Rev,
            DataTypeSize4::UnsignedInt2_10_10_10Rev => DataType::UnsignedInt2_10_10_10Rev,
        }
    }

    /// The same type as a [`DataType`].
    pub fn data_type(self) -> (r: DataType)
        ensures
            r == self.spec_data_type(),
    {
        match self {
            DataTypeSize4::Byte => DataType::Byte,
            DataTypeSize4::UnsignedByte => DataType::UnsignedByte,
            DataTypeSize4::Short => DataType::Short,
            DataTypeSize4::UnsignedShort => DataType::UnsignedShort,
            DataTypeSize4::Int => DataType::Int,
            DataTypeSize4::UnsignedInt => DataType::UnsignedInt,
            DataTypeSize4::HalfFloat => DataType::HalfFloat,
            DataTypeSize4::Float => DataType::Float,
            DataTypeSize4::Double => DataType::Double,
            DataTypeSize4::Fixed => DataType::Fixed,
            DataTypeSize4::Int2_10_10_10Rev => DataType::Int2_10_10_10Rev,
            DataTypeSize4::UnsignedInt2_10_10_10Rev => DataType::UnsignedInt2_10_10_10Rev,
        }
    }
}

/// The component types accepted for attributes stored in BGRA order.
#[derive(Clone, Copy, Debug, PartialEq, Eq, Hash, Structural)]
pub enum DataTypeSizeBgra {
    UnsignedByte,
    Int2_10_10_10Rev,
    UnsignedInt2_10_10_10Rev,
}

impl DataTypeSizeBgra {
    pub open spec fn spec_data_type(self) -> DataType {
        match self {
            DataTypeSizeBgra::UnsignedByte => DataType::UnsignedByte,
            DataTypeSizeBgra::Int2_10_10_10Rev => DataType::Int2_10_10_10Rev,
            DataTypeSizeBgra::UnsignedInt2_10_10_10Rev => DataType::UnsignedInt2_10_10_10Rev,
        }
    }

    /// The same type as a [`DataType`].
    pub fn data_type(self) -> (r: DataType)
        ensures
            r == self.spec_data_type(),
    {
        match self {
            DataTypeSizeBgra::UnsignedByte => DataType::UnsignedByte,
            DataTypeSizeBgra::Int2_10_10_10Rev => DataType::Int2_10_10_10Rev,
            DataTypeSizeBgra::UnsignedInt2_10_10_10Rev => DataType::UnsignedInt2_10_10_10Rev,
        }
    }
}

/// A layout of a floating-point vertex attribute in its buffer. Only the combinations of
/// size, type and normalisation that the GL accepts can be written: BGRA only with its three
/// types and never normalised, the packed 10/11-bit type only with three components, the
/// packed 2/10-bit types only with four components or BGRA.
#[derive(Clone, Copy, Debug, PartialEq, Eq, Hash, Structural)]
#[allow(inconsistent_fields)]
pub enum FloatVertexFormat {
    Size1 { normalise: bool, data_type: DataTypeUnsized },
    Size2 { normalise: bool, data_type: DataTypeUnsized },
    Size3 { normalise: bool, data_type: DataTypeSize3 },
    Size4 { normalise: bool, data_type: DataTypeSize4 },
    SizeBgra(DataTypeSizeBgra),
}

impl FloatVertexFormat {
    /// The size, component type and normalisation that `glVertexAttribPointer` takes.
    pub open spec fn spec_parts(self) -> (AttribSize, DataType, bool) {
        match self {
            FloatVertexFormat::Size1 { normalise, data_type } => (AttribSize::One, data_type.spec_data_type(), normalise),
            FloatVertexFormat::Size2 { normalise, data_type } => (AttribSize::Two, data_type.spec_data_type(), normalise),
            FloatVertexFormat::Size3 { normalise, data_type } => (AttribSize::Three, data_type.spec_data_type(), normalise),
            FloatVertexFormat::Size4 { normalise, data_type } => (AttribSize::Four, data_type.spec_data_type(), normalise),
            FloatVertexFormat::SizeBgra(data_type) => (AttribSize::Bgra, data_type.spec_data_type(), false),
        }
    }
}

pub open spec fn spec_vertex_attrib_pointer(attribute_index: u8, spec: FloatVertexFormat, stride: usize, offset: usize) -> GlCall {
    GlCall::VertexAttribPointer {
        index: attribute_index as u32,
        size: spec.spec_parts().0.spec_gl_size(),
        data_type: spec.spec_parts().1.spec_gl_enum(),
        normalised: spec.spec_parts().2,
        stride: stride as i32,
        offset: offset as i32,
    }
}

/// Describes how the float attribute `attribute_index` is read from the bound array buffer:
/// items `stride` bytes apart, the first `offset` bytes in.
pub fn vertex_attrib_pointer(attribute_index: u8, spec: FloatVertexFormat, stride: usize, offset: usize) -> (r: GlCall)
    requires
        stride <= i32::MAX,
        offset <= i32::MAX,
    ensures
        r == spec_vertex_attrib_pointer(attribute_index, spec, stride, offset),
{
    let (size, data_type, normalise) = match spec {
        FloatVertexFormat::Size1 { normalise, data_type } => (AttribSize::One, data_type.data_type(), normalise),
        FloatVertexFormat::Size2 { normalise, data_type } => (AttribSize::Two, data_type.data_type(), normalise),
        FloatVertexFormat::Size3 { normalise, data_type } => (AttribSize::Three, data_type.data_type(), normalise),
        FloatVertexFormat::Size4 { normalise, data_type } => (AttribSize::Four, data_type.data_type(), normalise),
        FloatVertexFormat::SizeBgra(data_type) => (AttribSize::Bgra, data_type.data_type(), false),
    };
    safe_bindings::VertexAttribPointer(attribute_index, size, data_type, normalise, stride, offset)
}

/// A layout of an integer vertex attribute in its buffer.
#[derive(Clone, Copy, Debug, PartialEq, Eq, Hash, Structural)]
pub enum IntegralVertexFormat {
    Size1(IntegralDataType),
    Size2(IntegralDataType),
    Size3(IntegralDataType),
    Size4(IntegralDataType),
}

impl IntegralVertexFormat {
    /// The size and component type that `glVertexAttribIPointer` takes.
    pub open spec fn spec_parts(self) -> (IntegralAttribSize, IntegralDataType) {
        match self {
            IntegralVertexFormat::Size1(t) => (IntegralAttribSize::One, t),
            IntegralVertexFormat::Size2(t) => (IntegralAttribSize::Two, t),
            IntegralVertexFormat::Size3(t) => (IntegralAttribSize::Three, t),
            IntegralVertexFormat::Size4(t) => (IntegralAttribSize::Four, t),
        }
    }
}

pub open spec fn spec_vertex_attrib_i_pointer(attribute_index: u8, spec: IntegralVertexFormat, stride: usize, offset: usize) -> GlCall {
    GlCall::VertexAttribIPointer {
        index: attribute_index as u32,
        size: spec.spec_parts().0.spec_gl_size(),
        data_type: spec.spec_parts().1.spec_gl_enum(),
        stride: stride as i32,
        offset,
    }
}

/// Describes how the integer attribute `attribute_index` is read from the bound array
/// buffer: items `stride` bytes apart, the first `offset` bytes in.
pub fn vertex_attrib_i_pointer(attribute_index: u8, spec: IntegralVertexFormat, stride: usize, offset: usize) -> (r: GlCall)
    requires
        stride <= i32::MAX,
    ensures
        r == spec_vertex_attrib_i_pointer(attribute_index, spec, stride, offset),
{
    let (size, data_type) = match spec {
        IntegralVertexFormat::Size1(t) => (IntegralAttribSize::One, t),
        IntegralVertexFormat::Size2(t) => (IntegralAttribSize::Two, t),
        IntegralVertexFormat::Size3(t) => (IntegralAttribSize::Three, t),
        IntegralVertexFormat::Size4(t) => (IntegralAttribSize::Four, t),
    };
    safe_bindings::VertexAttribIPointer(attribute_index, size, data_type, stride, offset)
}

//
// Queries
//

/// The single unsigned integer states that [`get_uint`] reads.
#[derive(Clone, Copy, Debug, PartialEq, Eq, Hash, Structural)]
pub enum UIntParameter {
    MaxVertexAttribs,
    ArrayBufferBinding,
    ElementBufferBinding,
    MaxComputeShaderStorageBlocks,
}

impl UIntParameter {
    pub open spec fn spec_parameter(self) -> safe_bindings::Parameter {
        match self {
            UIntParameter::MaxVertexAttribs => safe_bindings::Parameter::MaxVertexAttribs,
            UIntParameter::ArrayBufferBinding => safe_bindings::Parameter::ArrayBufferBinding,
            UIntParameter::ElementBufferBinding => safe_bindings::Parameter::ElementBufferBinding,
            UIntParameter::MaxComputeShaderStorageBlocks => safe_bindings::Parameter::MaxComputeShaderStorageBlocks,
        }
    }
}

/// Reads an unsigned integer state; the driver answers with one integer, which
/// [`uint_from_reply`] turns into the value.
pub fn get_uint(parameter: UIntParameter) -> (r: GlCall)
    ensures
        r == (GlCall::GetIntegerv { parameter: parameter.spec_parameter().spec_gl_enum() }),
{
    let p = match parameter {
        UIntParameter::MaxVertexAttribs => safe_bindings::Parameter::MaxVertexAttribs,
        UIntParameter::ArrayBufferBinding => safe_bindings::Parameter::ArrayBufferBinding,
        UIntParameter::ElementBufferBinding => safe_bindings::Parameter::ElementBufferBinding,
        UIntParameter::MaxComputeShaderStorageBlocks => safe_bindings::Parameter::MaxComputeShaderStorageBlocks,
    };
    safe_bindings::GetIntegerv(p)
}

/// The value of an unsigned state from the integer `glGetIntegerv` wrote, reinterpreted as
/// unsigned; those states are never negative.
pub fn uint_from_reply(data: i32) -> (r: u32)
    ensures
        r == data as u32,
{
    data as u32
}


//
// Shaders and programs
//

/// The name of a shader object.
#[derive(Clone, Copy, Debug, PartialEq, Eq, Hash, Structural)]
pub struct Shader(pub u32);

/// The name of a program object.
#[derive(Clone, Copy, Debug, PartialEq, Eq, Hash, Structural)]
pub struct ShaderProgram(pub u32);

/// Whether a shader's last compilation succeeded.
#[derive(Clone, Copy, Debug, PartialEq, Eq, Hash, Structural)]
pub enum ShaderCompileStatus {
    Succeeded,
    Failed,
}

/// Whether a shader has been flagged for deletion.
#[derive(Clone, Copy, Debug, PartialEq, Eq, Hash, Structural)]
pub enum ShaderDeleteStatus {
    Valid,
    Deleted,
}

/// Whether a program's last link succeeded.
#[derive(Clone, Copy, Debug, PartialEq, Eq, Hash, Structural)]
pub enum LinkStatus {
    Succeeded,
    Failed,
}

/// A boolean that `glGetShaderiv` or `glGetProgramiv` wrote: `GL_TRUE` or `GL_FALSE` in its
/// low byte.
pub open spec fn is_gl_boolean(data: i32) -> bool {
    data as u8 == codes::TRUE || data as u8 == codes::FALSE
}

/// What a boolean query answered, given the errors reported after it and the integer it wrote.
pub open spec fn query_answered(errors: Seq<u32>, data: i32) -> bool {
    all_reported(errors) && (errors.len() == 0 ==> is_gl_boolean(data))
}

/// Creates a shader of the given stage; the driver answers with its name, or 0.
pub fn create_shader(shader_type: ShaderType) -> (r: GlCall)
    ensures
        r == (GlCall::CreateShader { shader_type: shader_type.spec_gl_enum() }),
{
    safe_bindings::CreateShader(shader_type)
}

/// The shader the driver created, from the name it answered: 0 means creation failed.
pub fn created_shader(name: u32) -> (r: Result<Shader, OxError>)
    ensures
        name == 0 ==> r == Err::<Shader, OxError>(OxError::ShaderError(ShaderError::CreationFailed)),
        name != 0 ==> r == Ok::<Shader, OxError>(Shader(name)),
{
    if name == 0 {
        Err(OxError::ShaderError(ShaderError::CreationFailed))
    } else {
        Ok(Shader(name))
    }
}

/// Flags `shader` for deletion.
pub fn delete_shader(shader: Shader) -> (r: GlCall)
    ensures
        r == (GlCall::DeleteShader { shader: shader.0 }),
{
    safe_bindings::DeleteShader(shader.0)
}

/// Replaces the source of `shader` with the concatenation of `sources`.
pub fn shader_source(shader: Shader, sources: Vec<String>) -> (r: GlCall)
    requires
        sources.len() <= i32::MAX,
    ensures
        r matches GlCall::ShaderSource { shader: n, sources: v } && n == shader.0 && v@ == sources@,
{
    safe_bindings::ShaderSource(shader.0, sources)
}

/// Asks whether `shader` compiled; [`compile_status_from_reply`] decodes the answer.
pub fn get_shader_compile_status(shader: Shader) -> (r: GlCall)
    ensures
        r == (GlCall::GetShaderiv { shader: shader.0, parameter: codes::COMPILE_STATUS }),
{
    safe_bindings::GetShaderiv(shader.0, safe_bindings::ShaderParameter::CompileStatus)
}

/// The compile status from the errors reported after the query and the integer it wrote.
pub fn compile_status_from_reply(errors: &Vec<u32>, data: i32) -> (r: Result<ShaderCompileStatus, OxError>)
    requires
        query_answered(errors@, data),
    ensures
        errors@.len() > 0 ==> (r matches Err(e) && is_base_error(e, errors@.last())),
        errors@.len() == 0 && data as u8 == codes::TRUE ==> r == Ok::<ShaderCompileStatus, OxError>(ShaderCompileStatus::Succeeded),
        errors@.len() == 0 && data as u8 == codes::FALSE ==> r == Ok::<ShaderCompileStatus, OxError>(ShaderCompileStatus::Failed),
{
    match last_error(errors) {
        Some(e) => Err(e),
        None => if data as u8 == codes::TRUE {
            Ok(ShaderCompileStatus::Succeeded)
        } else {
            Ok(ShaderCompileStatus::Failed)
        },
    }
}

/// Asks whether `shader` is flagged for deletion; [`delete_status_from_reply`] decodes the
/// answer.
pub fn get_shader_delete_status(shader: Shader) -> (r: GlCall)
    ensures
        r == (GlCall::GetShaderiv { shader: shader.0, parameter: codes::DELETE_STATUS }),
{
    safe_bindings::GetShaderiv(shader.0, safe_bindings::ShaderParameter::DeleteStatus)
}

/// The delete status from the errors reported after the query and the integer it wrote.
pub fn delete_status_from_reply(errors: &Vec<u32>, data: i32) -> (r: Result<ShaderDeleteStatus, OxError>)
    requires
        query_answered(errors@, data),
    ensures
        errors@.len() > 0 ==> (r matches Err(e) && is_base_error(e, errors@.last())),
        errors@.len() == 0 && data as u8 == codes::TRUE ==> r == Ok::<ShaderDeleteStatus, OxError>(ShaderDeleteStatus::Deleted),
        errors@.len() == 0 && data as u8 == codes::FALSE ==> r == Ok::<ShaderDeleteStatus, OxError>(ShaderDeleteStatus::Valid),
{
    match last_error(errors) {
        Some(e) => Err(e),
        None => if data as u8 == codes::TRUE {
            Ok(ShaderDeleteStatus::Deleted)
        } else {
            Ok(ShaderDeleteStatus::Valid)
        },
    }
}

/// Asks for the length of the information log of `shader`, its nul included;
/// [`log_length_from_reply`] decodes the answer.
pub fn get_shader_info_log_length(shader: Shader) -> (r: GlCall)
    ensures
        r == (GlCall::GetShaderiv { shader: shader.0, parameter: codes::INFO_LOG_LENGTH }),
{
    safe_bindings::GetShaderiv(shader.0, safe_bindings::ShaderParameter::InfoLogLength)
}

/// A length from the errors reported after the query and the integer it wrote, which is
/// never negative.
pub fn log_length_from_reply(errors: &Vec<u32>, data: i32) -> (r: Result<usize, OxError>)
    requires
        all_reported(errors@),
        errors@.len() == 0 ==> data >= 0,
    ensures
        errors@.len() > 0 ==> (r matches Err(e) && is_base_error(e, errors@.last())),
        errors@.len() == 0 ==> r == Ok::<usize, OxError>(data as usize),
{
    match last_error(errors) {
        Some(e) => Err(e),
        None => Ok(data as usize),
    }
}

/// Creates a program; the driver answers with its name, or 0.
pub fn create_program() -> (r: GlCall)
    ensures
        r == GlCall::CreateProgram,
{
    safe_bindings::CreateProgram()
}

/// The program the driver created, from the name it answered: 0 means creation failed.
pub fn created_program(name: u32) -> (r: Result<ShaderProgram, OxError>)
    ensures
        name == 0 ==> r == Err::<ShaderProgram, OxError>(OxError::ShaderError(ShaderError::ProgramCreationFailed)),
        name != 0 ==> r == Ok::<ShaderProgram, OxError>(ShaderProgram(name)),
{
    if name == 0 {
        Err(OxError::ShaderError(ShaderError::ProgramCreationFailed))
    } else {
        Ok(ShaderProgram(name))
    }
}

/// Flags `program` for deletion.
pub fn delete_program(program: ShaderProgram) -> (r: GlCall)
    ensures
        r == (GlCall::DeleteProgram { program: program.0 }),
{
    safe_bindings::DeleteProgram(program.0)
}

/// Asks whether `program` linked; [`link_status_from_reply`] decodes the answer.
pub fn get_program_link_status(program: ShaderProgram) -> (r: GlCall)
    ensures
        r == (GlCall::GetProgramiv { program: program.0, parameter: codes::LINK_STATUS }),
{
    safe_bindings::GetProgramiv(program.0, safe_bindings::ProgramParameter::LinkStatus)
}

/// The link status from the errors reported after the query and the integer it wrote.
pub fn link_status_from_reply(errors: &Vec<u32>, data: i32) -> (r: Result<LinkStatus, OxError>)
    requires
        query_answered(errors@, data),
    ensures
        errors@.len() > 0 ==> (r matches Err(e) && is_base_error(e, errors@.last())),
        errors@.len() == 0 && data as u8 == codes::TRUE ==> r == Ok::<LinkStatus, OxError>(LinkStatus::Succeeded),
        errors@.len() == 0 && data as u8 == codes::FALSE ==> r == Ok::<LinkStatus, OxError>(LinkStatus::Failed),
{
    match last_error(errors) {
        Some(e) => Err(e),
        None => if data as u8 == codes::TRUE {
            Ok(LinkStatus::Succeeded)
        } else {
            Ok(LinkStatus::Failed)
        },
    }
}

/// Asks for the length of the information log of `program`, its nul included;
/// [`log_length_from_reply`] decodes the answer.
pub fn get_program_info_log_length(program: ShaderProgram) -> (r: GlCall)
    ensures
        r == (GlCall::GetProgramiv { program: program.0, parameter: codes::INFO_LOG_LENGTH }),
{
    safe_bindings::GetProgramiv(program.0, safe_bindings::ProgramParameter::InfoLogLength)
}

/// Attaches `shader` to `program`.
pub fn attach_shader(program: ShaderProgram, shader: Shader) -> (r: GlCall)
    ensures
        r == (GlCall::AttachShader { program: program.0, shader: shader.0 }),
{
    safe_bindings::AttachShader(program.0, shader.0)
}

/// Detaches `shader` from `program`.
pub fn detach_shader(program: ShaderProgram, shader: Shader) -> (r: GlCall)
    ensures
        r == (GlCall::DetachShader { program: program.0, shader: shader.0 }),
{
    safe_bindings::DetachShader(program.0, shader.0)
}

/// Installs `program` in the current rendering state.
pub fn use_program(program: ShaderProgram) -> (r: GlCall)
    ensures
        r == (GlCall::UseProgram { program: program.0 }),
{
    safe_bindings::UseProgram(program.0)
}

//
// Information logs
//

/// Names the text that `String::from_utf8_lossy` makes of a byte sequence.
pub uninterp spec fn utf8_lossy(bytes: Seq<u8>) -> Seq<char>;

/// Relies on `String::from_utf8_lossy`: the text depends on the bytes alone, and no bytes
/// give no text.
#[verifier::external_body]
fn decode_utf8_lossy(bytes: &Vec<u8>) -> (r: String)
    ensures
        r@ == utf8_lossy(bytes@),
        bytes@.len() == 0 ==> r@.len() == 0,
{
    String::from_utf8_lossy(bytes.as_slice()).into_owned()
}

/// The bytes of a nul-terminated log before its first nul (all of them if there is none).
pub open spec fn before_nul(bytes: Seq<u8>) -> Seq<u8>
    decreases bytes.len(),
{
    if bytes.len() == 0 || bytes[0] == 0 {
        Seq::empty()
    } else {
        seq![bytes[0]] + before_nul(bytes.drop_first())
    }
}

/// The text of a program's information log: the bytes before its first nul, decoded as UTF-8
/// with any invalid sequence replaced. A log with no bytes before its nul has no text.
pub fn program_log_text(buffer: &Vec<u8>) -> (r: String)
    ensures
        r@ == utf8_lossy(before_nul(buffer@)),
        before_nul(buffer@).len() == 0 ==> r@.len() == 0,
{
    let mut text: Vec<u8> = Vec::new();
    let mut i: usize = 0;
    assert(buffer@.subrange(0, buffer.len() as int) =~= buffer@);
    assert(text@ + before_nul(buffer@) =~= before_nul(buffer@));
    while i < buffer.len() && buffer[i] != 0
        invariant
            i <= buffer.len(),
            before_nul(buffer@) == text@ + before_nul(buffer@.subrange(i as int, buffer.len() as int)),
        decreases buffer.len() - i,
    {
        proof {
            let rest = buffer@.subrange(i as int, buffer.len() as int);
            assert(rest.drop_first() =~= buffer@.subrange(i + 1, buffer.len() as int));
            assert(text@ + (seq![buffer@[i as int]] + before_nul(rest.drop_first())) =~= text@.push(buffer@[i as int]) + before_nul(rest.drop_first()));
        }
        text.push(buffer[i]);
        i = i + 1;
    }
    proof {
        let rest = buffer@.subrange(i as int, buffer.len() as int);
        assert(before_nul(rest) =~= Seq::<u8>::empty());
        assert(text@ + before_nul(rest) =~= text@);
    }
    decode_utf8_lossy(&text)
}

/// All bytes of a shader's log but its last, which is its nul; none for an empty log.
pub open spec fn without_last(bytes: Seq<u8>) -> Seq<u8> {
    if bytes.len() == 0 {
        Seq::empty()
    } else {
        bytes.drop_last()
    }
}

/// The text of a shader's information log: all its bytes but the final nul, decoded as UTF-8
/// with any invalid sequence replaced. An empty log, or one of the nul alone, has no text.
pub fn shader_log_text(buffer: &Vec<u8>) -> (r: String)
    ensures
        r@ == utf8_lossy(without_last(buffer@)),
        buffer@.len() <= 1 ==> r@.len() == 0,
{
    let mut text: Vec<u8> = Vec::new();
    let end: usize = if buffer.len() == 0 { 0 } else { buffer.len() - 1 };
    let mut i: usize = 0;
    while i < end
        invariant
            end <= buffer.len(),
            end == without_last(buffer@).len(),
            i <= end,
            text@ == buffer@.subrange(0, i as int),
        decreases end - i,
    {
        text.push(buffer[i]);
        i = i + 1;
        assert(text@ =~= buffer@.subrange(0, i as int));
    }
    assert(text@ =~= without_last(buffer@));
    decode_utf8_lossy(&text)
}

/// Where a [`LogRead`] stands.
#[derive(Clone, Copy, Debug, PartialEq, Eq, Hash, Structural)]
pub enum LogStage {
    /// The length of the log has been asked for.
    AskingLength,
    /// The log itself has been asked for.
    ReadingLog,
}

/// The object a log is read from, or whose build is checked.
#[derive(Clone, Copy, Debug, PartialEq, Eq, Hash, Structural)]
pub enum GlObject {
    Shader(Shader),
    Program(ShaderProgram),
}

impl GlObject {
    pub open spec fn spec_status_call(self) -> GlCall {
        match self {
            GlObject::Shader(s) => GlCall::GetShaderiv { shader: s.0, parameter: codes::COMPILE_STATUS },
            GlObject::Program(p) => GlCall::GetProgramiv { program: p.0, parameter: codes::LINK_STATUS },
        }
    }

    pub open spec fn spec_length_call(self) -> GlCall {
        match self {
            GlObject::Shader(s) => GlCall::GetShaderiv { shader: s.0, parameter: codes::INFO_LOG_LENGTH },
            GlObject::Program(p) => GlCall::GetProgramiv { program: p.0, parameter: codes::INFO_LOG_LENGTH },
        }
    }

    pub open spec fn spec_log_call(self, capacity: i32) -> GlCall {
        match self {
            GlObject::Shader(s) => GlCall::GetShaderInfoLog { shader: s.0, capacity },
            GlObject::Program(p) => GlCall::GetProgramInfoLog { program: p.0, capacity },
        }
    }

    /// The bytes of a log the object's log text is decoded from.
    pub open spec fn spec_log_bytes(self, bytes: Seq<u8>) -> Seq<u8> {
        match self {
            GlObject::Shader(_) => without_last(bytes),
            GlObject::Program(_) => before_nul(bytes),
        }
    }

    /// A program's log, when it has bytes at all, ends with a nul.
    pub open spec fn spec_log_well_formed(self, bytes: Seq<u8>) -> bool {
        match self {
            GlObject::Shader(_) => true,
            GlObject::Program(_) => bytes.len() == 0 || bytes.last() == 0,
        }
    }

    /// The text of a log the driver wrote for this object.
    pub fn log_text(self, buffer: &Vec<u8>) -> (r: String)
        ensures
            r@ == utf8_lossy(self.spec_log_bytes(buffer@)),
            self.spec_log_bytes(buffer@).len() == 0 ==> r@.len() == 0,
    {
        match self {
            GlObject::Shader(_) => shader_log_text(buffer),
            GlObject::Program(_) => program_log_text(buffer),
        }
    }

    /// Asks whether the object's build (compilation or link) succeeded.
    pub fn status_call(self) -> (r: GlCall)
        ensures
            r == self.spec_status_call(),
    {
        match self {
            GlObject::Shader(s) => get_shader_compile_status(s),
            GlObject::Program(p) => get_program_link_status(p),
        }
    }

    /// Asks for the length of the object's information log.
    pub fn length_call(self) -> (r: GlCall)
        ensures
            r == self.spec_length_call(),
    {
        match self {
            GlObject::Shader(s) => get_shader_info_log_length(s),
            GlObject::Program(p) => get_program_info_log_length(p),
        }
    }

    /// Asks for the object's information log, into a buffer of `capacity` bytes.
    pub fn log_call(self, capacity: i32) -> (r: GlCall)
        requires
            capacity >= 0,
        ensures
            r == self.spec_log_call(capacity),
    {
        match self {
            GlObject::Shader(s) => safe_bindings::GetShaderInfoLog(s.0, capacity as usize),
            GlObject::Program(p) => safe_bindings::GetProgramInfoLog(p.0, capacity as usize),
        }
    }
}

/// One step of an exchange with the driver: the next call to make, with the state that
/// will take its outcome, or the result.
pub enum Step<S, R> {
    Call(S, GlCall),
    Done(R),
}

/// Reading the information log of a shader or program: its length first, then the log.
#[derive(Clone, Copy, Debug, PartialEq, Eq, Hash, Structural)]
pub struct LogRead {
    pub object: GlObject,
    pub stage: LogStage,
}

/// Starts reading the information log of `shader`: the returned call asks for its length.
pub fn get_shader_info_log(shader: Shader) -> (r: (LogRead, GlCall))
    ensures
        r.0 == (LogRead { object: GlObject::Shader(shader), stage: LogStage::AskingLength }),
        r.1 == GlObject::Shader(shader).spec_length_call(),
{
    let object = GlObject::Shader(shader);
    (LogRead { object, stage: LogStage::AskingLength }, object.length_call())
}

/// Starts reading the information log of `program`: the returned call asks for its length.
pub fn get_program_info_log(program: ShaderProgram) -> (r: (LogRead, GlCall))
    ensures
        r.0 == (LogRead { object: GlObject::Program(program), stage: LogStage::AskingLength }),
        r.1 == GlObject::Program(program).spec_length_call(),
{
    let object = GlObject::Program(program);
    (LogRead { object, stage: LogStage::AskingLength }, object.length_call())
}

impl LogRead {
    /// Whether `reply` and `errors` can be what the driver made of this state's call.
    pub open spec fn accepts(self, reply: Reply, errors: Seq<u32>) -> bool {
        &&& all_reported(errors)
        &&& match self.stage {
            LogStage::AskingLength => errors.len() == 0 ==> (reply matches Reply::Integer(n) && n >= 0),
            LogStage::ReadingLog => reply is Log && self.object.spec_log_well_formed(reply_log(reply)),
        }
    }

    /// Takes the outcome of the last call: after the length, the log is asked for with a
    /// buffer of that length; after the log, its text is the result. An error reported
    /// after the length query ends the read with that error.
    pub fn resume(self, reply: Reply, errors: &Vec<u32>) -> (r: Step<LogRead, Result<String, OxError>>)
        requires
            self.accepts(reply, errors@),
        ensures
            self.stage == LogStage::AskingLength && errors@.len() > 0 ==>
                (r matches Step::Done(Err(e)) && is_base_error(e, errors@.last())),
            self.stage == LogStage::AskingLength && errors@.len() == 0 ==>
                (reply matches Reply::Integer(n) && r matches Step::Call(next, call)
                    && next == (LogRead { object: self.object, stage: LogStage::ReadingLog })
                    && call == self.object.spec_log_call(n)),
            self.stage == LogStage::ReadingLog ==>
                (r matches Step::Done(Ok(text))
                    && text@ == utf8_lossy(self.object.spec_log_bytes(reply_log(reply)))
                    && (self.object.spec_log_bytes(reply_log(reply)).len() == 0 ==> text@.len() == 0)),
    {
        match self.stage {
            LogStage::AskingLength => {
                match last_error(errors) {
                    Some(e) => Step::Done(Err(e)),
                    None => match reply {
                        Reply::Integer(n) => Step::Call(
                            LogRead { object: self.object, stage: LogStage::ReadingLog },
                            self.object.log_call(n),
                        ),
                        _ => Step::Done(Ok(String::new())),
                    },
                }
            },
            LogStage::ReadingLog => match reply {
                Reply::Log(bytes) => Step::Done(Ok(self.object.log_text(&bytes))),
                _ => Step::Done(Ok(String::new())),
            },
        }
    }
}

//
// Compiling and linking
//

/// Where a [`BuildCheck`] stands.
#[derive(Clone, Copy, Debug, PartialEq, Eq, Hash, Structural)]
pub enum BuildStage {
    /// The compile or link call has been made.
    Building,
    /// Whether it succeeded has been asked.
    AskingStatus,
    /// It failed, and the length of the information log has been asked.
    AskingLogLength,
    /// The information log has been asked.
    ReadingLog,
}

/// Compiling a shader or linking a program, then checking that it worked, and reading the
/// information log when it did not.
#[derive(Clone, Copy, Debug, PartialEq, Eq, Hash, Structural)]
pub struct BuildCheck {
    pub object: GlObject,
    pub stage: BuildStage,
}

/// The failure of a build whose log reads `text`.
pub open spec fn is_build_failure(object: GlObject, e: OxError, text: Seq<char>) -> bool {
    match object {
        GlObject::Shader(_) => e matches OxError::ShaderError(ShaderError::CompilationFailed { info_log }) && info_log@ == text,
        GlObject::Program(_) => e matches OxError::ShaderError(ShaderError::LinkingFailed { info_log }) && info_log@ == text,
    }
}

/// Starts compiling `shader`: the returned call compiles it.
pub fn compile_shader(shader: Shader) -> (r: (BuildCheck, GlCall))
    ensures
        r.0 == (BuildCheck { object: GlObject::Shader(shader), stage: BuildStage::Building }),
        r.1 == (GlCall::CompileShader { shader: shader.0 }),
{
    (
        BuildCheck { object: GlObject::Shader(shader), stage: BuildStage::Building },
        safe_bindings::CompileShader(shader.0),
    )
}

/// Starts linking `program`: the returned call links it.
pub fn link_program(program: ShaderProgram) -> (r: (BuildCheck, GlCall))
    ensures
        r.0 == (BuildCheck { object: GlObject::Program(program), stage: BuildStage::Building }),
        r.1 == (GlCall::LinkProgram { program: program.0 }),
{
    (
        BuildCheck { object: GlObject::Program(program), stage: BuildStage::Building },
        safe_bindings::LinkProgram(program.0),
    )
}

impl BuildCheck {
    /// Whether `reply` and `errors` can be what the driver made of this state's call. The
    /// queries after a build that the driver accepted cannot fail on the object.
    pub open spec fn accepts(self, reply: Reply, errors: Seq<u32>) -> bool {
        &&& all_reported(errors)
        &&& match self.stage {
            BuildStage::Building => true,
            BuildStage::AskingStatus => errors.len() == 0 && (reply matches Reply::Integer(d) && is_gl_boolean(d)),
            BuildStage::AskingLogLength => errors.len() == 0 && (reply matches Reply::Integer(n) && n >= 0),
            BuildStage::ReadingLog => reply is Log && self.object.spec_log_well_formed(reply_log(reply)),
        }
    }

    /// The next state and call, when the check goes on after this outcome.
    pub open spec fn spec_next(self, reply: Reply, errors: Seq<u32>) -> Option<(BuildCheck, GlCall)> {
        match self.stage {
            BuildStage::Building => if errors.len() > 0 {
                None
            } else {
                Some((BuildCheck { object: self.object, stage: BuildStage::AskingStatus }, self.object.spec_status_call()))
            },
            BuildStage::AskingStatus => if reply_integer(reply) as u8 == codes::TRUE {
                None
            } else {
                Some((BuildCheck { object: self.object, stage: BuildStage::AskingLogLength }, self.object.spec_length_call()))
            },
            BuildStage::AskingLogLength => Some((
                BuildCheck { object: self.object, stage: BuildStage::ReadingLog },
                self.object.spec_log_call(reply_integer(reply)),
            )),
            BuildStage::ReadingLog => None,
        }
    }

    /// Whether the check ends with success after this outcome: the driver said the build
    /// succeeded.
    pub open spec fn spec_succeeds(self, reply: Reply) -> bool {
        self.stage == BuildStage::AskingStatus && reply_integer(reply) as u8 == codes::TRUE
    }

    /// Whether `e` is the error the check ends with after this outcome: the error reported
    /// after the build, or the build failure carrying the log.
    pub open spec fn spec_failure(self, reply: Reply, errors: Seq<u32>, e: OxError) -> bool {
        match self.stage {
            BuildStage::Building => is_base_error(e, errors.last()),
            BuildStage::ReadingLog => is_build_failure(self.object, e, utf8_lossy(self.object.spec_log_bytes(reply_log(reply)))),
            _ => false,
        }
    }

    /// The message of the error the check ends with after this outcome, when it fails.
    pub open spec fn spec_failure_message(self, reply: Reply, errors: Seq<u32>) -> Seq<char> {
        match self.stage {
            BuildStage::ReadingLog => match self.object {
                GlObject::Shader(_) => "shader compilation failed\n"@ + utf8_lossy(self.object.spec_log_bytes(reply_log(reply))),
                GlObject::Program(_) => "shader program linking failed\n"@ + utf8_lossy(self.object.spec_log_bytes(reply_log(reply))),
            },
            _ => Error::spec_from_code(errors.last()).spec_message(),
        }
    }

    /// Takes the outcome of the last call. An error reported after the build ends the check
    /// with that error; otherwise the status is asked for. Success ends it with `Ok`; failure
    /// asks for the log's length, then the log, and ends with the failure carrying the log.
    pub fn resume(self, reply: Reply, errors: &Vec<u32>) -> (r: Step<BuildCheck, Result<(), OxError>>)
        requires
            self.accepts(reply, errors@),
        ensures
            match self.spec_next(reply, errors@) {
                Some((next, call)) => r == Step::<BuildCheck, Result<(), OxError>>::Call(next, call),
                None => if self.spec_succeeds(reply) {
                    r matches Step::Done(Ok(_))
                } else {
                    r matches Step::Done(Err(e)) && self.spec_failure(reply, errors@, e)
                        && e.spec_message() == self.spec_failure_message(reply, errors@)
                },
            },
            self.stage == BuildStage::ReadingLog && self.object.spec_log_bytes(reply_log(reply)).len() == 0 ==>
                (r matches Step::Done(Err(e)) && e.spec_message() == match self.object {
                    GlObject::Shader(_) => "shader compilation failed\n"@,
                    GlObject::Program(_) => "shader program linking failed\n"@,
                }),
    {
        match self.stage {
            BuildStage::Building => match last_error(errors) {
                Some(e) => Step::Done(Err(e)),
                None => Step::Call(
                    BuildCheck { object: self.object, stage: BuildStage::AskingStatus },
                    self.object.status_call(),
                ),
            },
            BuildStage::AskingStatus => {
                let succeeded = match reply {
                    Reply::Integer(d) => d as u8 == codes::TRUE,
                    _ => true,
                };
                if succeeded {
                    Step::Done(Ok(()))
                } else {
                    Step::Call(
                        BuildCheck { object: self.object, stage: BuildStage::AskingLogLength },
                        self.object.length_call(),
                    )
                }
            },
            BuildStage::AskingLogLength => {
                let n: i32 = match reply {
                    Reply::Integer(n) => n,
                    _ => 0,
                };
                Step::Call(
                    BuildCheck { object: self.object, stage: BuildStage::ReadingLog },
                    self.object.log_call(n),
                )
            },
            BuildStage::ReadingLog => {
                let text = match reply {
                    Reply::Log(bytes) => self.object.log_text(&bytes),
                    _ => String::new(),
                };
                proof {
                    if text@.len() == 0 {
                        assert("shader compilation failed\n"@ + text@ =~= "shader compilation failed\n"@);
                        assert("shader program linking failed\n"@ + text@ =~= "shader program linking failed\n"@);
                    }
                }
                let failure = match self.object {
                    GlObject::Shader(_) => ShaderError::CompilationFailed { info_log: text },
                    GlObject::Program(_) => ShaderError::LinkingFailed { info_log: text },
                };
                Step::Done(Err(OxError::ShaderError(failure)))
            },
        }
    }
}

//
// Drawing
//

/// Draws `count` indexed vertices, with indices of `index_type` read from byte `offset` of
/// the bound element buffer.
pub fn draw_elements(mode: DrawMode, count: usize, index_type: IndexType, offset: usize) -> (r: GlCall)
    requires
        count <= i32::MAX,
    ensures
        r == (GlCall::DrawElements {
            mode: mode.spec_gl_enum(),
            count: count as i32,
            index_type: index_type.spec_gl_enum(),
            offset,
        }),
{
    safe_bindings::DrawElements(mode, count, index_type, offset)
}

/// Draws `count` vertices of the enabled arrays, from vertex `first` on.
pub fn draw_arrays(mode: DrawMode, first: usize, count: usize) -> (r: GlCall)
    requires
        first <= i32::MAX,
        count <= i32::MAX,
    ensures
        r == (GlCall::DrawArrays { mode: mode.spec_gl_enum(), first: first as i32, count: count as i32 }),
{
    safe_bindings::DrawArrays(mode, first, count)
}

} // verus!
