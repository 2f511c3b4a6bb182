//! Shader inputs, outputs and the pipeline that assembles GLSL sources from them, compiles
//! them and links them into a program.
use vstd::prelude::*;
use vstd::string::StringSliceAdditionalSpecFns;
use crate::codes;
use crate::errors::OwlError;
use crate::oxidised_bindings::{self as ox, all_reported, BuildCheck, BuildStage, DataTypeSize3, DataTypeSize4,
    DataTypeUnsized, FloatVertexFormat, GlObject, IntegralVertexFormat, OxError, Reply, Shader, ShaderProgram, Step};
use crate::safe_bindings::{BufferType, Error, GlCall};
use crate::traits::ToByteVec;
use crate::vertex_arrays::{AttributePointer, VertexArray};

verus! {

/// A GLSL type that a vertex input, a pipe between stages or an output can have.
#[derive(Clone, Copy, Debug, PartialEq, Eq, Hash, Structural)]
pub enum AttributeType {
    Bool,
    Int,
    Float,
    Vec2,
    Vec3,
    Vec4,
    BVec2,
    BVec3,
    BVec4,
    IVec2,
    IVec3,
    IVec4,
    UVec2,
    UVec3,
    UVec4,
    Mat2,
    Mat3,
    Mat4,
}

impl AttributeType {
    /// The number of attribute locations a value of this type takes.
    pub open spec fn spec_size(self) -> u8 {
        match self {
            AttributeType::Bool => 1,
            AttributeType::Int => 1,
            AttributeType::Float => 1,
            AttributeType::Vec2 => 1,
            AttributeType::Vec3 => 1,
            AttributeType::Vec4 => 1,
            AttributeType::BVec2 => 1,
            AttributeType::BVec3 => 1,
            AttributeType::BVec4 => 1,
            AttributeType::IVec2 => 1,
            AttributeType::IVec3 => 1,
            AttributeType::IVec4 => 1,
            AttributeType::UVec2 => 1,
            AttributeType::UVec3 => 1,
            AttributeType::UVec4 => 1,
            AttributeType::Mat2 => 2,
            AttributeType::Mat3 => 3,
            AttributeType::Mat4 => 4,
        }
    }

    /// The number of attribute locations a value of this type takes: one, or one per column
    /// of a matrix.
    pub fn size(self) -> (r: u8)
        ensures
            r == self.spec_size(),
    {
        match self {
            AttributeType::Bool => 1,
            AttributeType::Int => 1,
            AttributeType::Float => 1,
            AttributeType::Vec2 => 1,
            AttributeType::Vec3 => 1,
            AttributeType::Vec4 => 1,
            AttributeType::BVec2 => 1,
            AttributeType::BVec3 => 1,
            AttributeType::BVec4 => 1,
            AttributeType::IVec2 => 1,
            AttributeType::IVec3 => 1,
            AttributeType::IVec4 => 1,
            AttributeType::UVec2 => 1,
            AttributeType::UVec3 => 1,
            AttributeType::UVec4 => 1,
            AttributeType::Mat2 => 2,
            AttributeType::Mat3 => 3,
            AttributeType::Mat4 => 4,
        }
    }

    /// The type's name in GLSL.
    pub open spec fn spec_glsl_name(self) -> Seq<char> {
        match self {
            AttributeType::Bool => "bool"@,
            AttributeType::Int => "int"@,
            AttributeType::Float => "float"@,
            AttributeType::Vec2 => "vec2"@,
            AttributeType::Vec3 => "vec3"@,
            AttributeType::Vec4 => "vec4"@,
            AttributeType::BVec2 => "bvec2"@,
            AttributeType::BVec3 => "bvec3"@,
            AttributeType::BVec4 => "bvec4"@,
            AttributeType::IVec2 => "ivec2"@,
            AttributeType::IVec3 => "ivec3"@,
            AttributeType::IVec4 => "ivec4"@,
            AttributeType::UVec2 => "uvec2"@,
            AttributeType::UVec3 => "uvec3"@,
            AttributeType::UVec4 => "uvec4"@,
            AttributeType::Mat2 => "mat2"@,
            AttributeType::Mat3 => "mat3"@,
            AttributeType::Mat4 => "mat4"@,
        }
    }

    /// The type's name in GLSL.
    pub fn glsl_name(self) -> (r: &'static str)
        ensures
            r@ == self.spec_glsl_name(),
    {
        match self {
            AttributeType::Bool => "bool",
            AttributeType::Int => "int",
            AttributeType::Float => "float",
            AttributeType::Vec2 => "vec2",
            AttributeType::Vec3 => "vec3",
            AttributeType::Vec4 => "vec4",
            AttributeType::BVec2 => "bvec2",
            AttributeType::BVec3 => "bvec3",
            AttributeType::BVec4 => "bvec4",
            AttributeType::IVec2 => "ivec2",
            AttributeType::IVec3 => "ivec3",
            AttributeType::IVec4 => "ivec4",
            AttributeType::UVec2 => "uvec2",
            AttributeType::UVec3 => "uvec3",
            AttributeType::UVec4 => "uvec4",
            AttributeType::Mat2 => "mat2",
            AttributeType::Mat3 => "mat3",
            AttributeType::Mat4 => "mat4",
        }
    }
}

/// A GLSL type whose values are read as floating point, one location each.
#[derive(Clone, Copy, Debug, PartialEq, Eq, Hash, Structural)]
pub enum ThinFloatAttributeType {
    Bool,
    Float,
    Vec2,
    Vec3,
    Vec4,
    BVec2,
    BVec3,
    BVec4,
}

impl ThinFloatAttributeType {
    pub open spec fn spec_attribute_type(self) -> AttributeType {
        match self {
            ThinFloatAttributeType::Bool => AttributeType::Bool,
            ThinFloatAttributeType::Float => AttributeType::Float,
            ThinFloatAttributeType::Vec2 => AttributeType::Vec2,
            ThinFloatAttributeType::Vec3 => AttributeType::Vec3,
            ThinFloatAttributeType::Vec4 => AttributeType::Vec4,
            ThinFloatAttributeType::BVec2 => AttributeType::BVec2,
            ThinFloatAttributeType::BVec3 => AttributeType::BVec3,
            ThinFloatAttributeType::BVec4 => AttributeType::BVec4,
        }
    }

    /// The same type as an [`AttributeType`].
    pub fn attribute_type(self) -> (r: AttributeType)
        ensures
            r == self.spec_attribute_type(),
    {
        match self {
            ThinFloatAttributeType::Bool => AttributeType::Bool,
            ThinFloatAttributeType::Float => AttributeType::Float,
            ThinFloatAttributeType::Vec2 => AttributeType::Vec2,
            ThinFloatAttributeType::Vec3 => AttributeType::Vec3,
            ThinFloatAttributeType::Vec4 => AttributeType::Vec4,
            ThinFloatAttributeType::BVec2 => AttributeType::BVec2,
            ThinFloatAttributeType::BVec3 => AttributeType::BVec3,
            ThinFloatAttributeType::BVec4 => AttributeType::BVec4,
        }
    }
}

/// A GLSL type whose values are read as integers.
#[derive(Clone, Copy, Debug, PartialEq, Eq, Hash, Structural)]
pub enum IntegralAttributeType {
    Int,
    IVec2,
    IVec3,
    IVec4,
    UVec2,
    UVec3,
    UVec4,
}

impl IntegralAttributeType {
    pub open spec fn spec_attribute_type(self) -> AttributeType {
        match self {
            IntegralAttributeType::Int => AttributeType::Int,
            IntegralAttributeType::IVec2 => AttributeType::IVec2,
            IntegralAttributeType::IVec3 => AttributeType::IVec3,
            IntegralAttributeType::IVec4 => AttributeType::IVec4,
            IntegralAttributeType::UVec2 => AttributeType::UVec2,
            IntegralAttributeType::UVec3 => AttributeType::UVec3,
            IntegralAttributeType::UVec4 => AttributeType::UVec4,
        }
    }

    /// The same type as an [`AttributeType`].
    pub fn attribute_type(self) -> (r: AttributeType)
        ensures
            r == self.spec_attribute_type(),
    {
        match self {
            IntegralAttributeType::Int => AttributeType::Int,
            IntegralAttributeType::IVec2 => AttributeType::IVec2,
            IntegralAttributeType::IVec3 => AttributeType::IVec3,
            IntegralAttributeType::IVec4 => AttributeType::IVec4,
            IntegralAttributeType::UVec2 => AttributeType::UVec2,
            IntegralAttributeType::UVec3 => AttributeType::UVec3,
            IntegralAttributeType::UVec4 => AttributeType::UVec4,
        }
    }
}

/// A named value with a GLSL type: an input, a pipe between stages, or an output.
#[derive(Clone, Debug, PartialEq, Eq, Hash)]
pub struct Attribute {
    pub name: String,
    pub glsl_type: AttributeType,
}

impl Attribute {
    /// A copy of the attribute.
    pub fn duplicate(&self) -> (r: Attribute)
        ensures
            r.name@ == self.name@,
            r.glsl_type == self.glsl_type,
    {
        Attribute { name: self.name.clone(), glsl_type: self.glsl_type }
    }
}

/// A vertex input that takes one location, with the layout of its data in the buffer.
#[derive(Clone, Debug)]
#[allow(inconsistent_fields)]
pub enum ThinInputAttribute {
    Integral { name: String, glsl_type: IntegralAttributeType, data_format: IntegralVertexFormat },
    Float { name: String, glsl_type: ThinFloatAttributeType, data_format: FloatVertexFormat },
}

impl ThinInputAttribute {
    pub open spec fn spec_name(&self) -> Seq<char> {
        match self {
            ThinInputAttribute::Integral { name, .. } => name@,
            ThinInputAttribute::Float { name, .. } => name@,
        }
    }

    pub open spec fn spec_glsl_type(&self) -> AttributeType {
        match self {
            ThinInputAttribute::Integral { glsl_type, .. } => glsl_type.spec_attribute_type(),
            ThinInputAttribute::Float { glsl_type, .. } => glsl_type.spec_attribute_type(),
        }
    }

    /// The input's name and GLSL type.
    pub fn to_attribute(self) -> (r: Attribute)
        ensures
            r.name@ == self.spec_name(),
            r.glsl_type == self.spec_glsl_type(),
    {
        match self {
            ThinInputAttribute::Integral { name, glsl_type, .. } => Attribute { name, glsl_type: glsl_type.attribute_type() },
            ThinInputAttribute::Float { name, glsl_type, .. } => Attribute { name, glsl_type: glsl_type.attribute_type() },
        }
    }
}

/// The decimal digits of `n`.
pub open spec fn decimal(n: nat) -> Seq<char>
    decreases n,
{
    if n < 10 {
        seq![digit(n)]
    } else {
        decimal(n / 10) + seq![digit(n % 10)]
    }
}

pub open spec fn digit(d: nat) -> char {
    if d == 0 { '0' } else if d == 1 { '1' } else if d == 2 { '2' } else if d == 3 { '3' }
    else if d == 4 { '4' } else if d == 5 { '5' } else if d == 6 { '6' } else if d == 7 { '7' }
    else if d == 8 { '8' } else { '9' }
}

fn digit_str(d: u32) -> (r: &'static str)
    requires
        d < 10,
    ensures
        r@ == seq![digit(d as nat)],
{
    proof {
        reveal_strlit("0");
        reveal_strlit("1");
        reveal_strlit("2");
        reveal_strlit("3");
        reveal_strlit("4");
        reveal_strlit("5");
        reveal_strlit("6");
        reveal_strlit("7");
        reveal_strlit("8");
        reveal_strlit("9");
    }
    if d == 0 { "0" } else if d == 1 { "1" } else if d == 2 { "2" } else if d == 3 { "3" }
    else if d == 4 { "4" } else if d == 5 { "5" } else if d == 6 { "6" } else if d == 7 { "7" }
    else if d == 8 { "8" } else { "9" }
}

/// `n` written in decimal, as `format!("{}", n)` writes it.
pub fn decimal_string(n: u32) -> (r: String)
    ensures
        r@ == decimal(n as nat),
    decreases n,
{
    if n < 10 {
        String::from_str(digit_str(n))
    } else {
        let mut s = decimal_string(n / 10);
        s.append(digit_str(n % 10));
        s
    }
}

/// A matrix vertex input: one pointer per column, each column read as a float vector of the
/// matrix's size, at consecutive locations.
#[derive(Debug)]
#[allow(inconsistent_fields)]
pub enum MatInputAttributePointer<'a, T: ToByteVec> {
    Mat2 { name: String, normalise: bool, pointers: [AttributePointer<'a, T>; 2], data_type: DataTypeUnsized },
    Mat3 { name: String, normalise: bool, pointers: [AttributePointer<'a, T>; 3], data_type: DataTypeSize3 },
    Mat4 { name: String, normalise: bool, pointers: [AttributePointer<'a, T>; 4], data_type: DataTypeSize4 },
}

impl<'a, T: ToByteVec> MatInputAttributePointer<'a, T> {
    pub open spec fn spec_size(&self) -> u8 {
        match self {
            MatInputAttributePointer::Mat2 { .. } => 2,
            MatInputAttributePointer::Mat3 { .. } => 3,
            MatInputAttributePointer::Mat4 { .. } => 4,
        }
    }

    pub open spec fn spec_name(&self) -> Seq<char> {
        match self {
            MatInputAttributePointer::Mat2 { name, .. } => name@,
            MatInputAttributePointer::Mat3 { name, .. } => name@,
            MatInputAttributePointer::Mat4 { name, .. } => name@,
        }
    }

    pub open spec fn spec_glsl_type(&self) -> AttributeType {
        match self {
            MatInputAttributePointer::Mat2 { .. } => AttributeType::Mat2,
            MatInputAttributePointer::Mat3 { .. } => AttributeType::Mat3,
            MatInputAttributePointer::Mat4 { .. } => AttributeType::Mat4,
        }
    }

    /// The pointers to the columns, in order.
    pub open spec fn spec_pointers(&self) -> Seq<AttributePointer<'a, T>> {
        match self {
            MatInputAttributePointer::Mat2 { pointers, .. } => pointers@,
            MatInputAttributePointer::Mat3 { pointers, .. } => pointers@,
            MatInputAttributePointer::Mat4 { pointers, .. } => pointers@,
        }
    }

    /// The layout of each column: a float vector as long as the matrix is wide.
    pub open spec fn spec_column_format(&self) -> FloatVertexFormat {
        match self {
            MatInputAttributePointer::Mat2 { normalise, data_type, .. } => FloatVertexFormat::Size2 { normalise: *normalise, data_type: *data_type },
            MatInputAttributePointer::Mat3 { normalise, data_type, .. } => FloatVertexFormat::Size3 { normalise: *normalise, data_type: *data_type },
            MatInputAttributePointer::Mat4 { normalise, data_type, .. } => FloatVertexFormat::Size4 { normalise: *normalise, data_type: *data_type },
        }
    }

    /// The number of locations (columns) the matrix takes.
    pub fn size(&self) -> (r: u8)
        ensures
            r == self.spec_size(),
    {
        match self {
            MatInputAttributePointer::Mat2 { .. } => 2,
            MatInputAttributePointer::Mat3 { .. } => 3,
            MatInputAttributePointer::Mat4 { .. } => 4,
        }
    }
}

/// A vertex input with where its data is: one location, or a matrix of several.
#[derive(Debug)]
pub enum InputAttribute<'a, T: ToByteVec> {
    Thin(ThinInputAttribute, AttributePointer<'a, T>),
    Mat(MatInputAttributePointer<'a, T>),
}

/// The calls that point attribute `index` at the data `pointer` describes: bind its buffer,
/// then describe the layout.
pub open spec fn spec_pointer_calls<T: ToByteVec>(pointer_call: GlCall, pointer: AttributePointer<'_, T>) -> Seq<GlCall> {
    seq![ox::spec_bind_buffer(BufferType::Array, Some(pointer.buffer.spec_id())), pointer_call]
}

/// The call that describes the layout of a one-location input at `index`.
pub open spec fn spec_thin_pointer_call<T: ToByteVec>(index: u8, attribute: ThinInputAttribute, pointer: AttributePointer<'_, T>) -> GlCall {
    match attribute {
        ThinInputAttribute::Integral { data_format, .. } =>
            ox::spec_vertex_attrib_i_pointer(index, data_format, pointer.stride.0, pointer.offset.0),
        ThinInputAttribute::Float { data_format, .. } =>
            ox::spec_vertex_attrib_pointer(index, data_format, pointer.stride.0, pointer.offset.0),
    }
}

/// An input of the vertex stage: the location it starts at, its name and its GLSL type.
#[derive(Clone, Debug, Hash)]
pub struct Input {
    index: u8,
    attribute: Attribute,
}

impl Input {
    pub closed spec fn spec_index(&self) -> u8 {
        self.index
    }

    pub closed spec fn spec_name(&self) -> Seq<char> {
        self.attribute.name@
    }

    pub closed spec fn spec_glsl_type(&self) -> AttributeType {
        self.attribute.glsl_type
    }

    /// The first location the input takes.
    pub fn index(&self) -> (r: u8)
        ensures
            r == self.spec_index(),
    {
        self.index
    }

    /// The input's name and GLSL type.
    pub fn attribute(&self) -> (r: &Attribute)
        ensures
            r.name@ == self.spec_name(),
            r.glsl_type == self.spec_glsl_type(),
    {
        &self.attribute
    }

    /// A copy of the input.
    pub fn duplicate(&self) -> (r: Input)
        ensures
            r.spec_index() == self.spec_index(),
            r.spec_name() == self.spec_name(),
            r.spec_glsl_type() == self.spec_glsl_type(),
    {
        Input { index: self.index, attribute: self.attribute.duplicate() }
    }

    /// A one-location input at `index`, read as `pointer` says: the returned calls bind the
    /// pointer's buffer and describe the layout of the attribute. The driver accepts both when
    /// the buffer exists and `index` is below the number of locations.
    pub fn new_thin<T: ToByteVec>(index: u8, attribute: ThinInputAttribute, pointer: AttributePointer<'_, T>) -> (r: (Input, Vec<GlCall>))
        requires
            pointer.stride.0 <= i32::MAX,
            pointer.offset.0 <= i32::MAX,
        ensures
            r.0.spec_index() == index,
            r.0.spec_name() == attribute.spec_name(),
            r.0.spec_glsl_type() == attribute.spec_glsl_type(),
            r.1@ == spec_pointer_calls(spec_thin_pointer_call(index, attribute, pointer), pointer),
    {
        let bind = pointer.buffer.bind();
        let describe = match &attribute {
            ThinInputAttribute::Integral { data_format, .. } =>
                ox::vertex_attrib_i_pointer(index, *data_format, pointer.stride.0, pointer.offset.0),
            ThinInputAttribute::Float { data_format, .. } =>
                ox::vertex_attrib_pointer(index, *data_format, pointer.stride.0, pointer.offset.0),
        };
        let calls = vec![bind, describe];
        assert(calls@ =~= spec_pointer_calls(describe, pointer));
        (Input { index, attribute: attribute.to_attribute() }, calls)
    }
}

/// The calls that point the columns of a matrix at `pointers`: column `i` at location
/// `index + i`, each read with the layout `format`.
pub open spec fn spec_column_calls<T: ToByteVec>(index: u8, format: FloatVertexFormat, pointers: Seq<AttributePointer<'_, T>>) -> Seq<GlCall>
    decreases pointers.len(),
{
    if pointers.len() == 0 {
        Seq::empty()
    } else {
        let last = pointers.last();
        spec_column_calls(index, format, pointers.drop_last()) + spec_pointer_calls(
            ox::spec_vertex_attrib_pointer((index + pointers.len() - 1) as u8, format, last.stride.0, last.offset.0),
            last,
        )
    }
}

/// Whether every column pointer's stride and offset fit the GL's signed sizes.
pub open spec fn pointers_fit<T: ToByteVec>(pointers: Seq<AttributePointer<'_, T>>) -> bool {
    forall|i: int| 0 <= i < pointers.len() ==> (#[trigger] pointers[i]).stride.0 <= i32::MAX && pointers[i].offset.0 <= i32::MAX
}

fn column_calls<T: ToByteVec>(index: u8, format: FloatVertexFormat, pointers: &[AttributePointer<'_, T>]) -> (r: Vec<GlCall>)
    requires
        index + pointers@.len() <= 256,
        pointers_fit(pointers@),
    ensures
        r@ == spec_column_calls(index, format, pointers@),
{
    let mut calls: Vec<GlCall> = Vec::new();
    let mut i: usize = 0;
    while i < pointers.len()
        invariant
            i <= pointers@.len(),
            index + pointers@.len() <= 256,
            pointers_fit(pointers@),
            calls@ == spec_column_calls(index, format, pointers@.subrange(0, i as int)),
        decreases pointers.len() - i,
    {
        let p = &pointers[i];
        let location = index + i as u8;
        let bind = p.buffer.bind();
        let describe = ox::vertex_attrib_pointer(location, format, p.stride.0, p.offset.0);
        proof {
            let next = pointers@.subrange(0, i + 1);
            assert(next.drop_last() =~= pointers@.subrange(0, i as int));
            assert(next.last() == *p);
        }
        calls.push(bind);
        calls.push(describe);
        proof {
            let next = pointers@.subrange(0, i + 1);
            assert(calls@ =~= spec_column_calls(index, format, next));
        }
        i = i + 1;
    }
    assert(pointers@.subrange(0, pointers@.len() as int) =~= pointers@);
    calls
}

impl Input {
    /// A matrix input starting at `index`, one location per column: the returned calls bind
    /// each column's buffer and describe its layout.
    pub fn new_mat<T: ToByteVec>(index: u8, attribute: MatInputAttributePointer<'_, T>) -> (r: (Input, Vec<GlCall>))
        requires
            index + attribute.spec_size() <= 256,
            pointers_fit(attribute.spec_pointers()),
        ensures
            r.0.spec_index() == index,
            r.0.spec_name() == attribute.spec_name(),
            r.0.spec_glsl_type() == attribute.spec_glsl_type(),
            r.1@ == spec_column_calls(index, attribute.spec_column_format(), attribute.spec_pointers()),
    {
        match attribute {
            MatInputAttributePointer::Mat2 { name, normalise, pointers, data_type } => {
                let calls = column_calls(index, FloatVertexFormat::Size2 { normalise, data_type }, &pointers);
                (Input { index, attribute: Attribute { name, glsl_type: AttributeType::Mat2 } }, calls)
            },
            MatInputAttributePointer::Mat3 { name, normalise, pointers, data_type } => {
                let calls = column_calls(index, FloatVertexFormat::Size3 { normalise, data_type }, &pointers);
                (Input { index, attribute: Attribute { name, glsl_type: AttributeType::Mat3 } }, calls)
            },
            MatInputAttributePointer::Mat4 { name, normalise, pointers, data_type } => {
                let calls = column_calls(index, FloatVertexFormat::Size4 { normalise, data_type }, &pointers);
                (Input { index, attribute: Attribute { name, glsl_type: AttributeType::Mat4 } }, calls)
            },
        }
    }
}

/// The stages a [`Pipe`] connects.
#[derive(Clone, Copy, Debug, PartialEq, Eq, Hash, Structural)]
pub enum PipeTargets {
    VertexFragment,
}

/// A value the vertex stage writes and the fragment stage reads.
#[derive(Clone, Debug, PartialEq, Eq, Hash)]
pub struct Pipe {
    pub targets: PipeTargets,
    pub attribute: Attribute,
}

/// A linked shader program, deleted only through [`Program::delete`].
#[derive(Debug)]
pub struct Program(ShaderProgram);

/// The message for an error reported while installing a program.
pub open spec fn use_failure_message(e: OxError) -> Seq<char> {
    match e {
        OxError::BaseError(Error::InvalidOperation) => "transform feedback mode active"@,
        _ => "no other errors should be produced"@,
    }
}

impl Program {
    pub closed spec fn spec_name(&self) -> ShaderProgram {
        self.0
    }

    /// The program's name.
    pub fn name(&self) -> (r: ShaderProgram)
        ensures
            r == self.spec_name(),
    {
        self.0
    }

    /// Installs the program; [`Program::used`] decides the outcome.
    pub fn use_self(&self) -> (r: GlCall)
        ensures
            r == (GlCall::UseProgram { program: self.spec_name().0 }),
    {
        ox::use_program(self.0)
    }

    /// The outcome of installing a program, from the errors reported after it: a program
    /// that has not been deleted can only be refused while transform feedback is active.
    pub fn used(errors: &Vec<u32>) -> (r: Result<(), OwlError>)
        requires
            all_reported(errors@),
        ensures
            errors@.len() == 0 ==> r is Ok,
            errors@.len() > 0 ==> (r matches Err(o)
                && o.spec_message() == use_failure_message(ox::last_base_error(errors@)) + ", "@ + ox::last_base_error(errors@).spec_message()
                && o.spec_context() == "using program failed"@),
    {
        match ox::last_error(errors) {
            None => Ok(()),
            Some(e) => {
                    let message = match e {
                    OxError::BaseError(Error::InvalidOperation) => "transform feedback mode active",
                    _ => "no other errors should be produced",
                };
                Err(e.with_message(message).with_context("using program failed"))
            },
        }
    }

    /// Gives the program back: the returned call deletes it.
    pub fn delete(self) -> (r: GlCall)
        ensures
            r == (GlCall::DeleteProgram { program: self.spec_name().0 }),
    {
        ox::delete_program(self.0)
    }
}

/// A source that holds a nul byte, where the first one is.
#[derive(Clone, Copy, Debug, PartialEq, Eq, Hash, Structural)]
pub struct NulError {
    pub position: usize,
}

/// Where the first nul byte of `s` is, if it has one.
pub fn find_nul(s: &str) -> (r: Option<usize>)
    ensures
        match r {
            Some(p) => p < s.spec_bytes().len() && s.spec_bytes()[p as int] == 0
                && forall|j: int| 0 <= j < p ==> s.spec_bytes()[j] != 0,
            None => forall|j: int| 0 <= j < s.spec_bytes().len() ==> s.spec_bytes()[j] != 0,
        },
{
    let bytes = s.as_bytes();
    let mut i: usize = 0;
    while i < bytes.len()
        invariant
            bytes@ == s.spec_bytes(),
            i <= bytes@.len(),
            forall|j: int| 0 <= j < i ==> bytes@[j] != 0,
        decreases bytes.len() - i,
    {
        if bytes[i] == 0 {
            return Some(i);
        }
        i = i + 1;
    }
    None
}

/// The first line of every source: the GLSL version, core profile.
pub open spec fn version_line(version: u32) -> Seq<char> {
    "#version "@ + decimal(version as nat) + " core\n"@
}

/// The declaration of a vertex input at its location.
pub open spec fn input_line(index: u8, glsl_type: AttributeType, name: Seq<char>) -> Seq<char> {
    "layout (location = "@ + decimal(index as nat) + ") in "@ + glsl_type.spec_glsl_name() + " "@ + name + ";\n"@
}

pub open spec fn input_lines(inputs: Seq<Input>) -> Seq<char>
    decreases inputs.len(),
{
    if inputs.len() == 0 {
        Seq::empty()
    } else {
        let last = inputs.last();
        input_lines(inputs.drop_last()) + input_line(last.spec_index(), last.spec_glsl_type(), last.spec_name())
    }
}

/// A declaration `<qualifier> <type> <name>;`.
pub open spec fn declaration(qualifier: Seq<char>, attribute: Attribute) -> Seq<char> {
    qualifier + attribute.glsl_type.spec_glsl_name() + " "@ + attribute.name@ + ";\n"@
}

pub open spec fn pipe_lines(qualifier: Seq<char>, pipes: Seq<Pipe>) -> Seq<char>
    decreases pipes.len(),
{
    if pipes.len() == 0 {
        Seq::empty()
    } else {
        pipe_lines(qualifier, pipes.drop_last()) + declaration(qualifier, pipes.last().attribute)
    }
}

/// The vertex source: version, inputs, the pipes it writes, then the body.
pub open spec fn vertex_source_text(version: u32, inputs: Seq<Input>, pipes: Seq<Pipe>, body: Seq<char>) -> Seq<char> {
    version_line(version) + input_lines(inputs) + pipe_lines("out "@, pipes) + body
}

/// The fragment source: version, the pipes it reads, its output, then the body.
pub open spec fn fragment_source_text(version: u32, pipes: Seq<Pipe>, output: Attribute, body: Seq<char>) -> Seq<char> {
    version_line(version) + pipe_lines("in "@, pipes) + declaration("out "@, output) + body
}

fn append_declaration(text: &mut String, qualifier: &str, attribute: &Attribute)
    ensures
        final(text)@ == old(text)@ + declaration(qualifier@, *attribute),
{
    text.append(qualifier);
    text.append(attribute.glsl_type.glsl_name());
    text.append(" ");
    text.append(attribute.name.as_str());
    text.append(";\n");
    assert(final(text)@ =~= old(text)@ + declaration(qualifier@, *attribute));
}

fn append_pipes(text: &mut String, qualifier: &str, pipes: &Vec<Pipe>)
    ensures
        final(text)@ == old(text)@ + pipe_lines(qualifier@, pipes@),
{
    let mut i: usize = 0;
    while i < pipes.len()
        invariant
            i <= pipes@.len(),
            text@ == old(text)@ + pipe_lines(qualifier@, pipes@.subrange(0, i as int)),
        decreases pipes.len() - i,
    {
        append_declaration(text, qualifier, &pipes[i].attribute);
        proof {
            let next = pipes@.subrange(0, i + 1);
            assert(next.drop_last() =~= pipes@.subrange(0, i as int));
            assert(text@ =~= old(text)@ + pipe_lines(qualifier@, next));
        }
        i = i + 1;
    }
    assert(pipes@.subrange(0, pipes@.len() as int) =~= pipes@);
}

fn version_text(version: u32) -> (r: String)
    ensures
        r@ == version_line(version),
{
    let mut text = String::from_str("#version ");
    let digits = decimal_string(version);
    text.append(digits.as_str());
    text.append(" core\n");
    text
}

/// Where a [`PipelineCreation`] stands: which shader's creation has been asked for.
#[derive(Clone, Copy, Debug, PartialEq, Eq, Hash, Structural)]
pub enum CreationStage {
    CreatingVertex,
    CreatingFragment(Shader),
}

/// Creating the two shaders of a new [`ShaderPipeline`], vertex first.
#[derive(Clone, Copy, Debug, PartialEq, Eq, Hash, Structural)]
pub struct PipelineCreation {
    pub version: u32,
    pub stage: CreationStage,
}

/// The only GLSL version the pipeline writes sources for.
pub const GLSL_VERSION: u32 = 430;

/// A vertex and a fragment shader, the sources they are built from, and the inputs, pipes
/// and output those sources declare.
#[derive(Debug)]
pub struct ShaderPipeline {
    version: u32,
    vertex: Shader,
    vertex_body: String,
    fragment: Shader,
    fragment_body: String,
    output: Attribute,
    inputs: Vec<Input>,
    pipes: Vec<Pipe>,
}

impl ShaderPipeline {
    pub closed spec fn spec_version(&self) -> u32 {
        self.version
    }

    pub closed spec fn spec_vertex(&self) -> Shader {
        self.vertex
    }

    pub closed spec fn spec_fragment(&self) -> Shader {
        self.fragment
    }

    pub closed spec fn spec_vertex_body(&self) -> Seq<char> {
        self.vertex_body@
    }

    pub closed spec fn spec_fragment_body(&self) -> Seq<char> {
        self.fragment_body@
    }

    pub closed spec fn spec_output(&self) -> Attribute {
        self.output
    }

    pub closed spec fn spec_inputs(&self) -> Seq<Input> {
        self.inputs@
    }

    pub closed spec fn spec_pipes(&self) -> Seq<Pipe> {
        self.pipes@
    }

    /// Starts a pipeline for GLSL `glsl_version`, which must be 430: the returned call
    /// creates its vertex shader. [`PipelineCreation::resume`] creates the fragment shader
    /// and builds the pipeline.
    pub fn new(glsl_version: u32) -> (r: Result<(PipelineCreation, GlCall), OwlError>)
        ensures
            glsl_version != GLSL_VERSION ==> (r matches Err(e)
                && e.spec_message() == "incorrect glsl version, accepted versions: 430"@),
            glsl_version == GLSL_VERSION ==> (r matches Ok((c, call))
                && c == (PipelineCreation { version: glsl_version, stage: CreationStage::CreatingVertex })
                && call == (GlCall::CreateShader { shader_type: codes::VERTEX_SHADER })),
    {
        if glsl_version != GLSL_VERSION {
            return Err(OwlError::custom("incorrect glsl version, accepted versions: 430"));
        }
        Ok((
            PipelineCreation { version: glsl_version, stage: CreationStage::CreatingVertex },
            ox::create_shader(crate::safe_bindings::ShaderType::Vertex),
        ))
    }

    /// The same pipeline, taking its inputs from those of `vertex_array`.
    pub fn inputs_from_vertex_array<T: ToByteVec>(self, vertex_array: &VertexArray<T>) -> (r: ShaderPipeline)
        ensures
            r.spec_inputs().len() == vertex_array.spec_inputs().spec_inputs().len(),
            forall|i: int| 0 <= i < r.spec_inputs().len() ==> {
                let a = #[trigger] r.spec_inputs()[i];
                let b = vertex_array.spec_inputs().spec_inputs()[i];
                a.spec_index() == b.spec_index() && a.spec_name() == b.spec_name() && a.spec_glsl_type() == b.spec_glsl_type()
            },
            r.spec_version() == self.spec_version(),
            r.spec_vertex() == self.spec_vertex(),
            r.spec_fragment() == self.spec_fragment(),
            r.spec_vertex_body() == self.spec_vertex_body(),
            r.spec_fragment_body() == self.spec_fragment_body(),
            r.spec_output() == self.spec_output(),
            r.spec_pipes() == self.spec_pipes(),
    {
        let source = vertex_array.inputs().inputs();
        let mut inputs: Vec<Input> = Vec::new();
        let mut i: usize = 0;
        while i < source.len()
            invariant
                i <= source@.len(),
                inputs@.len() == i,
                forall|k: int| 0 <= k < i ==> {
                    let a = #[trigger] inputs@[k];
                    let b = source@[k];
                    a.spec_index() == b.spec_index() && a.spec_name() == b.spec_name() && a.spec_glsl_type() == b.spec_glsl_type()
                },
            decreases source.len() - i,
        {
            inputs.push(source[i].duplicate());
            i = i + 1;
        }
        ShaderPipeline { inputs, ..self }
    }

    /// The same pipeline with `source` as the body of its vertex shader; fails when `source`
    /// holds a nul byte.
    pub fn vertex_body(self, source: &str) -> (r: Result<ShaderPipeline, NulError>)
        ensures
            match r {
                Ok(p) => (forall|j: int| 0 <= j < source.spec_bytes().len() ==> source.spec_bytes()[j] != 0)
                    && p.spec_vertex_body() == source@
                    && p.spec_version() == self.spec_version()
                    && p.spec_vertex() == self.spec_vertex()
                    && p.spec_fragment() == self.spec_fragment()
                    && p.spec_fragment_body() == self.spec_fragment_body()
                    && p.spec_output() == self.spec_output()
                    && p.spec_inputs() == self.spec_inputs()
                    && p.spec_pipes() == self.spec_pipes(),
                Err(e) => e.position < source.spec_bytes().len() && source.spec_bytes()[e.position as int] == 0
                    && forall|j: int| 0 <= j < e.position ==> source.spec_bytes()[j] != 0,
            },
    {
        match find_nul(source) {
            Some(position) => Err(NulError { position }),
            None => Ok(ShaderPipeline { vertex_body: source.to_owned(), ..self }),
        }
    }

    /// The same pipeline with `source` as the body of its fragment shader and `output` as its
    /// output; fails when `source` holds a nul byte.
    pub fn fragment_body(self, source: &str, output: Attribute) -> (r: Result<ShaderPipeline, NulError>)
        ensures
            match r {
                Ok(p) => (forall|j: int| 0 <= j < source.spec_bytes().len() ==> source.spec_bytes()[j] != 0)
                    && p.spec_fragment_body() == source@
                    && p.spec_output() == output
                    && p.spec_version() == self.spec_version()
                    && p.spec_vertex() == self.spec_vertex()
                    && p.spec_fragment() == self.spec_fragment()
                    && p.spec_vertex_body() == self.spec_vertex_body()
                    && p.spec_inputs() == self.spec_inputs()
                    && p.spec_pipes() == self.spec_pipes(),
                Err(e) => e.position < source.spec_bytes().len() && source.spec_bytes()[e.position as int] == 0
                    && forall|j: int| 0 <= j < e.position ==> source.spec_bytes()[j] != 0,
            },
    {
        match find_nul(source) {
            Some(position) => Err(NulError { position }),
            None => Ok(ShaderPipeline { fragment_body: source.to_owned(), output, ..self }),
        }
    }

    /// The same pipeline with one more pipe from the vertex to the fragment stage.
    pub fn pipe(self, pipe: Pipe) -> (r: ShaderPipeline)
        ensures
            r.spec_pipes() == self.spec_pipes().push(pipe),
            r.spec_version() == self.spec_version(),
            r.spec_vertex() == self.spec_vertex(),
            r.spec_fragment() == self.spec_fragment(),
            r.spec_vertex_body() == self.spec_vertex_body(),
            r.spec_fragment_body() == self.spec_fragment_body(),
            r.spec_output() == self.spec_output(),
            r.spec_inputs() == self.spec_inputs(),
    {
        let mut pipes = self.pipes;
        pipes.push(pipe);
        ShaderPipeline { pipes, ..self }
    }

    /// The full source of the vertex shader.
    pub fn vertex_source(&self) -> (r: String)
        ensures
            r@ == vertex_source_text(self.spec_version(), self.spec_inputs(), self.spec_pipes(), self.spec_vertex_body()),
    {
        let mut text = version_text(self.version);
        let mut i: usize = 0;
        while i < self.inputs.len()
            invariant
                i <= self.inputs@.len(),
                text@ == version_line(self.version) + input_lines(self.inputs@.subrange(0, i as int)),
            decreases self.inputs.len() - i,
        {
            let input = &self.inputs[i];
            let ghost before = text@;
            text.append("layout (location = ");
            let index = decimal_string(input.index() as u32);
            text.append(index.as_str());
            text.append(") in ");
            text.append(input.attribute().glsl_type.glsl_name());
            text.append(" ");
            text.append(input.attribute().name.as_str());
            text.append(";\n");
            proof {
                let next = self.inputs@.subrange(0, i + 1);
                assert(next.drop_last() =~= self.inputs@.subrange(0, i as int));
                assert(text@ =~= before + input_line(input.spec_index(), input.spec_glsl_type(), input.spec_name()));
                assert(text@ =~= version_line(self.version) + input_lines(next));
            }
            i = i + 1;
        }
        assert(self.inputs@.subrange(0, self.inputs@.len() as int) =~= self.inputs@);
        append_pipes(&mut text, "out ", &self.pipes);
        text.append(self.vertex_body.as_str());
        text
    }

    /// The full source of the fragment shader.
    pub fn fragment_source(&self) -> (r: String)
        ensures
            r@ == fragment_source_text(self.spec_version(), self.spec_pipes(), self.spec_output(), self.spec_fragment_body()),
    {
        let mut text = version_text(self.version);
        append_pipes(&mut text, "in ", &self.pipes);
        append_declaration(&mut text, "out ", &self.output);
        text.append(self.fragment_body.as_str());
        text
    }
}

impl PipelineCreation {
    /// Whether `reply` can be what the driver made of this state's call.
    pub open spec fn accepts(self, reply: Reply) -> bool {
        reply is Name
    }

    /// Takes the name the driver answered for the last shader creation: 0 ends the creation
    /// with an error; the vertex shader's name leads to creating the fragment shader, and the
    /// fragment shader's to the pipeline, with empty bodies, no inputs or pipes, and an
    /// unnamed `vec4` output.
    pub fn resume(self, reply: Reply) -> (r: Step<PipelineCreation, Result<ShaderPipeline, OwlError>>)
        requires
            self.accepts(reply),
        ensures
            ox::reply_name(reply) == 0 ==> (r matches Step::Done(Err(e))
                && e.spec_message() == "shader creation failed"@
                && e.spec_context() == (match self.stage {
                    CreationStage::CreatingVertex => "creating pipeline (vertex shader)"@,
                    CreationStage::CreatingFragment(_) => "creating pipeline (fragment shader)"@,
                })),
            ox::reply_name(reply) != 0 && self.stage == CreationStage::CreatingVertex ==>
                (r matches Step::Call(next, call)
                    && next == (PipelineCreation { version: self.version, stage: CreationStage::CreatingFragment(Shader(ox::reply_name(reply))) })
                    && call == (GlCall::CreateShader { shader_type: codes::FRAGMENT_SHADER })),
            ox::reply_name(reply) != 0 && self.stage is CreatingFragment ==>
                (r matches Step::Done(Ok(p))
                    && p.spec_version() == self.version
                    && self.stage == CreationStage::CreatingFragment(p.spec_vertex())
                    && p.spec_fragment() == Shader(ox::reply_name(reply))
                    && p.spec_vertex_body().len() == 0
                    && p.spec_fragment_body().len() == 0
                    && p.spec_output().name@.len() == 0
                    && p.spec_output().glsl_type == AttributeType::Vec4
                    && p.spec_inputs().len() == 0
                    && p.spec_pipes().len() == 0),
    {
        let name: u32 = match reply {
            Reply::Name(n) => n,
            _ => 0,
        };
        match self.stage {
            CreationStage::CreatingVertex => match ox::created_shader(name) {
                Err(e) => Step::Done(Err(e.with_context("creating pipeline (vertex shader)"))),
                Ok(vertex) => Step::Call(
                    PipelineCreation { version: self.version, stage: CreationStage::CreatingFragment(vertex) },
                    ox::create_shader(crate::safe_bindings::ShaderType::Fragment),
                ),
            },
            CreationStage::CreatingFragment(vertex) => match ox::created_shader(name) {
                Err(e) => Step::Done(Err(e.with_context("creating pipeline (fragment shader)"))),
                Ok(fragment) => Step::Done(Ok(ShaderPipeline {
                    version: self.version,
                    vertex,
                    vertex_body: String::new(),
                    fragment,
                    fragment_body: String::new(),
                    output: Attribute { name: String::new(), glsl_type: AttributeType::Vec4 },
                    inputs: Vec::new(),
                    pipes: Vec::new(),
                })),
            },
        }
    }
}

/// Where a [`PipelineBuild`] stands: the call last made.
#[derive(Clone, Copy, Debug, PartialEq, Eq, Hash, Structural)]
pub enum BuildPhase {
    SourcingVertex,
    SourcingFragment,
    CompilingVertex(BuildCheck),
    CompilingFragment(BuildCheck),
    CreatingProgram,
    AttachingVertex(ShaderProgram),
    AttachingFragment(ShaderProgram),
    Linking(ShaderProgram, BuildCheck),
    DeletingVertex(ShaderProgram),
    DeletingFragment(ShaderProgram),
}

/// Building the program of a [`ShaderPipeline`]: giving both shaders their sources,
/// compiling them, creating a program, attaching both shaders, linking it, then deleting
/// the shaders, which the program keeps alive.
#[derive(Debug)]
pub struct PipelineBuild {
    pub vertex: Shader,
    pub fragment: Shader,
    pub fragment_source: String,
    pub phase: BuildPhase,
}

impl ShaderPipeline {
    /// Starts building the pipeline's program: the returned call gives the vertex shader its
    /// source. [`PipelineBuild::resume`] takes it from there.
    pub fn compile(self) -> (r: (PipelineBuild, GlCall))
        ensures
            r.0.vertex == self.spec_vertex(),
            r.0.fragment == self.spec_fragment(),
            r.0.phase == BuildPhase::SourcingVertex,
            r.0.fragment_source@ == fragment_source_text(self.spec_version(), self.spec_pipes(),
                self.spec_output(), self.spec_fragment_body()),
            r.1 matches GlCall::ShaderSource { shader, sources } && shader == self.spec_vertex().0
                && sources@.len() == 1
                && sources@[0]@ == vertex_source_text(self.spec_version(), self.spec_inputs(),
                    self.spec_pipes(), self.spec_vertex_body()),
    {
        let vertex_source = self.vertex_source();
        let fragment_source = self.fragment_source();
        let call = ox::shader_source(self.vertex, vec![vertex_source]);
        (PipelineBuild { vertex: self.vertex, fragment: self.fragment, fragment_source, phase: BuildPhase::SourcingVertex }, call)
    }
}

impl PipelineBuild {
    /// Whether `reply` and `errors` can be what the driver made of this state's call. Giving
    /// sources to, attaching and deleting shaders that exist cannot fail.
    pub open spec fn accepts(&self, reply: Reply, errors: Seq<u32>) -> bool {
        &&& all_reported(errors)
        &&& match self.phase {
            BuildPhase::CompilingVertex(c) => c.accepts(reply, errors),
            BuildPhase::CompilingFragment(c) => c.accepts(reply, errors),
            BuildPhase::CreatingProgram => reply is Name,
            BuildPhase::Linking(_, c) => c.accepts(reply, errors),
            _ => errors.len() == 0,
        }
    }

    /// Takes the outcome of the last call and makes the next one, or ends the build with the
    /// program, or with the error of a failed compilation, program creation or link.
    pub fn resume(self, reply: Reply, errors: &Vec<u32>) -> (r: Step<PipelineBuild, Result<Program, OwlError>>)
        requires
            self.accepts(reply, errors@),
        ensures
            self.phase == BuildPhase::SourcingVertex ==> (r matches Step::Call(next, call)
                && next.vertex == self.vertex && next.fragment == self.fragment
                && next.phase == BuildPhase::SourcingFragment
                && (call matches GlCall::ShaderSource { shader, sources } && shader == self.fragment.0
                && sources@.len() == 1 && sources@[0]@ == self.fragment_source@)),
            self.phase == BuildPhase::SourcingFragment ==> (r matches Step::Call(next, call)
                && next.vertex == self.vertex && next.fragment == self.fragment
                && next.phase == BuildPhase::CompilingVertex(
                    BuildCheck { object: GlObject::Shader(self.vertex), stage: BuildStage::Building })
                && call == (GlCall::CompileShader { shader: self.vertex.0 })),
            self.phase matches BuildPhase::CompilingVertex(c) ==> match c.spec_next(reply, errors@) {
                Some((n, call)) => r matches Step::Call(next, c2) && c2 == call
                    && next.vertex == self.vertex && next.fragment == self.fragment
                    && next.phase == BuildPhase::CompilingVertex(n),
                None => if c.spec_succeeds(reply) {
                    r matches Step::Call(next, call)
                        && next.vertex == self.vertex && next.fragment == self.fragment
                        && next.phase == BuildPhase::CompilingFragment(
                            BuildCheck { object: GlObject::Shader(self.fragment), stage: BuildStage::Building })
                        && call == (GlCall::CompileShader { shader: self.fragment.0 })
                } else {
                    r matches Step::Done(Err(o)) && o.spec_message() == c.spec_failure_message(reply, errors@)
                        && o.spec_context() == "compiling pipeline (vertex shader)"@
                },
            },
            self.phase matches BuildPhase::CompilingFragment(c) ==> match c.spec_next(reply, errors@) {
                Some((n, call)) => r matches Step::Call(next, c2) && c2 == call
                    && next.vertex == self.vertex && next.fragment == self.fragment
                    && next.phase == BuildPhase::CompilingFragment(n),
                None => if c.spec_succeeds(reply) {
                    r matches Step::Call(next, call)
                        && next.vertex == self.vertex && next.fragment == self.fragment
                        && next.phase == BuildPhase::CreatingProgram
                        && call == GlCall::CreateProgram
                } else {
                    r matches Step::Done(Err(o)) && o.spec_message() == c.spec_failure_message(reply, errors@)
                        && o.spec_context() == "compiling pipeline (fragment shader)"@
                },
            },
            self.phase == BuildPhase::CreatingProgram ==> if ox::reply_name(reply) == 0 {
                r matches Step::Done(Err(o)) && o.spec_message() == "shader program creation failed"@
                    && o.spec_context() == "compiling pipeline (shader program)"@
            } else {
                r matches Step::Call(next, call)
                    && next.vertex == self.vertex && next.fragment == self.fragment
                    && next.phase == BuildPhase::AttachingVertex(ShaderProgram(ox::reply_name(reply)))
                    && call == (GlCall::AttachShader { program: ox::reply_name(reply), shader: self.vertex.0 })
            },
            self.phase matches BuildPhase::AttachingVertex(p) ==> (r matches Step::Call(next, call)
                && next.vertex == self.vertex && next.fragment == self.fragment
                && next.phase == BuildPhase::AttachingFragment(p)
                && call == (GlCall::AttachShader { program: p.0, shader: self.fragment.0 })),
            self.phase matches BuildPhase::AttachingFragment(p) ==> (r matches Step::Call(next, call)
                && next.vertex == self.vertex && next.fragment == self.fragment
                && next.phase == BuildPhase::Linking(p, BuildCheck { object: GlObject::Program(p), stage: BuildStage::Building })
                && call == (GlCall::LinkProgram { program: p.0 })),
            self.phase matches BuildPhase::Linking(p, c) ==> match c.spec_next(reply, errors@) {
                Some((n, call)) => r matches Step::Call(next, c2) && c2 == call
                    && next.vertex == self.vertex && next.fragment == self.fragment
                    && next.phase == BuildPhase::Linking(p, n),
                None => if c.spec_succeeds(reply) {
                    r matches Step::Call(next, call)
                        && next.vertex == self.vertex && next.fragment == self.fragment
                        && next.phase == BuildPhase::DeletingVertex(p)
                        && call == (GlCall::DeleteShader { shader: self.vertex.0 })
                } else {
                    r matches Step::Done(Err(o)) && o.spec_message() == c.spec_failure_message(reply, errors@)
                        && o.spec_context() == "compiling pipeline (linking shader program)"@
                },
            },
            self.phase matches BuildPhase::DeletingVertex(p) ==> (r matches Step::Call(next, call)
                && next.vertex == self.vertex && next.fragment == self.fragment
                && next.phase == BuildPhase::DeletingFragment(p)
                && call == (GlCall::DeleteShader { shader: self.fragment.0 })),
            self.phase matches BuildPhase::DeletingFragment(p) ==> (r matches Step::Done(Ok(program))
                && program.spec_name() == p),
    {
        let PipelineBuild { vertex, fragment, fragment_source, phase } = self;
        match phase {
            BuildPhase::SourcingVertex => {
                let call = ox::shader_source(fragment, vec![fragment_source]);
                Step::Call(PipelineBuild { vertex, fragment, fragment_source: String::new(), phase: BuildPhase::SourcingFragment }, call)
            },
            BuildPhase::SourcingFragment => {
                let (check, call) = ox::compile_shader(vertex);
                Step::Call(PipelineBuild { vertex, fragment, fragment_source, phase: BuildPhase::CompilingVertex(check) }, call)
            },
            BuildPhase::CompilingVertex(c) => match c.resume(reply, errors) {
                Step::Call(n, call) => Step::Call(PipelineBuild { vertex, fragment, fragment_source, phase: BuildPhase::CompilingVertex(n) }, call),
                Step::Done(Ok(())) => {
                    let (check, call) = ox::compile_shader(fragment);
                    Step::Call(PipelineBuild { vertex, fragment, fragment_source, phase: BuildPhase::CompilingFragment(check) }, call)
                },
                Step::Done(Err(e)) => {
                    let o = e.with_context("compiling pipeline (vertex shader)");
                    Step::Done(Err(o))
                },
            },
            BuildPhase::CompilingFragment(c) => match c.resume(reply, errors) {
                Step::Call(n, call) => Step::Call(PipelineBuild { vertex, fragment, fragment_source, phase: BuildPhase::CompilingFragment(n) }, call),
                Step::Done(Ok(())) => Step::Call(
                    PipelineBuild { vertex, fragment, fragment_source, phase: BuildPhase::CreatingProgram },
                    ox::create_program(),
                ),
                Step::Done(Err(e)) => {
                    let o = e.with_context("compiling pipeline (fragment shader)");
                    Step::Done(Err(o))
                },
            },
            BuildPhase::CreatingProgram => {
                let name: u32 = match reply {
                    Reply::Name(n) => n,
                    _ => 0,
                };
                match ox::created_program(name) {
                    Err(e) => Step::Done(Err(e.with_context("compiling pipeline (shader program)"))),
                    Ok(program) => Step::Call(
                        PipelineBuild { vertex, fragment, fragment_source, phase: BuildPhase::AttachingVertex(program) },
                        ox::attach_shader(program, vertex),
                    ),
                }
            },
            BuildPhase::AttachingVertex(program) => Step::Call(
                PipelineBuild { vertex, fragment, fragment_source, phase: BuildPhase::AttachingFragment(program) },
                ox::attach_shader(program, fragment),
            ),
            BuildPhase::AttachingFragment(program) => {
                let (check, call) = ox::link_program(program);
                Step::Call(PipelineBuild { vertex, fragment, fragment_source, phase: BuildPhase::Linking(program, check) }, call)
            },
            BuildPhase::Linking(program, c) => match c.resume(reply, errors) {
                Step::Call(n, call) => Step::Call(PipelineBuild { vertex, fragment, fragment_source, phase: BuildPhase::Linking(program, n) }, call),
                Step::Done(Ok(())) => Step::Call(
                    PipelineBuild { vertex, fragment, fragment_source, phase: BuildPhase::DeletingVertex(program) },
                    ox::delete_shader(vertex),
                ),
                Step::Done(Err(e)) => Step::Done(Err(e.with_context("compiling pipeline (linking shader program)"))),
            },
            BuildPhase::DeletingVertex(program) => Step::Call(
                PipelineBuild { vertex, fragment, fragment_source, phase: BuildPhase::DeletingFragment(program) },
                ox::delete_shader(fragment),
            ),
            BuildPhase::DeletingFragment(program) => Step::Done(Ok(Program(program))),
        }
    }
}

} // verus!
