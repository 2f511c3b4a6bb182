use owl::buffers::{ArrayBuffer, ElementBuffer};
use owl::mesh::{DrawStage, Mesh, MeshDraw};
use owl::oxidised_bindings::{
    Buffer, BuildCheck, BuildStage, DataTypeSize3, DataTypeSize4, DataTypeUnsized, FloatVertexFormat, GlObject,
    IntegralVertexFormat, Reply, Shader, ShaderProgram, Step, VertexArray as VertexArrayName,
};
use owl::safe_bindings::{BufferUsage, DrawMode, GlCall, IndexType, IntegralDataType};
use owl::shaders::{
    decimal_string, find_nul, Attribute, AttributeType, BuildPhase, CreationStage, Input, IntegralAttributeType,
    MatInputAttributePointer, NulError, Pipe, PipeTargets, PipelineCreation, Program, ShaderPipeline,
    ThinFloatAttributeType, ThinInputAttribute,
};
use owl::traits::Bytes;
use owl::vertex_arrays::{AttributePointer, InputArray, VertexArray};

fn call_of<S, R>(step: Step<S, R>) -> (S, GlCall) {
    match step {
        Step::Call(s, c) => (s, c),
        Step::Done(_) => panic!("the exchange ended early"),
    }
}

fn done_of<S, R>(step: Step<S, R>) -> R {
    match step {
        Step::Done(r) => r,
        Step::Call(_, c) => panic!("the exchange went on with {c:?}"),
    }
}

fn float_input(name: &str) -> ThinInputAttribute {
    ThinInputAttribute::Float {
        name: name.to_owned(),
        glsl_type: ThinFloatAttributeType::Vec2,
        data_format: FloatVertexFormat::Size2 { normalise: false, data_type: DataTypeUnsized::Float },
    }
}

#[test]
fn attribute_types_know_their_glsl_names_and_sizes() {
    assert_eq!(AttributeType::UVec3.glsl_name(), "uvec3");
    assert_eq!(AttributeType::BVec2.glsl_name(), "bvec2");
    assert_eq!(AttributeType::Mat4.glsl_name(), "mat4");
    assert_eq!(AttributeType::Float.size(), 1);
    assert_eq!(AttributeType::Vec4.size(), 1);
    assert_eq!(AttributeType::Mat2.size(), 2);
    assert_eq!(AttributeType::Mat3.size(), 3);
    assert_eq!(AttributeType::Mat4.size(), 4);
    assert_eq!(IntegralAttributeType::IVec4.attribute_type(), AttributeType::IVec4);
    assert_eq!(ThinFloatAttributeType::Bool.attribute_type(), AttributeType::Bool);
}

#[test]
fn numbers_are_written_in_decimal() {
    assert_eq!(decimal_string(0), "0");
    assert_eq!(decimal_string(7), "7");
    assert_eq!(decimal_string(430), "430");
    assert_eq!(decimal_string(u32::MAX), "4294967295");
}

#[test]
fn nul_bytes_are_found() {
    assert_eq!(find_nul("abc"), None);
    assert_eq!(find_nul("ab\0c\0"), Some(2));
    assert_eq!(find_nul(""), None);
}

#[test]
fn array_buffers_bind_then_upload() {
    let (buffer, calls) = ArrayBuffer::new(Buffer(3), vec![1u8, 2, 3], BufferUsage::StaticDraw);
    assert_eq!(calls, vec![
        GlCall::BindBuffer { target: gl::ARRAY_BUFFER, buffer: 3 },
        GlCall::BufferData { target: gl::ARRAY_BUFFER, data: vec![1, 2, 3], usage: gl::STATIC_DRAW },
    ]);
    let buffer = buffer.created(&vec![]).expect("no error was reported");
    assert_eq!(buffer.id(), Buffer(3));
    let failed = ArrayBuffer::new(Buffer(4), vec![1u8], BufferUsage::StaticDraw).0.created(&vec![gl::OUT_OF_MEMORY]);
    let (e, delete) = failed.expect_err("the driver ran out of memory");
    assert_eq!(e.to_string(), "creating ArrayBuffer: out of memory");
    assert_eq!(delete, GlCall::DeleteBuffers { names: vec![4] });
    assert_eq!(buffer.delete(), GlCall::DeleteBuffers { names: vec![3] });
}

#[test]
fn buffer_updates_explain_driver_errors() {
    let (mut buffer, _) = ArrayBuffer::new(Buffer(3), vec![0u8; 4], BufferUsage::DynamicDraw);
    let calls = buffer.update(vec![9u8, 9], 2);
    assert_eq!(calls, vec![
        GlCall::BindBuffer { target: gl::ARRAY_BUFFER, buffer: 3 },
        GlCall::BufferSubData { target: gl::ARRAY_BUFFER, offset: 2, data: vec![9, 9] },
    ]);
    assert!(ArrayBuffer::<u8>::updated(&vec![]).is_ok());
    let e = ArrayBuffer::<u8>::updated(&vec![gl::INVALID_OPERATION]).unwrap_err();
    assert_eq!(e.to_string(), "updating ArrayBuffer: buffer is being mapped, invalid operation");
    let e = ElementBuffer::<u8>::updated(&vec![gl::INVALID_VALUE]).unwrap_err();
    assert_eq!(e.to_string(), "updating ElementBuffer: offset + data length > buffer size, invalid value");
    let e = ElementBuffer::<u8>::updated(&vec![gl::OUT_OF_MEMORY]).unwrap_err();
    assert_eq!(e.to_string(), "updating ElementBuffer: no other errors should be produced, out of memory");
}

#[test]
fn element_buffers_remember_their_index_type() {
    let (buffer, calls) = ElementBuffer::new(Buffer(6), vec![0u32, 1, 2], BufferUsage::StaticDraw, IndexType::UnsignedInt);
    assert_eq!(calls[0], GlCall::BindBuffer { target: gl::ELEMENT_ARRAY_BUFFER, buffer: 6 });
    assert_eq!(buffer.index_type(), IndexType::UnsignedInt);
    let (e, delete) = buffer.created(&vec![gl::OUT_OF_MEMORY]).unwrap_err();
    assert_eq!(e.context(), "creating ElementBuffer");
    assert_eq!(delete, GlCall::DeleteBuffers { names: vec![6] });
}

#[test]
fn inputs_take_consecutive_locations_until_full() {
    let (buffer, _) = ArrayBuffer::new(Buffer(1), vec![0u8; 22], BufferUsage::StaticDraw);
    let mut inputs = InputArray::new(2);
    let pointer = AttributePointer { buffer: &buffer, stride: Bytes(11), offset: Bytes(0) };
    let calls = inputs.push(float_input("pos"), pointer).expect("a location is free");
    assert_eq!(calls, vec![
        GlCall::BindBuffer { target: gl::ARRAY_BUFFER, buffer: 1 },
        GlCall::VertexAttribPointer { index: 0, size: 2, data_type: gl::FLOAT, normalised: false, stride: 11, offset: 0 },
        GlCall::EnableVertexAttribArray { index: 0 },
    ]);
    let colour = ThinInputAttribute::Integral {
        name: "colour".to_owned(),
        glsl_type: IntegralAttributeType::UVec3,
        data_format: IntegralVertexFormat::Size3(IntegralDataType::UnsignedByte),
    };
    let calls = inputs.push(colour, AttributePointer { buffer: &buffer, stride: Bytes(11), offset: Bytes(8) }).unwrap();
    assert_eq!(calls[1], GlCall::VertexAttribIPointer { index: 1, size: 3, data_type: gl::UNSIGNED_BYTE, stride: 11, offset: 8 });
    assert_eq!(calls[2], GlCall::EnableVertexAttribArray { index: 1 });
    assert_eq!(inputs.length(), 2);
    let full = inputs.push(float_input("extra"), AttributePointer { buffer: &buffer, stride: Bytes(0), offset: Bytes(0) });
    assert_eq!(full.unwrap_err().message(), "maximum inputs reached");
    assert_eq!(inputs.length(), 2);
    assert_eq!(inputs.inputs()[1].index(), 1);
    assert_eq!(inputs.inputs()[1].attribute().name, "colour");
    assert_eq!(inputs.inputs()[1].attribute().glsl_type, AttributeType::UVec3);
}

#[test]
fn matrices_take_one_location_per_column() {
    let (buffer, _) = ArrayBuffer::new(Buffer(2), vec![0u8; 64], BufferUsage::StaticDraw);
    let column = |offset| AttributePointer { buffer: &buffer, stride: Bytes(36), offset: Bytes(offset) };
    let matrix = MatInputAttributePointer::Mat3 {
        name: "model".to_owned(),
        normalise: false,
        pointers: [column(0), column(12), column(24)],
        data_type: DataTypeSize3::Float,
    };
    let mut inputs = InputArray::new(4);
    let calls = inputs.push_mat(matrix).expect("three locations are free");
    assert_eq!(calls.len(), 9);
    assert_eq!(calls[1], GlCall::VertexAttribPointer { index: 0, size: 3, data_type: gl::FLOAT, normalised: false, stride: 36, offset: 0 });
    assert_eq!(calls[3], GlCall::VertexAttribPointer { index: 1, size: 3, data_type: gl::FLOAT, normalised: false, stride: 36, offset: 12 });
    assert_eq!(calls[5], GlCall::VertexAttribPointer { index: 2, size: 3, data_type: gl::FLOAT, normalised: false, stride: 36, offset: 24 });
    assert_eq!(&calls[6..], &[
        GlCall::EnableVertexAttribArray { index: 0 },
        GlCall::EnableVertexAttribArray { index: 1 },
        GlCall::EnableVertexAttribArray { index: 2 },
    ]);
    assert_eq!(inputs.length(), 3);
    let too_big = MatInputAttributePointer::Mat2 {
        name: "m".to_owned(),
        normalise: true,
        pointers: [column(0), column(8)],
        data_type: DataTypeUnsized::Float,
    };
    assert!(inputs.push_mat(too_big).is_err());
    assert_eq!(inputs.length(), 3);
    let (input, calls) = Input::new_mat(5, MatInputAttributePointer::Mat4 {
        name: "m4".to_owned(),
        normalise: false,
        pointers: [column(0), column(16), column(32), column(48)],
        data_type: DataTypeSize4::Float,
    });
    assert_eq!(input.index(), 5);
    assert_eq!(input.attribute().glsl_type, AttributeType::Mat4);
    assert_eq!(calls[7], GlCall::VertexAttribPointer { index: 8, size: 4, data_type: gl::FLOAT, normalised: false, stride: 36, offset: 48 });
}

#[test]
fn vertex_arrays_bind_before_adding_inputs() {
    let (buffer, _) = ArrayBuffer::new(Buffer(1), vec![0u8; 8], BufferUsage::StaticDraw);
    let va: VertexArray<u32> = VertexArray::new(VertexArrayName(7), 16);
    let (indices, _) = ElementBuffer::new(Buffer(2), vec![0u32, 1, 2], BufferUsage::StaticDraw, IndexType::UnsignedInt);
    let (va, calls) = va.with_indices(indices);
    assert_eq!(calls, vec![
        GlCall::BindVertexArray { array: 7 },
        GlCall::BindBuffer { target: gl::ELEMENT_ARRAY_BUFFER, buffer: 2 },
    ]);
    let (va, calls) = va.with_input(float_input("pos"), AttributePointer { buffer: &buffer, stride: Bytes(8), offset: Bytes(0) }).unwrap();
    assert_eq!(calls[0], GlCall::BindVertexArray { array: 7 });
    assert_eq!(calls.len(), 4);
    assert_eq!(va.inputs().length(), 1);
    let full: VertexArray<u32> = VertexArray::new(VertexArrayName(8), 0);
    assert!(full.with_input(float_input("pos"), AttributePointer { buffer: &buffer, stride: Bytes(8), offset: Bytes(0) }).is_err());
    assert_eq!(va.delete(), vec![
        GlCall::DeleteVertexArrays { names: vec![7] },
        GlCall::DeleteBuffers { names: vec![2] },
    ]);
}

fn new_pipeline() -> ShaderPipeline {
    let (creation, call) = ShaderPipeline::new(430).expect("430 is supported");
    assert_eq!(call, GlCall::CreateShader { shader_type: gl::VERTEX_SHADER });
    let (creation, call) = call_of(creation.resume(Reply::Name(1)));
    assert_eq!(creation, PipelineCreation { version: 430, stage: CreationStage::CreatingFragment(Shader(1)) });
    assert_eq!(call, GlCall::CreateShader { shader_type: gl::FRAGMENT_SHADER });
    done_of(creation.resume(Reply::Name(2))).expect("both shaders were created")
}

#[test]
fn only_glsl_430_is_accepted() {
    let e = ShaderPipeline::new(330).unwrap_err();
    assert_eq!(e.message(), "incorrect glsl version, accepted versions: 430");
    let (creation, _) = ShaderPipeline::new(430).unwrap();
    let e = done_of(creation.resume(Reply::Name(0))).unwrap_err();
    assert_eq!(e.to_string(), "creating pipeline (vertex shader): shader creation failed");
}

#[test]
fn sources_declare_inputs_pipes_and_output() {
    let (buffer, _) = ArrayBuffer::new(Buffer(1), vec![0u8; 11], BufferUsage::StaticDraw);
    let colour = ThinInputAttribute::Integral {
        name: "colour".to_owned(),
        glsl_type: IntegralAttributeType::UVec3,
        data_format: IntegralVertexFormat::Size3(IntegralDataType::UnsignedByte),
    };
    let (va, _) = VertexArray::<u32>::new(VertexArrayName(3), 16)
        .with_input(float_input("pos"), AttributePointer { buffer: &buffer, stride: Bytes(11), offset: Bytes(0) }).unwrap();
    let (va, _) = va.with_input(colour, AttributePointer { buffer: &buffer, stride: Bytes(11), offset: Bytes(8) }).unwrap();
    let pipeline = new_pipeline()
        .inputs_from_vertex_array(&va)
        .pipe(Pipe { targets: PipeTargets::VertexFragment, attribute: Attribute { name: "vertColour".to_owned(), glsl_type: AttributeType::Vec3 } })
        .vertex_body("void main() { gl_Position = vec4(pos, 0.0, 1.0); }").expect("no nul bytes")
        .fragment_body("void main() { colour = vec4(vertColour, 1.0); }",
            Attribute { name: "colour".to_owned(), glsl_type: AttributeType::Vec4 }).expect("no nul bytes");
    assert_eq!(pipeline.vertex_source(), "#version 430 core\n\
        layout (location = 0) in vec2 pos;\n\
        layout (location = 1) in uvec3 colour;\n\
        out vec3 vertColour;\n\
        void main() { gl_Position = vec4(pos, 0.0, 1.0); }");
    assert_eq!(pipeline.fragment_source(), "#version 430 core\n\
        in vec3 vertColour;\n\
        out vec4 colour;\n\
        void main() { colour = vec4(vertColour, 1.0); }");
}

#[test]
fn bodies_with_nul_bytes_are_refused() {
    let e = new_pipeline().vertex_body("void\0main").unwrap_err();
    assert_eq!(e, NulError { position: 4 });
    let e = new_pipeline().fragment_body("\0", Attribute { name: "c".to_owned(), glsl_type: AttributeType::Vec4 }).unwrap_err();
    assert_eq!(e.position, 0);
}

#[test]
fn compiling_a_pipeline_runs_every_step_in_order() {
    let pipeline = new_pipeline().vertex_body("void main() {}").unwrap();
    let expected_vertex = pipeline.vertex_source();
    let expected_fragment = pipeline.fragment_source();
    let (build, call) = pipeline.compile();
    assert_eq!(call, GlCall::ShaderSource { shader: 1, sources: vec![expected_vertex] });
    let (build, call) = call_of(build.resume(Reply::Nothing, &vec![]));
    assert_eq!(call, GlCall::ShaderSource { shader: 2, sources: vec![expected_fragment] });
    let (build, call) = call_of(build.resume(Reply::Nothing, &vec![]));
    assert_eq!(call, GlCall::CompileShader { shader: 1 });
    let (build, call) = call_of(build.resume(Reply::Nothing, &vec![]));
    assert_eq!(call, GlCall::GetShaderiv { shader: 1, parameter: gl::COMPILE_STATUS });
    let (build, call) = call_of(build.resume(Reply::Integer(1), &vec![]));
    assert_eq!(call, GlCall::CompileShader { shader: 2 });
    let (build, _) = call_of(build.resume(Reply::Nothing, &vec![]));
    let (build, call) = call_of(build.resume(Reply::Integer(1), &vec![]));
    assert_eq!(call, GlCall::CreateProgram);
    let (build, call) = call_of(build.resume(Reply::Name(9), &vec![]));
    assert_eq!(call, GlCall::AttachShader { program: 9, shader: 1 });
    let (build, call) = call_of(build.resume(Reply::Nothing, &vec![]));
    assert_eq!(call, GlCall::AttachShader { program: 9, shader: 2 });
    let (build, call) = call_of(build.resume(Reply::Nothing, &vec![]));
    assert_eq!(call, GlCall::LinkProgram { program: 9 });
    let (build, call) = call_of(build.resume(Reply::Nothing, &vec![]));
    assert_eq!(call, GlCall::GetProgramiv { program: 9, parameter: gl::LINK_STATUS });
    let (build, call) = call_of(build.resume(Reply::Integer(1), &vec![]));
    assert_eq!(call, GlCall::DeleteShader { shader: 1 });
    let (build, call) = call_of(build.resume(Reply::Nothing, &vec![]));
    assert_eq!(call, GlCall::DeleteShader { shader: 2 });
    assert_eq!(build.phase, BuildPhase::DeletingFragment(ShaderProgram(9)));
    let program = done_of(build.resume(Reply::Nothing, &vec![])).expect("the build succeeded");
    assert_eq!(program.name(), ShaderProgram(9));
}

#[test]
fn a_vertex_shader_that_fails_ends_the_build() {
    let (build, _) = new_pipeline().compile();
    let (build, _) = call_of(build.resume(Reply::Nothing, &vec![]));
    let (build, _) = call_of(build.resume(Reply::Nothing, &vec![]));
    assert_eq!(build.phase, BuildPhase::CompilingVertex(BuildCheck { object: GlObject::Shader(Shader(1)), stage: BuildStage::Building }));
    let (build, _) = call_of(build.resume(Reply::Nothing, &vec![]));
    let (build, _) = call_of(build.resume(Reply::Integer(0), &vec![]));
    let (build, call) = call_of(build.resume(Reply::Integer(6), &vec![]));
    assert_eq!(call, GlCall::GetShaderInfoLog { shader: 1, capacity: 6 });
    let e = done_of(build.resume(Reply::Log(b"oops!\0".to_vec()), &vec![])).unwrap_err();
    assert_eq!(e.context(), "compiling pipeline (vertex shader)");
    assert_eq!(e.message(), "shader compilation failed\noops!");
}

#[test]
fn programs_explain_why_they_could_not_be_used() {
    assert!(Program::used(&vec![]).is_ok());
    let e = Program::used(&vec![gl::INVALID_OPERATION]).unwrap_err();
    assert_eq!(e.to_string(), "using program failed: transform feedback mode active, invalid operation");
    let e = Program::used(&vec![gl::INVALID_VALUE]).unwrap_err();
    assert_eq!(e.message(), "no other errors should be produced, invalid value");
}

fn build_program(name: u32) -> Program {
    let (build, _) = new_pipeline().compile();
    let mut step = build.resume(Reply::Nothing, &vec![]);
    let replies = [Reply::Nothing, Reply::Nothing, Reply::Integer(1), Reply::Nothing, Reply::Integer(1),
        Reply::Name(name), Reply::Nothing, Reply::Nothing, Reply::Nothing, Reply::Integer(1), Reply::Nothing, Reply::Nothing];
    for reply in replies {
        let (build, _) = call_of(step);
        step = build.resume(reply, &vec![]);
    }
    done_of(step).expect("the build succeeded")
}

#[test]
fn meshes_with_indices_draw_elements() {
    let program = build_program(4);
    assert_eq!(program.use_self(), GlCall::UseProgram { program: 4 });
    let (indices, _) = ElementBuffer::new(Buffer(2), vec![0u16, 1, 2], BufferUsage::StaticDraw, IndexType::UnsignedShort);
    let (va, _) = VertexArray::<u16>::new(VertexArrayName(5), 16).with_indices(indices);
    let mesh = Mesh { start: 0, count: 3, vertex_array: &va };
    let (draw, call) = mesh.draw(DrawMode::Triangles, &program);
    assert_eq!(call, GlCall::UseProgram { program: 4 });
    let (draw, call) = call_of(draw.resume(&vec![]));
    assert_eq!(call, GlCall::BindVertexArray { array: 5 });
    let (draw, call) = call_of(draw.resume(&vec![]));
    assert_eq!(call, GlCall::DrawElements { mode: gl::TRIANGLES, count: 3, index_type: gl::UNSIGNED_SHORT, offset: 0 });
    assert_eq!(draw.stage, DrawStage::Drawing);
    assert!(done_of(draw.resume(&vec![])).is_ok());
    assert_eq!(program.delete(), GlCall::DeleteProgram { program: 4 });
}

#[test]
fn meshes_without_indices_draw_arrays_and_explain_errors() {
    let program = build_program(4);
    let va = VertexArray::<u8>::new(VertexArrayName(5), 16);
    let mesh = Mesh { start: 2, count: 6, vertex_array: &va };
    let (draw, _) = mesh.draw(DrawMode::Lines, &program);
    let e = done_of(draw.resume(&vec![gl::INVALID_OPERATION])).unwrap_err();
    assert_eq!(e.context(), "drawing mesh, using program failed");
    let (draw, _) = mesh.draw(DrawMode::Lines, &program);
    let (draw, _) = call_of(draw.resume(&vec![]));
    let (draw, call) = call_of(draw.resume(&vec![]));
    assert_eq!(call, GlCall::DrawArrays { mode: gl::LINES, first: 2, count: 6 });
    let e = done_of(draw.resume(&vec![gl::INVALID_OPERATION])).unwrap_err();
    assert_eq!(e.to_string(), "drawing mesh, element draw failed: either one of the buffers used is being mapped, \
        or the geometry shader's input primitive is incompatible with the draw mode, invalid operation");
    let _ = MeshDraw { stage: DrawStage::Drawing, array: VertexArrayName(5), mode: DrawMode::Points, start: 0, count: 0, index_type: None };
}

#[test]
fn a_program_that_fails_to_link_ends_the_build_with_its_log() {
    let (build, _) = new_pipeline().compile();
    let replies = [Reply::Nothing, Reply::Nothing, Reply::Integer(1), Reply::Nothing, Reply::Integer(1),
        Reply::Name(9), Reply::Nothing, Reply::Nothing, Reply::Nothing];
    let mut step = build.resume(Reply::Nothing, &vec![]);
    for reply in replies {
        let (build, _) = call_of(step);
        step = build.resume(reply, &vec![]);
    }
    let (build, call) = call_of(step);
    assert_eq!(call, GlCall::GetProgramiv { program: 9, parameter: gl::LINK_STATUS });
    let (build, call) = call_of(build.resume(Reply::Integer(0), &vec![]));
    assert_eq!(call, GlCall::GetProgramiv { program: 9, parameter: gl::INFO_LOG_LENGTH });
    let (build, call) = call_of(build.resume(Reply::Integer(12), &vec![]));
    assert_eq!(call, GlCall::GetProgramInfoLog { program: 9, capacity: 12 });
    let e = done_of(build.resume(Reply::Log(b"link error\0\0".to_vec()), &vec![])).unwrap_err();
    assert_eq!(e.context(), "compiling pipeline (linking shader program)");
    assert_eq!(e.message(), "shader program linking failed\nlink error");
}
