use owl::oxidised_bindings::{
    attach_shader, bind_buffer, bind_vertex_array, buffer_data, buffer_subdata, buffers_from_names,
    compile_shader, compile_status_from_reply, create_program, create_shader, created_program,
    created_shader, delete_buffer, delete_buffers, delete_program, delete_shader, delete_status_from_reply,
    delete_vertex_array, delete_vertex_arrays, detach_shader, draw_arrays, draw_elements,
    enable_vertex_attrib_array, gen_buffer, gen_buffers, gen_vertex_array, gen_vertex_arrays, get_program_info_log,
    get_program_info_log_length, get_program_link_status, get_shader_compile_status, get_shader_delete_status,
    get_shader_info_log, get_shader_info_log_length, get_uint, last_error, last_error_as_result,
    link_program, link_status_from_reply, log_length_from_reply, program_log_text, shader_log_text, shader_source,
    uint_from_reply, use_program,
    vertex_attrib_i_pointer, vertex_attrib_pointer, Buffer, BuildCheck, BuildStage, DataTypeSize3,
    DataTypeSize4, DataTypeSizeBgra, DataTypeUnsized, FloatVertexFormat, GlObject, IntegralVertexFormat,
    LinkStatus, LogRead, LogStage, OxError, Reply, Shader, ShaderCompileStatus, ShaderDeleteStatus, ShaderError,
    ShaderProgram, Step, UIntParameter, VertexArray,
};
use owl::safe_bindings::{
    BufferType, BufferUsage, Clear, ClearFlags, DeleteBuffer, DeleteVertexArray, DrawMode, Error, GenBuffer,
    GenVertexArray, GlCall, IndexType, IntegralDataType, CLEAR_COLOUR_BUFFER,
};
use owl::traits::{native_byte_order, ByteOrder};

fn native(bytes_le: Vec<u8>) -> Vec<u8> {
    match native_byte_order() {
        ByteOrder::Little => bytes_le,
        ByteOrder::Big => {
            let mut b = bytes_le;
            b.reverse();
            b
        }
    }
}

#[test]
fn single_name_requests_ask_for_one_name() {
    assert_eq!(GenBuffer(), GlCall::GenBuffers { count: 1 });
    assert_eq!(gen_buffer(), GlCall::GenBuffers { count: 1 });
    assert_eq!(gen_buffers(7), GlCall::GenBuffers { count: 7 });
    assert_eq!(GenVertexArray(), GlCall::GenVertexArrays { count: 1 });
    assert_eq!(gen_vertex_array(), GlCall::GenVertexArrays { count: 1 });
    assert_eq!(gen_vertex_arrays(3), GlCall::GenVertexArrays { count: 3 });
}

#[test]
fn deletions_name_exactly_the_objects() {
    assert_eq!(DeleteBuffer(9), GlCall::DeleteBuffers { names: vec![9] });
    assert_eq!(delete_buffer(Buffer(4)), GlCall::DeleteBuffers { names: vec![4] });
    assert_eq!(delete_buffers(vec![Buffer(1), Buffer(2), Buffer(5)]), GlCall::DeleteBuffers { names: vec![1, 2, 5] });
    assert_eq!(DeleteVertexArray(3), GlCall::DeleteVertexArrays { names: vec![3] });
    assert_eq!(delete_vertex_array(VertexArray(8)), GlCall::DeleteVertexArrays { names: vec![8] });
    assert_eq!(delete_vertex_arrays(vec![VertexArray(2), VertexArray(6)]), GlCall::DeleteVertexArrays { names: vec![2, 6] });
    assert_eq!(delete_vertex_arrays(vec![]), GlCall::DeleteVertexArrays { names: vec![] });
}

#[test]
fn generated_names_become_buffers_in_order() {
    assert_eq!(buffers_from_names(&vec![3, 1, 2]), vec![Buffer(3), Buffer(1), Buffer(2)]);
    assert_eq!(buffers_from_names(&vec![]), Vec::<Buffer>::new());
}

#[test]
fn binding_none_binds_zero() {
    assert_eq!(bind_buffer(BufferType::Array, Some(Buffer(5))), GlCall::BindBuffer { target: gl::ARRAY_BUFFER, buffer: 5 });
    assert_eq!(bind_buffer(BufferType::ElementArray, None), GlCall::BindBuffer { target: gl::ELEMENT_ARRAY_BUFFER, buffer: 0 });
    assert_eq!(bind_vertex_array(Some(VertexArray(2))), GlCall::BindVertexArray { array: 2 });
    assert_eq!(bind_vertex_array(None), GlCall::BindVertexArray { array: 0 });
}

#[test]
fn buffer_data_sends_the_items_bytes() {
    let call = buffer_data(BufferType::Array, vec![1u16, 0x0203], BufferUsage::StaticDraw);
    assert_eq!(call, GlCall::BufferData {
        target: gl::ARRAY_BUFFER,
        data: native(vec![1, 0, 3, 2]),
        usage: gl::STATIC_DRAW,
    });
}

#[test]
fn buffer_subdata_offset_counts_items() {
    let call = buffer_subdata(BufferType::ElementArray, vec![7u32, 8u32], 3);
    assert_eq!(call, GlCall::BufferSubData {
        target: gl::ELEMENT_ARRAY_BUFFER,
        offset: 12,
        data: native(vec![7, 0, 0, 0, 8, 0, 0, 0]),
    });
    let empty = buffer_subdata(BufferType::Array, Vec::<u8>::new(), 5);
    assert_eq!(empty, GlCall::BufferSubData { target: gl::ARRAY_BUFFER, offset: 0, data: vec![] });
}

#[test]
fn float_formats_decompose_into_size_type_and_normalisation() {
    let call = vertex_attrib_pointer(2, FloatVertexFormat::Size3 { normalise: true, data_type: DataTypeSize3::UnsignedInt10f11f11fRev }, 12, 4);
    assert_eq!(call, GlCall::VertexAttribPointer {
        index: 2, size: 3, data_type: gl::UNSIGNED_INT_10F_11F_11F_REV, normalised: true, stride: 12, offset: 4,
    });
    let bgra = vertex_attrib_pointer(0, FloatVertexFormat::SizeBgra(DataTypeSizeBgra::UnsignedByte), 4, 0);
    assert_eq!(bgra, GlCall::VertexAttribPointer {
        index: 0, size: gl::BGRA as i32, data_type: gl::UNSIGNED_BYTE, normalised: false, stride: 4, offset: 0,
    });
    let one = vertex_attrib_pointer(1, FloatVertexFormat::Size1 { normalise: false, data_type: DataTypeUnsized::Double }, 8, 16);
    assert_eq!(one, GlCall::VertexAttribPointer {
        index: 1, size: 1, data_type: gl::DOUBLE, normalised: false, stride: 8, offset: 16,
    });
    let four = vertex_attrib_pointer(5, FloatVertexFormat::Size4 { normalise: false, data_type: DataTypeSize4::Int2_10_10_10Rev }, 4, 0);
    assert_eq!(four, GlCall::VertexAttribPointer {
        index: 5, size: 4, data_type: gl::INT_2_10_10_10_REV, normalised: false, stride: 4, offset: 0,
    });
}

#[test]
fn integral_formats_decompose_into_size_and_type() {
    let call = vertex_attrib_i_pointer(1, IntegralVertexFormat::Size3(IntegralDataType::UnsignedByte), 11, 8);
    assert_eq!(call, GlCall::VertexAttribIPointer { index: 1, size: 3, data_type: gl::UNSIGNED_BYTE, stride: 11, offset: 8 });
    assert_eq!(enable_vertex_attrib_array(6), GlCall::EnableVertexAttribArray { index: 6 });
}

#[test]
fn shader_and_program_calls_carry_their_names() {
    assert_eq!(create_shader(owl::safe_bindings::ShaderType::Vertex), GlCall::CreateShader { shader_type: gl::VERTEX_SHADER });
    assert_eq!(delete_shader(Shader(3)), GlCall::DeleteShader { shader: 3 });
    assert_eq!(shader_source(Shader(3), vec!["void main() {}".to_owned()]),
        GlCall::ShaderSource { shader: 3, sources: vec!["void main() {}".to_owned()] });
    assert_eq!(create_program(), GlCall::CreateProgram);
    assert_eq!(delete_program(ShaderProgram(4)), GlCall::DeleteProgram { program: 4 });
    assert_eq!(attach_shader(ShaderProgram(4), Shader(3)), GlCall::AttachShader { program: 4, shader: 3 });
    assert_eq!(detach_shader(ShaderProgram(4), Shader(3)), GlCall::DetachShader { program: 4, shader: 3 });
    assert_eq!(use_program(ShaderProgram(4)), GlCall::UseProgram { program: 4 });
    assert_eq!(get_shader_compile_status(Shader(3)), GlCall::GetShaderiv { shader: 3, parameter: gl::COMPILE_STATUS });
    assert_eq!(get_shader_delete_status(Shader(3)), GlCall::GetShaderiv { shader: 3, parameter: gl::DELETE_STATUS });
    assert_eq!(get_shader_info_log_length(Shader(3)), GlCall::GetShaderiv { shader: 3, parameter: gl::INFO_LOG_LENGTH });
    assert_eq!(get_program_link_status(ShaderProgram(4)), GlCall::GetProgramiv { program: 4, parameter: gl::LINK_STATUS });
    assert_eq!(get_program_info_log_length(ShaderProgram(4)), GlCall::GetProgramiv { program: 4, parameter: gl::INFO_LOG_LENGTH });
    assert_eq!(get_uint(UIntParameter::MaxVertexAttribs), GlCall::GetIntegerv { parameter: gl::MAX_VERTEX_ATTRIBS });
    assert_eq!(uint_from_reply(16), 16);
    assert_eq!(uint_from_reply(-1), u32::MAX);
}

#[test]
fn draws_carry_mode_counts_and_offsets() {
    assert_eq!(draw_elements(DrawMode::Triangles, 3, IndexType::UnsignedInt, 0),
        GlCall::DrawElements { mode: gl::TRIANGLES, count: 3, index_type: gl::UNSIGNED_INT, offset: 0 });
    assert_eq!(draw_arrays(DrawMode::LineStrip, 2, 10), GlCall::DrawArrays { mode: gl::LINE_STRIP, first: 2, count: 10 });
    assert_eq!(Clear(ClearFlags { bits: CLEAR_COLOUR_BUFFER }), GlCall::Clear { mask: gl::COLOR_BUFFER_BIT });
}

#[test]
fn the_last_reported_error_wins() {
    assert_eq!(last_error(&vec![]), None);
    assert_eq!(last_error(&vec![gl::INVALID_VALUE, gl::OUT_OF_MEMORY]), Some(OxError::BaseError(Error::OutOfMemory)));
    assert_eq!(last_error_as_result(&vec![]), Ok(()));
    assert_eq!(last_error_as_result(&vec![gl::INVALID_OPERATION]), Err(OxError::BaseError(Error::InvalidOperation)));
}

#[test]
fn boolean_queries_decode_true_and_false() {
    assert_eq!(compile_status_from_reply(&vec![], gl::TRUE as i32), Ok(ShaderCompileStatus::Succeeded));
    assert_eq!(compile_status_from_reply(&vec![], gl::FALSE as i32), Ok(ShaderCompileStatus::Failed));
    assert_eq!(compile_status_from_reply(&vec![gl::INVALID_VALUE], 0), Err(OxError::BaseError(Error::InvalidValue)));
    assert_eq!(delete_status_from_reply(&vec![], gl::TRUE as i32), Ok(ShaderDeleteStatus::Deleted));
    assert_eq!(delete_status_from_reply(&vec![], gl::FALSE as i32), Ok(ShaderDeleteStatus::Valid));
    assert_eq!(link_status_from_reply(&vec![], gl::TRUE as i32), Ok(LinkStatus::Succeeded));
    assert_eq!(link_status_from_reply(&vec![], gl::FALSE as i32), Ok(LinkStatus::Failed));
    assert_eq!(link_status_from_reply(&vec![gl::INVALID_OPERATION], 1), Err(OxError::BaseError(Error::InvalidOperation)));
    assert_eq!(log_length_from_reply(&vec![], 42), Ok(42));
    assert_eq!(log_length_from_reply(&vec![gl::INVALID_OPERATION], 42), Err(OxError::BaseError(Error::InvalidOperation)));
}

#[test]
fn created_names_of_zero_are_failures() {
    assert_eq!(created_shader(0), Err(OxError::ShaderError(ShaderError::CreationFailed)));
    assert_eq!(created_shader(7), Ok(Shader(7)));
    assert_eq!(created_program(0), Err(OxError::ShaderError(ShaderError::ProgramCreationFailed)));
    assert_eq!(created_program(2), Ok(ShaderProgram(2)));
}

#[test]
fn program_logs_stop_at_the_first_nul_and_replace_invalid_utf8() {
    assert_eq!(program_log_text(&b"0:1: error\0".to_vec()), "0:1: error");
    assert_eq!(program_log_text(&vec![]), "");
    assert_eq!(program_log_text(&vec![0]), "");
    assert_eq!(program_log_text(&vec![b'a', 0xff, b'b', 0, b'c', 0]), "a\u{fffd}b");
}

#[test]
fn shader_logs_drop_only_their_final_nul() {
    assert_eq!(shader_log_text(&b"0:1: error\0".to_vec()), "0:1: error");
    assert_eq!(shader_log_text(&vec![]), "");
    assert_eq!(shader_log_text(&vec![0]), "");
    assert_eq!(shader_log_text(&vec![b'a', 0xff, 0]), "a\u{fffd}");
    assert_eq!(shader_log_text(&vec![b'a', 0, b'b', 0]), "a\0b");
}

#[test]
fn error_messages_describe_the_failure() {
    assert_eq!(ShaderError::CompilationFailed { info_log: "bad".to_owned() }.message(), "shader compilation failed\nbad");
    assert_eq!(ShaderError::LinkingFailed { info_log: "worse".to_owned() }.message(), "shader program linking failed\nworse");
    assert_eq!(ShaderError::CreationFailed.message(), "shader creation failed");
    assert_eq!(ShaderError::ProgramCreationFailed.message(), "shader program creation failed");
    assert_eq!(OxError::BaseError(Error::StackOverflow).message(), "stack overflow");
}

fn call_of<S, R>(step: Step<S, R>) -> (S, GlCall) {
    match step {
        Step::Call(s, c) => (s, c),
        Step::Done(_) => panic!("the exchange ended early"),
    }
}

fn done_of<S, R>(step: Step<S, R>) -> R {
    match step {
        Step::Done(r) => r,
        Step::Call(_, c) => panic!("the exchange went on with {c:?}"),
    }
}

#[test]
fn a_shader_that_compiles_is_checked_once() {
    let (check, call) = compile_shader(Shader(5));
    assert_eq!(call, GlCall::CompileShader { shader: 5 });
    let (check, call) = call_of(check.resume(Reply::Nothing, &vec![]));
    assert_eq!(call, GlCall::GetShaderiv { shader: 5, parameter: gl::COMPILE_STATUS });
    assert_eq!(check, BuildCheck { object: GlObject::Shader(Shader(5)), stage: BuildStage::AskingStatus });
    assert_eq!(done_of(check.resume(Reply::Integer(1), &vec![])), Ok(()));
}

#[test]
fn a_shader_that_fails_to_compile_reports_its_log() {
    let (check, _) = compile_shader(Shader(5));
    let (check, _) = call_of(check.resume(Reply::Nothing, &vec![]));
    let (check, call) = call_of(check.resume(Reply::Integer(0), &vec![]));
    assert_eq!(call, GlCall::GetShaderiv { shader: 5, parameter: gl::INFO_LOG_LENGTH });
    let (check, call) = call_of(check.resume(Reply::Integer(9), &vec![]));
    assert_eq!(call, GlCall::GetShaderInfoLog { shader: 5, capacity: 9 });
    let result = done_of(check.resume(Reply::Log(b"bad line\0".to_vec()), &vec![]));
    assert_eq!(result, Err(OxError::ShaderError(ShaderError::CompilationFailed { info_log: "bad line".to_owned() })));
}

#[test]
fn an_error_after_compiling_ends_the_check() {
    let (check, _) = compile_shader(Shader(5));
    assert_eq!(done_of(check.resume(Reply::Nothing, &vec![gl::INVALID_VALUE])), Err(OxError::BaseError(Error::InvalidValue)));
}

#[test]
fn a_program_that_fails_to_link_reports_its_log() {
    let (check, call) = link_program(ShaderProgram(2));
    assert_eq!(call, GlCall::LinkProgram { program: 2 });
    let (check, call) = call_of(check.resume(Reply::Nothing, &vec![]));
    assert_eq!(call, GlCall::GetProgramiv { program: 2, parameter: gl::LINK_STATUS });
    let (check, _) = call_of(check.resume(Reply::Integer(0), &vec![]));
    let (check, call) = call_of(check.resume(Reply::Integer(4), &vec![]));
    assert_eq!(call, GlCall::GetProgramInfoLog { program: 2, capacity: 4 });
    let result = done_of(check.resume(Reply::Log(b"no\0\0".to_vec()), &vec![]));
    assert_eq!(result, Err(OxError::ShaderError(ShaderError::LinkingFailed { info_log: "no".to_owned() })));
}

#[test]
fn logs_are_read_after_their_length() {
    let (read, call) = get_shader_info_log(Shader(1));
    assert_eq!(call, GlCall::GetShaderiv { shader: 1, parameter: gl::INFO_LOG_LENGTH });
    let (read, call) = call_of(read.resume(Reply::Integer(3), &vec![]));
    assert_eq!(read, LogRead { object: GlObject::Shader(Shader(1)), stage: LogStage::ReadingLog });
    assert_eq!(call, GlCall::GetShaderInfoLog { shader: 1, capacity: 3 });
    assert_eq!(done_of(read.resume(Reply::Log(b"ok\0".to_vec()), &vec![])), Ok("ok".to_owned()));
    let (read, _) = get_shader_info_log(Shader(1));
    let (read, call) = call_of(read.resume(Reply::Integer(0), &vec![]));
    assert_eq!(call, GlCall::GetShaderInfoLog { shader: 1, capacity: 0 });
    assert_eq!(done_of(read.resume(Reply::Log(vec![]), &vec![])), Ok(String::new()));
    let (read, _) = get_program_info_log(ShaderProgram(1));
    assert_eq!(done_of(read.resume(Reply::Integer(0), &vec![gl::INVALID_OPERATION])), Err(OxError::BaseError(Error::InvalidOperation)));
}
