use owl::codes;
use owl::safe_bindings::{
    AttribSize, BufferType, BufferUsage, ClearFlags, DataType, DrawMode, Error, IndexType,
    IntegralAttribSize, IntegralDataType, Parameter, ProgramParameter, ShaderParameter, ShaderType,
    CLEAR_COLOUR_BUFFER, CLEAR_DEPTH_BUFFER, CLEAR_STENCIL_BUFFER,
};

#[test]
fn buffer_targets_match_the_gl_registry() {
    let pairs = [
        (BufferType::Array, gl::ARRAY_BUFFER),
        (BufferType::AtomicCounter, gl::ATOMIC_COUNTER_BUFFER),
        (BufferType::CopyRead, gl::COPY_READ_BUFFER),
        (BufferType::CopyWrite, gl::COPY_WRITE_BUFFER),
        (BufferType::DispatchIndirect, gl::DISPATCH_INDIRECT_BUFFER),
        (BufferType::DrawIndirect, gl::DRAW_INDIRECT_BUFFER),
        (BufferType::ElementArray, gl::ELEMENT_ARRAY_BUFFER),
        (BufferType::PixelPack, gl::PIXEL_PACK_BUFFER),
        (BufferType::PixelUnpack, gl::PIXEL_UNPACK_BUFFER),
        (BufferType::Query, gl::QUERY_BUFFER),
        (BufferType::ShaderStorage, gl::SHADER_STORAGE_BUFFER),
        (BufferType::Texture, gl::TEXTURE_BUFFER),
        (BufferType::TransformFeedback, gl::TRANSFORM_FEEDBACK_BUFFER),
        (BufferType::Uniform, gl::UNIFORM_BUFFER),
    ];
    for (t, code) in pairs {
        assert_eq!(t.gl_enum(), code, "{t:?}");
    }
}

#[test]
fn buffer_usages_match_the_gl_registry() {
    let pairs = [
        (BufferUsage::StreamDraw, gl::STREAM_DRAW),
        (BufferUsage::StreamRead, gl::STREAM_READ),
        (BufferUsage::StreamCopy, gl::STREAM_COPY),
        (BufferUsage::StaticDraw, gl::STATIC_DRAW),
        (BufferUsage::StaticRead, gl::STATIC_READ),
        (BufferUsage::StaticCopy, gl::STATIC_COPY),
        (BufferUsage::DynamicDraw, gl::DYNAMIC_DRAW),
        (BufferUsage::DynamicRead, gl::DYNAMIC_READ),
        (BufferUsage::DynamicCopy, gl::DYNAMIC_COPY),
    ];
    for (u, code) in pairs {
        assert_eq!(u.gl_enum(), code, "{u:?}");
    }
}

#[test]
fn parameters_match_the_gl_registry() {
    assert_eq!(Parameter::MaxVertexAttribs.gl_enum(), gl::MAX_VERTEX_ATTRIBS);
    assert_eq!(Parameter::ArrayBufferBinding.gl_enum(), gl::ARRAY_BUFFER_BINDING);
    assert_eq!(Parameter::ElementBufferBinding.gl_enum(), gl::ELEMENT_ARRAY_BUFFER_BINDING);
    assert_eq!(Parameter::MaxComputeShaderStorageBlocks.gl_enum(), gl::MAX_COMPUTE_SHADER_STORAGE_BLOCKS);
}

#[test]
fn shader_types_match_the_gl_registry() {
    assert_eq!(ShaderType::Compute.gl_enum(), gl::COMPUTE_SHADER);
    assert_eq!(ShaderType::Vertex.gl_enum(), gl::VERTEX_SHADER);
    assert_eq!(ShaderType::TessControl.gl_enum(), gl::TESS_CONTROL_SHADER);
    assert_eq!(ShaderType::TessEvaluation.gl_enum(), gl::TESS_EVALUATION_SHADER);
    assert_eq!(ShaderType::Geometry.gl_enum(), gl::GEOMETRY_SHADER);
    assert_eq!(ShaderType::Fragment.gl_enum(), gl::FRAGMENT_SHADER);
}

#[test]
fn shader_and_program_parameters_match_the_gl_registry() {
    assert_eq!(ShaderParameter::ShaderType.gl_enum(), gl::SHADER_TYPE);
    assert_eq!(ShaderParameter::DeleteStatus.gl_enum(), gl::DELETE_STATUS);
    assert_eq!(ShaderParameter::CompileStatus.gl_enum(), gl::COMPILE_STATUS);
    assert_eq!(ShaderParameter::InfoLogLength.gl_enum(), gl::INFO_LOG_LENGTH);
    assert_eq!(ShaderParameter::ShaderSourceLength.gl_enum(), gl::SHADER_SOURCE_LENGTH);
    let pairs = [
        (ProgramParameter::DeleteStatus, gl::DELETE_STATUS),
        (ProgramParameter::LinkStatus, gl::LINK_STATUS),
        (ProgramParameter::ValidateStatus, gl::VALIDATE_STATUS),
        (ProgramParameter::InfoLogLength, gl::INFO_LOG_LENGTH),
        (ProgramParameter::AttachedShaders, gl::ATTACHED_SHADERS),
        (ProgramParameter::ActiveAttributes, gl::ACTIVE_ATTRIBUTES),
        (ProgramParameter::ActiveAttributeMaxLength, gl::ACTIVE_ATTRIBUTE_MAX_LENGTH),
        (ProgramParameter::ActiveUniforms, gl::ACTIVE_UNIFORMS),
        (ProgramParameter::ActiveUniformBlocks, gl::ACTIVE_UNIFORM_BLOCKS),
        (ProgramParameter::ActiveUniformBlockMaxNameLength, gl::ACTIVE_UNIFORM_BLOCK_MAX_NAME_LENGTH),
        (ProgramParameter::ActiveUniformMaxLength, gl::ACTIVE_UNIFORM_MAX_LENGTH),
        (ProgramParameter::TransformFeedbackBufferMode, gl::TRANSFORM_FEEDBACK_BUFFER_MODE),
        (ProgramParameter::TransformFeedbackVaryings, gl::TRANSFORM_FEEDBACK_VARYINGS),
        (ProgramParameter::TransformFeedbackVaryingMaxLength, gl::TRANSFORM_FEEDBACK_VARYING_MAX_LENGTH),
        (ProgramParameter::GeometryVerticesOut, gl::GEOMETRY_VERTICES_OUT),
        (ProgramParameter::GeometryInputType, gl::GEOMETRY_INPUT_TYPE),
        (ProgramParameter::GeometryOutputType, gl::GEOMETRY_OUTPUT_TYPE),
    ];
    for (p, code) in pairs {
        assert_eq!(p.gl_enum(), code, "{p:?}");
    }
}

#[test]
fn draw_modes_and_index_types_match_the_gl_registry() {
    let pairs = [
        (DrawMode::Points, gl::POINTS),
        (DrawMode::LineStrip, gl::LINE_STRIP),
        (DrawMode::LineLoop, gl::LINE_LOOP),
        (DrawMode::Lines, gl::LINES),
        (DrawMode::LineStripAdjacency, gl::LINE_STRIP_ADJACENCY),
        (DrawMode::LinesAdjacency, gl::LINES_ADJACENCY),
        (DrawMode::TriangleStrip, gl::TRIANGLE_STRIP),
        (DrawMode::TriangleFan, gl::TRIANGLE_FAN),
        (DrawMode::Triangles, gl::TRIANGLES),
        (DrawMode::TriangleStripAdjacency, gl::TRIANGLE_STRIP_ADJACENCY),
        (DrawMode::TrianglesAdjacency, gl::TRIANGLES_ADJACENCY),
        (DrawMode::Patches, gl::PATCHES),
    ];
    for (m, code) in pairs {
        assert_eq!(m.gl_enum(), code, "{m:?}");
    }
    assert_eq!(IndexType::UnsignedByte.gl_enum(), gl::UNSIGNED_BYTE);
    assert_eq!(IndexType::UnsignedShort.gl_enum(), gl::UNSIGNED_SHORT);
    assert_eq!(IndexType::UnsignedInt.gl_enum(), gl::UNSIGNED_INT);
}

#[test]
fn data_types_match_the_gl_registry() {
    let pairs = [
        (DataType::Byte, gl::BYTE, 1),
        (DataType::UnsignedByte, gl::UNSIGNED_BYTE, 1),
        (DataType::Short, gl::SHORT, 2),
        (DataType::UnsignedShort, gl::UNSIGNED_SHORT, 2),
        (DataType::Int, gl::INT, 4),
        (DataType::UnsignedInt, gl::UNSIGNED_INT, 4),
        (DataType::HalfFloat, gl::HALF_FLOAT, 2),
        (DataType::Float, gl::FLOAT, 4),
        (DataType::Double, gl::DOUBLE, 8),
        (DataType::Fixed, gl::FIXED, 4),
        (DataType::Int2_10_10_10Rev, gl::INT_2_10_10_10_REV, 4),
        (DataType::UnsignedInt2_10_10_10Rev, gl::UNSIGNED_INT_2_10_10_10_REV, 4),
        (DataType::UnsignedInt10f11f11fRev, gl::UNSIGNED_INT_10F_11F_11F_REV, 4),
    ];
    for (t, code, size) in pairs {
        assert_eq!(t.gl_enum(), code, "{t:?}");
        assert_eq!(t.size_bytes(), size, "{t:?}");
    }
    let integral = [
        (IntegralDataType::Byte, gl::BYTE, 1),
        (IntegralDataType::UnsignedByte, gl::UNSIGNED_BYTE, 1),
        (IntegralDataType::Short, gl::SHORT, 2),
        (IntegralDataType::UnsignedShort, gl::UNSIGNED_SHORT, 2),
        (IntegralDataType::Int, gl::INT, 4),
        (IntegralDataType::UnsignedInt, gl::UNSIGNED_INT, 4),
    ];
    for (t, code, size) in integral {
        assert_eq!(t.gl_enum(), code, "{t:?}");
        assert_eq!(t.size_bytes(), size, "{t:?}");
    }
}

#[test]
fn attribute_sizes_are_counts_or_bgra() {
    assert_eq!(AttribSize::One.gl_size(), 1);
    assert_eq!(AttribSize::Two.gl_size(), 2);
    assert_eq!(AttribSize::Three.gl_size(), 3);
    assert_eq!(AttribSize::Four.gl_size(), 4);
    assert_eq!(AttribSize::Bgra.gl_size(), gl::BGRA as i32);
    assert_eq!(IntegralAttribSize::One.gl_size(), 1);
    assert_eq!(IntegralAttribSize::Four.gl_size(), 4);
}

#[test]
fn error_codes_decode_to_their_errors() {
    let pairs = [
        (gl::INVALID_VALUE, Error::InvalidValue, "invalid value"),
        (gl::INVALID_OPERATION, Error::InvalidOperation, "invalid operation"),
        (gl::INVALID_FRAMEBUFFER_OPERATION, Error::InvalidFramebufferOperation, "invalid framebuffer operation"),
        (gl::OUT_OF_MEMORY, Error::OutOfMemory, "out of memory"),
        (gl::STACK_UNDERFLOW, Error::StackUnderflow, "stack underflow"),
        (gl::STACK_OVERFLOW, Error::StackOverflow, "stack overflow"),
    ];
    for (code, error, message) in pairs {
        assert_eq!(Error::from_code(code), error);
        assert_eq!(error.message(), message);
    }
    assert_eq!(codes::NO_ERROR, gl::NO_ERROR);
    assert_eq!(codes::INVALID_ENUM, gl::INVALID_ENUM);
    assert_eq!(codes::TRUE, gl::TRUE);
    assert_eq!(codes::FALSE, gl::FALSE);
}

#[test]
fn clear_flags_map_to_gl_buffer_bits() {
    assert_eq!(ClearFlags { bits: 0 }.gl_bitfield(), 0);
    assert_eq!(ClearFlags { bits: CLEAR_COLOUR_BUFFER }.gl_bitfield(), gl::COLOR_BUFFER_BIT);
    assert_eq!(ClearFlags { bits: CLEAR_STENCIL_BUFFER }.gl_bitfield(), gl::STENCIL_BUFFER_BIT);
    assert_eq!(ClearFlags { bits: CLEAR_DEPTH_BUFFER }.gl_bitfield(), gl::DEPTH_BUFFER_BIT);
    let all = ClearFlags { bits: CLEAR_COLOUR_BUFFER | CLEAR_STENCIL_BUFFER | CLEAR_DEPTH_BUFFER };
    assert_eq!(all.gl_bitfield(), gl::COLOR_BUFFER_BIT | gl::STENCIL_BUFFER_BIT | gl::DEPTH_BUFFER_BIT);
    assert!(all.contains(ClearFlags { bits: CLEAR_DEPTH_BUFFER }));
    assert!(!ClearFlags { bits: CLEAR_COLOUR_BUFFER }.contains(all));
}
