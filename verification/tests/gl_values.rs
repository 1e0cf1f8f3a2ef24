use kengine::gl::buffer::BufferTarget;
use kengine::gl::buffer::BufferUsage;
use kengine::gl::debug::DEBUG_SEVERITY_HIGH;
use kengine::gl::debug::DEBUG_SEVERITY_LOW;
use kengine::gl::debug::DEBUG_SEVERITY_MEDIUM;
use kengine::gl::debug::DEBUG_SEVERITY_NOTIFICATION;
use kengine::gl::debug::DEBUG_SOURCE_API;
use kengine::gl::debug::DEBUG_SOURCE_APPLICATION;
use kengine::gl::debug::DEBUG_SOURCE_OTHER;
use kengine::gl::debug::DEBUG_SOURCE_SHADER_COMPILER;
use kengine::gl::debug::DEBUG_SOURCE_THIRD_PARTY;
use kengine::gl::debug::DEBUG_SOURCE_WINDOW_SYSTEM;
use kengine::gl::debug::DEBUG_TYPE_DEPRECATED_BEHAVIOR;
use kengine::gl::debug::DEBUG_TYPE_ERROR;
use kengine::gl::debug::DEBUG_TYPE_MARKER;
use kengine::gl::debug::DEBUG_TYPE_OTHER;
use kengine::gl::debug::DEBUG_TYPE_PERFORMANCE;
use kengine::gl::debug::DEBUG_TYPE_PORTABILITY;
use kengine::gl::debug::DEBUG_TYPE_UNDEFINED_BEHAVIOR;
use kengine::gl::shader::COMPILE_STATUS;
use kengine::gl::shader::SHADER_BINARY_FORMAT_SPIR_V;
use kengine::gl::shader::SPIR_V_BINARY;
use kengine::gl::shader::ShaderType;
use kengine::gl::shader_program::LINK_STATUS;
use kengine::gl::state::BlendEquation;
use kengine::gl::state::BlendFactor;
use kengine::gl::state::Capability;
use kengine::gl::state::ClearMask;
use kengine::gl::state::DrawMode;
use kengine::gl::texture::BaseInternalFormat;
use kengine::gl::texture::InterpolationMode;
use kengine::gl::texture::PixelDataFormat;
use kengine::gl::texture::PixelDataType;
use kengine::gl::texture::TEXTURE0;
use kengine::gl::texture::TextureParameter;
use kengine::gl::texture::TextureTarget;
use kengine::gl::texture::TextureWrapMode;
use kengine::gl::vertex_array::VertexAttribPointerType;

#[test]
fn capability_values_are_those_of_opengl() {
    assert_eq!(Capability::DepthTest.value(), gl46::GL_DEPTH_TEST.0);
    assert_eq!(Capability::Blend.value(), gl46::GL_BLEND.0);
    assert_eq!(Capability::CullFace.value(), gl46::GL_CULL_FACE.0);
    assert_eq!(Capability::DebugOutput.value(), gl46::GL_DEBUG_OUTPUT.0);
    assert_eq!(Capability::DebugOutputSynchronous.value(), gl46::GL_DEBUG_OUTPUT_SYNCHRONOUS.0);
}

#[test]
fn clear_mask_values_are_those_of_opengl() {
    assert_eq!(ClearMask::ColorBufferBit.value(), gl46::GL_COLOR_BUFFER_BIT.0);
    assert_eq!(ClearMask::DepthBufferBit.value(), gl46::GL_DEPTH_BUFFER_BIT.0);
    assert_eq!(ClearMask::StencilBufferBit.value(), gl46::GL_STENCIL_BUFFER_BIT.0);
}

#[test]
fn draw_mode_values_are_those_of_opengl() {
    assert_eq!(DrawMode::Points.value(), gl46::GL_POINTS.0);
    assert_eq!(DrawMode::Lines.value(), gl46::GL_LINES.0);
    assert_eq!(DrawMode::LineStrip.value(), gl46::GL_LINE_STRIP.0);
    assert_eq!(DrawMode::Triangles.value(), gl46::GL_TRIANGLES.0);
    assert_eq!(DrawMode::TriangleStrip.value(), gl46::GL_TRIANGLE_STRIP.0);
    assert_eq!(DrawMode::TriangleFan.value(), gl46::GL_TRIANGLE_FAN.0);
}

#[test]
fn blend_factor_values_are_those_of_opengl() {
    assert_eq!(BlendFactor::Zero.value(), gl46::GL_ZERO.0);
    assert_eq!(BlendFactor::One.value(), gl46::GL_ONE.0);
    assert_eq!(BlendFactor::SrcAlpha.value(), gl46::GL_SRC_ALPHA.0);
    assert_eq!(BlendFactor::OneMinusSrcAlpha.value(), gl46::GL_ONE_MINUS_SRC_ALPHA.0);
}

#[test]
fn blend_equation_values_are_those_of_opengl() {
    assert_eq!(BlendEquation::FuncAdd.value(), gl46::GL_FUNC_ADD.0);
    assert_eq!(BlendEquation::FuncSubtract.value(), gl46::GL_FUNC_SUBTRACT.0);
    assert_eq!(BlendEquation::FuncReverseSubtract.value(), gl46::GL_FUNC_REVERSE_SUBTRACT.0);
}

#[test]
fn buffer_target_values_are_those_of_opengl() {
    assert_eq!(BufferTarget::ArrayBuffer.value(), gl46::GL_ARRAY_BUFFER.0);
    assert_eq!(BufferTarget::ElementArrayBuffer.value(), gl46::GL_ELEMENT_ARRAY_BUFFER.0);
}

#[test]
fn buffer_usage_values_are_those_of_opengl() {
    assert_eq!(BufferUsage::StaticDraw.value(), gl46::GL_STATIC_DRAW.0);
    assert_eq!(BufferUsage::StreamDraw.value(), gl46::GL_STREAM_DRAW.0);
    assert_eq!(BufferUsage::DynamicDraw.value(), gl46::GL_DYNAMIC_DRAW.0);
}

#[test]
fn shader_type_values_are_those_of_opengl() {
    assert_eq!(ShaderType::Compute.value(), gl46::GL_COMPUTE_SHADER.0);
    assert_eq!(ShaderType::Vertex.value(), gl46::GL_VERTEX_SHADER.0);
    assert_eq!(ShaderType::TessControl.value(), gl46::GL_TESS_CONTROL_SHADER.0);
    assert_eq!(ShaderType::TessEvaluation.value(), gl46::GL_TESS_EVALUATION_SHADER.0);
    assert_eq!(ShaderType::Geometry.value(), gl46::GL_GEOMETRY_SHADER.0);
    assert_eq!(ShaderType::Fragment.value(), gl46::GL_FRAGMENT_SHADER.0);
}

#[test]
fn vertex_attrib_pointer_type_values_are_those_of_opengl() {
    assert_eq!(VertexAttribPointerType::Float.value(), gl46::GL_FLOAT.0);
    assert_eq!(VertexAttribPointerType::Double.value(), gl46::GL_DOUBLE.0);
    assert_eq!(VertexAttribPointerType::Int.value(), gl46::GL_INT.0);
    assert_eq!(VertexAttribPointerType::UnsignedInt.value(), gl46::GL_UNSIGNED_INT.0);
    assert_eq!(VertexAttribPointerType::Short.value(), gl46::GL_SHORT.0);
    assert_eq!(VertexAttribPointerType::UnsignedShort.value(), gl46::GL_UNSIGNED_SHORT.0);
    assert_eq!(VertexAttribPointerType::Byte.value(), gl46::GL_BYTE.0);
    assert_eq!(VertexAttribPointerType::UnsignedByte.value(), gl46::GL_UNSIGNED_BYTE.0);
}

#[test]
fn texture_target_values_are_those_of_opengl() {
    assert_eq!(TextureTarget::Texture1D.value(), gl46::GL_TEXTURE_1D.0);
    assert_eq!(TextureTarget::Texture2D.value(), gl46::GL_TEXTURE_2D.0);
    assert_eq!(TextureTarget::Texture3D.value(), gl46::GL_TEXTURE_3D.0);
    assert_eq!(TextureTarget::TextureCubeMap.value(), gl46::GL_TEXTURE_CUBE_MAP.0);
}

#[test]
fn texture_parameter_values_are_those_of_opengl() {
    assert_eq!(TextureParameter::DepthStencilTextureMode.value(), gl46::GL_DEPTH_STENCIL_TEXTURE_MODE.0);
    assert_eq!(TextureParameter::TextureBaseLevel.value(), gl46::GL_TEXTURE_BASE_LEVEL.0);
    assert_eq!(TextureParameter::TextureCompareFunc.value(), gl46::GL_TEXTURE_COMPARE_FUNC.0);
    assert_eq!(TextureParameter::TextureCompareMode.value(), gl46::GL_TEXTURE_COMPARE_MODE.0);
    assert_eq!(TextureParameter::TextureLodBias.value(), gl46::GL_TEXTURE_LOD_BIAS.0);
    assert_eq!(TextureParameter::TextureMinFilter.value(), gl46::GL_TEXTURE_MIN_FILTER.0);
    assert_eq!(TextureParameter::TextureMagFilter.value(), gl46::GL_TEXTURE_MAG_FILTER.0);
    assert_eq!(TextureParameter::TextureMinLod.value(), gl46::GL_TEXTURE_MIN_LOD.0);
    assert_eq!(TextureParameter::TextureMaxLod.value(), gl46::GL_TEXTURE_MAX_LOD.0);
    assert_eq!(TextureParameter::TextureMaxLevel.value(), gl46::GL_TEXTURE_MAX_LEVEL.0);
    assert_eq!(TextureParameter::TextureSwizzleR.value(), gl46::GL_TEXTURE_SWIZZLE_R.0);
    assert_eq!(TextureParameter::TextureSwizzleG.value(), gl46::GL_TEXTURE_SWIZZLE_G.0);
    assert_eq!(TextureParameter::TextureSwizzleB.value(), gl46::GL_TEXTURE_SWIZZLE_B.0);
    assert_eq!(TextureParameter::TextureSwizzleA.value(), gl46::GL_TEXTURE_SWIZZLE_A.0);
    assert_eq!(TextureParameter::TextureWrapS.value(), gl46::GL_TEXTURE_WRAP_S.0);
    assert_eq!(TextureParameter::TextureWrapT.value(), gl46::GL_TEXTURE_WRAP_T.0);
    assert_eq!(TextureParameter::TextureWrapR.value(), gl46::GL_TEXTURE_WRAP_R.0);
}

#[test]
fn texture_wrap_mode_values_are_those_of_opengl() {
    assert_eq!(TextureWrapMode::ClampToEdge.value(), gl46::GL_CLAMP_TO_EDGE.0);
    assert_eq!(TextureWrapMode::ClampToBorder.value(), gl46::GL_CLAMP_TO_BORDER.0);
    assert_eq!(TextureWrapMode::MirroredRepeat.value(), gl46::GL_MIRRORED_REPEAT.0);
    assert_eq!(TextureWrapMode::Repeat.value(), gl46::GL_REPEAT.0);
    assert_eq!(TextureWrapMode::MirrorClampToEdge.value(), gl46::GL_MIRROR_CLAMP_TO_EDGE.0);
}

#[test]
fn interpolation_mode_values_are_those_of_opengl() {
    assert_eq!(InterpolationMode::Nearest.value(), gl46::GL_NEAREST.0);
    assert_eq!(InterpolationMode::Linear.value(), gl46::GL_LINEAR.0);
}

#[test]
fn pixel_data_format_values_are_those_of_opengl() {
    assert_eq!(PixelDataFormat::Red.value(), gl46::GL_RED.0);
    assert_eq!(PixelDataFormat::RG.value(), gl46::GL_RG.0);
    assert_eq!(PixelDataFormat::RGB.value(), gl46::GL_RGB.0);
    assert_eq!(PixelDataFormat::BGR.value(), gl46::GL_BGR.0);
    assert_eq!(PixelDataFormat::RGBA.value(), gl46::GL_RGBA.0);
    assert_eq!(PixelDataFormat::BGRA.value(), gl46::GL_BGRA.0);
    assert_eq!(PixelDataFormat::RedInteger.value(), gl46::GL_RED_INTEGER.0);
    assert_eq!(PixelDataFormat::RGInteger.value(), gl46::GL_RG_INTEGER.0);
    assert_eq!(PixelDataFormat::RGBInteger.value(), gl46::GL_RGB_INTEGER.0);
    assert_eq!(PixelDataFormat::BGRInteger.value(), gl46::GL_BGR_INTEGER.0);
    assert_eq!(PixelDataFormat::RGBAInteger.value(), gl46::GL_RGBA_INTEGER.0);
    assert_eq!(PixelDataFormat::BGRAInteger.value(), gl46::GL_BGRA_INTEGER.0);
    assert_eq!(PixelDataFormat::StencilIndex.value(), gl46::GL_STENCIL_INDEX.0);
    assert_eq!(PixelDataFormat::DepthComponent.value(), gl46::GL_DEPTH_COMPONENT.0);
    assert_eq!(PixelDataFormat::DepthStencil.value(), gl46::GL_DEPTH_STENCIL.0);
}

#[test]
fn base_internal_format_values_are_those_of_opengl() {
    assert_eq!(BaseInternalFormat::DepthComponent.value(), gl46::GL_DEPTH_COMPONENT.0);
    assert_eq!(BaseInternalFormat::DepthStencil.value(), gl46::GL_DEPTH_STENCIL.0);
    assert_eq!(BaseInternalFormat::Red.value(), gl46::GL_RED.0);
    assert_eq!(BaseInternalFormat::RG.value(), gl46::GL_RG.0);
    assert_eq!(BaseInternalFormat::RGB.value(), gl46::GL_RGB.0);
    assert_eq!(BaseInternalFormat::RGBA.value(), gl46::GL_RGBA.0);
}

#[test]
fn pixel_data_type_values_are_those_of_opengl() {
    assert_eq!(PixelDataType::UnsignedByte.value(), gl46::GL_UNSIGNED_BYTE.0);
    assert_eq!(PixelDataType::Byte.value(), gl46::GL_BYTE.0);
    assert_eq!(PixelDataType::UnsignedShort.value(), gl46::GL_UNSIGNED_SHORT.0);
    assert_eq!(PixelDataType::Short.value(), gl46::GL_SHORT.0);
    assert_eq!(PixelDataType::UnsignedInt.value(), gl46::GL_UNSIGNED_INT.0);
    assert_eq!(PixelDataType::Int.value(), gl46::GL_INT.0);
    assert_eq!(PixelDataType::HalfFloat.value(), gl46::GL_HALF_FLOAT.0);
    assert_eq!(PixelDataType::Float.value(), gl46::GL_FLOAT.0);
    assert_eq!(PixelDataType::UnsignedByte332.value(), gl46::GL_UNSIGNED_BYTE_3_3_2.0);
    assert_eq!(PixelDataType::UnsignedByte233Rev.value(), gl46::GL_UNSIGNED_BYTE_2_3_3_REV.0);
    assert_eq!(PixelDataType::UnsignedShort565.value(), gl46::GL_UNSIGNED_SHORT_5_6_5.0);
    assert_eq!(PixelDataType::UnsignedShort565Rev.value(), gl46::GL_UNSIGNED_SHORT_5_6_5_REV.0);
    assert_eq!(PixelDataType::UnsignedShort4444.value(), gl46::GL_UNSIGNED_SHORT_4_4_4_4.0);
    assert_eq!(PixelDataType::UnsignedShort4444Rev.value(), gl46::GL_UNSIGNED_SHORT_4_4_4_4_REV.0);
    assert_eq!(PixelDataType::UnsignedShort5551.value(), gl46::GL_UNSIGNED_SHORT_5_5_5_1.0);
    assert_eq!(PixelDataType::UnsignedShort1555Rev.value(), gl46::GL_UNSIGNED_SHORT_1_5_5_5_REV.0);
    assert_eq!(PixelDataType::UnsignedInt8888.value(), gl46::GL_UNSIGNED_INT_8_8_8_8.0);
    assert_eq!(PixelDataType::UnsignedInt8888Rev.value(), gl46::GL_UNSIGNED_INT_8_8_8_8_REV.0);
    assert_eq!(PixelDataType::UnsignedInt1010102.value(), gl46::GL_UNSIGNED_INT_10_10_10_2.0);
    assert_eq!(PixelDataType::UnsignedInt2101010Rev.value(), gl46::GL_UNSIGNED_INT_2_10_10_10_REV.0);
}

#[test]
fn debug_message_numbers_are_those_of_opengl() {
    assert_eq!(DEBUG_SOURCE_API, gl46::GL_DEBUG_SOURCE_API.0);
    assert_eq!(DEBUG_SOURCE_WINDOW_SYSTEM, gl46::GL_DEBUG_SOURCE_WINDOW_SYSTEM.0);
    assert_eq!(DEBUG_SOURCE_SHADER_COMPILER, gl46::GL_DEBUG_SOURCE_SHADER_COMPILER.0);
    assert_eq!(DEBUG_SOURCE_THIRD_PARTY, gl46::GL_DEBUG_SOURCE_THIRD_PARTY.0);
    assert_eq!(DEBUG_SOURCE_APPLICATION, gl46::GL_DEBUG_SOURCE_APPLICATION.0);
    assert_eq!(DEBUG_SOURCE_OTHER, gl46::GL_DEBUG_SOURCE_OTHER.0);
    assert_eq!(DEBUG_TYPE_ERROR, gl46::GL_DEBUG_TYPE_ERROR.0);
    assert_eq!(DEBUG_TYPE_DEPRECATED_BEHAVIOR, gl46::GL_DEBUG_TYPE_DEPRECATED_BEHAVIOR.0);
    assert_eq!(DEBUG_TYPE_UNDEFINED_BEHAVIOR, gl46::GL_DEBUG_TYPE_UNDEFINED_BEHAVIOR.0);
    assert_eq!(DEBUG_TYPE_PORTABILITY, gl46::GL_DEBUG_TYPE_PORTABILITY.0);
    assert_eq!(DEBUG_TYPE_PERFORMANCE, gl46::GL_DEBUG_TYPE_PERFORMANCE.0);
    assert_eq!(DEBUG_TYPE_OTHER, gl46::GL_DEBUG_TYPE_OTHER.0);
    assert_eq!(DEBUG_TYPE_MARKER, gl46::GL_DEBUG_TYPE_MARKER.0);
    assert_eq!(DEBUG_SEVERITY_HIGH, gl46::GL_DEBUG_SEVERITY_HIGH.0);
    assert_eq!(DEBUG_SEVERITY_MEDIUM, gl46::GL_DEBUG_SEVERITY_MEDIUM.0);
    assert_eq!(DEBUG_SEVERITY_LOW, gl46::GL_DEBUG_SEVERITY_LOW.0);
    assert_eq!(DEBUG_SEVERITY_NOTIFICATION, gl46::GL_DEBUG_SEVERITY_NOTIFICATION.0);
}

#[test]
fn query_and_unit_numbers_are_those_of_opengl() {
    assert_eq!(COMPILE_STATUS, gl46::GL_COMPILE_STATUS.0);
    assert_eq!(SPIR_V_BINARY, gl46::GL_SPIR_V_BINARY.0);
    assert_eq!(SHADER_BINARY_FORMAT_SPIR_V, gl46::GL_SHADER_BINARY_FORMAT_SPIR_V.0);
    assert_eq!(LINK_STATUS, gl46::GL_LINK_STATUS.0);
    assert_eq!(TEXTURE0, gl46::GL_TEXTURE0.0);
}