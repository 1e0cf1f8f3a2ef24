//! Shader objects.

use crate::gl::context;
use gl46::GlFns;
use vstd::prelude::*;
use vstd::string::StringSliceAdditionalSpecFns;

verus! {

/// The pipeline stage that a shader runs in.
#[derive(Clone, Copy, Debug, PartialEq, Eq, Structural)]
pub enum ShaderType {
    Compute,
    Vertex,
    TessControl,
    TessEvaluation,
    Geometry,
    Fragment,
}

impl ShaderType {
    /// The number by which OpenGL knows this stage.
    pub open spec fn spec_value(self) -> u32 {
        match self {
            ShaderType::Compute => 0x91B9,
            ShaderType::Vertex => 0x8B31,
            ShaderType::TessControl => 0x8E88,
            ShaderType::TessEvaluation => 0x8E87,
            ShaderType::Geometry => 0x8DD9,
            ShaderType::Fragment => 0x8B30,
        }
    }

    /// The number by which OpenGL knows this stage.
    #[verifier::when_used_as_spec(spec_value)]
    pub fn value(self) -> (value: u32)
        ensures
            value == self.spec_value(),
    {
        match self {
            ShaderType::Compute => 0x91B9,
            ShaderType::Vertex => 0x8B31,
            ShaderType::TessControl => 0x8E88,
            ShaderType::TessEvaluation => 0x8E87,
            ShaderType::Geometry => 0x8DD9,
            ShaderType::Fragment => 0x8B30,
        }
    }
}

/// What to ask a shader object for to learn whether it compiled.
pub const COMPILE_STATUS: u32 = 0x8B81;

/// What to ask a shader object for to learn whether it was specialized from a SPIR-V binary.
pub const SPIR_V_BINARY: u32 = 0x9552;

/// The binary format of a SPIR-V module.
pub const SHADER_BINARY_FORMAT_SPIR_V: u32 = 0x9551;

/// The name of a shader object.
#[derive(Debug)]
pub struct Shader {
    id: u32,
}

impl View for Shader {
    type V = u32;

    closed spec fn view(&self) -> u32 {
        self.id
    }
}

impl Shader {
    /// Asks the driver for a new, empty shader object of the given stage.
    pub fn create(gl: &GlFns, shader_type: ShaderType) -> Shader {
        Shader { id: context::create_shader(gl, shader_type.value()) }
    }

    /// The handle for the shader object of the given name.
    pub fn from_id(id: u32) -> (shader: Shader)
        ensures
            shader@ == id,
    {
        Shader { id }
    }

    /// The name of the shader object.
    pub fn id(&self) -> (id: u32)
        ensures
            id == self@,
    {
        self.id
    }

    /// Asks the driver to compile the source that the shader object holds. Whether it
    /// compiled is for the caller to ask the driver, see [`status_result`].
    pub fn compile(&mut self, gl: &GlFns)
        ensures
            final(self)@ == old(self)@,
    {
        context::compile_shader(gl, self.id);
    }

    /// Asks the driver to delete the shader object, and gives up the handle.
    pub fn delete(self, gl: &GlFns) {
        context::delete_shader(gl, self.id);
    }
}

/// What a compile, specialize or link step comes to, given the status that the driver
/// reports for it and the info log: a status of 0 is a failure, with the log as its error.
pub fn status_result(status: i32, log: String) -> (result: Result<(), String>)
    ensures
        status == 0 ==> result == Err::<(), String>(log),
        status != 0 ==> result == Ok::<(), String>(()),
{
    if status == 0 {
        Err(log)
    } else {
        Ok(())
    }
}

/// Splits specialization constants, each an index with its value, into the list of indexes
/// and the list of values that the driver takes.
pub fn split_constants(constants: &[(u32, u32)]) -> (lists: (Vec<u32>, Vec<u32>))
    ensures
        lists.0@ == constants@.map_values(|constant: (u32, u32)| constant.0),
        lists.1@ == constants@.map_values(|constant: (u32, u32)| constant.1),
{
    let mut indexes: Vec<u32> = Vec::new();
    let mut values: Vec<u32> = Vec::new();
    let mut i: usize = 0;
    while i < constants.len()
        invariant
            i <= constants.len(),
            indexes@ == constants@.take(i as int).map_values(|constant: (u32, u32)| constant.0),
            values@ == constants@.take(i as int).map_values(|constant: (u32, u32)| constant.1),
        decreases constants.len() - i,
    {
        indexes.push(constants[i].0);
        values.push(constants[i].1);
        i = i + 1;
        proof {
            assert(constants@.take(i as int) =~= constants@.take(i - 1).push(constants@[i - 1]));
            assert(indexes@ =~= constants@.take(i as int).map_values(
                |constant: (u32, u32)| constant.0,
            ));
            assert(values@ =~= constants@.take(i as int).map_values(
                |constant: (u32, u32)| constant.1,
            ));
        }
    }
    proof {
        assert(constants@.take(constants@.len() as int) =~= constants@);
    }
    (indexes, values)
}

/// Whether the text holds a zero byte. The driver takes text that ends at the first zero
/// byte, so text that holds one cannot be handed to it whole.
pub fn contains_nul(text: &str) -> (found: bool)
    ensures
        found == exists|i: int| 0 <= i < text.spec_bytes().len() && text.spec_bytes()[i] == 0,
{
    let bytes = text.as_bytes();
    let mut i: usize = 0;
    while i < bytes.len()
        invariant
            i <= bytes.len(),
            bytes@ == text.spec_bytes(),
            forall|k: int| 0 <= k < i ==> bytes@[k] != 0,
        decreases bytes.len() - i,
    {
        if bytes[i] == 0 {
            return true;
        }
        i = i + 1;
    }
    false
}

} // verus!
