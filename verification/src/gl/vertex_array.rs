//! Vertex array objects, and the layout of vertex attributes.

use crate::gl::context;
use gl46::GlFns;
use vstd::prelude::*;

verus! {

/// The type of the parts of a vertex attribute.
#[derive(Clone, Copy, Debug, PartialEq, Eq, Structural)]
pub enum VertexAttribPointerType {
    Float,
    Double,
    Int,
    UnsignedInt,
    Short,
    UnsignedShort,
    Byte,
    UnsignedByte,
}

impl VertexAttribPointerType {
    /// The number by which OpenGL knows this type.
    pub open spec fn spec_value(self) -> u32 {
        match self {
            VertexAttribPointerType::Float => 0x1406,
            VertexAttribPointerType::Double => 0x140A,
            VertexAttribPointerType::Int => 0x1404,
            VertexAttribPointerType::UnsignedInt => 0x1405,
            VertexAttribPointerType::Short => 0x1402,
            VertexAttribPointerType::UnsignedShort => 0x1403,
            VertexAttribPointerType::Byte => 0x1400,
            VertexAttribPointerType::UnsignedByte => 0x1401,
        }
    }

    /// The number by which OpenGL knows this type.
    #[verifier::when_used_as_spec(spec_value)]
    pub fn value(self) -> (value: u32)
        ensures
            value == self.spec_value(),
    {
        match self {
            VertexAttribPointerType::Float => 0x1406,
            VertexAttribPointerType::Double => 0x140A,
            VertexAttribPointerType::Int => 0x1404,
            VertexAttribPointerType::UnsignedInt => 0x1405,
            VertexAttribPointerType::Short => 0x1402,
            VertexAttribPointerType::UnsignedShort => 0x1403,
            VertexAttribPointerType::Byte => 0x1400,
            VertexAttribPointerType::UnsignedByte => 0x1401,
        }
    }
}

/// The name of a vertex array object.
#[derive(Debug)]
pub struct VertexArray {
    id: u32,
}

impl View for VertexArray {
    type V = u32;

    closed spec fn view(&self) -> u32 {
        self.id
    }
}

impl VertexArray {
    /// The handle for the vertex array object of the given name.
    pub fn from_id(id: u32) -> (array: VertexArray)
        ensures
            array@ == id,
    {
        VertexArray { id }
    }

    /// The name of the vertex array object.
    pub fn id(&self) -> (id: u32)
        ensures
            id == self@,
    {
        self.id
    }

    /// Asks the driver to make the vertex array object the current one.
    pub fn bind(&self, gl: &GlFns) {
        context::bind_vertex_array(gl, self.id);
    }

    /// Gives up the handle, and returns the name of the vertex array object for the caller
    /// to hand to the driver for deletion.
    pub fn delete(self) -> (id: u32)
        ensures
            id == self@,
    {
        self.id
    }
}

/// What the driver is handed to describe one vertex attribute.
#[derive(Clone, Copy, Debug, PartialEq, Eq, Structural)]
pub struct VertexAttribPointer {
    /// The attribute's location in the shader.
    pub location: u32,
    /// How many parts the attribute has.
    pub components: i32,
    /// The number of the type of its parts.
    pub data_type: u32,
    /// The flag that the driver is handed for normalizing integer values: 1 to do so, 0 not
    /// to.
    pub normalized: u8,
    /// The distance in bytes from one vertex to the next.
    pub stride: i32,
    /// Where in a vertex the attribute begins, in bytes.
    pub offset: usize,
}

/// Whether an attribute can have this many parts: one to four.
pub open spec fn valid_components(components: i32) -> bool {
    1 <= components <= 4
}

/// What to hand to the driver to describe a vertex attribute.
///
/// The flag handed on is 0 where `normalized` is set and 1 where it is not. To the driver a
/// flag of 1 says that integer values are to be normalized, so the flag that reaches it is
/// the inverse of `normalized`; for parts that are floats the driver does not look at it.
pub fn vertex_attrib_pointer(
    location: u32,
    components: i32,
    data_type: VertexAttribPointerType,
    normalized: bool,
    stride: usize,
    offset: usize,
) -> (pointer: VertexAttribPointer)
    requires
        valid_components(components),
        stride <= i32::MAX,
    ensures
        pointer == (VertexAttribPointer {
            location,
            components,
            data_type: data_type.value(),
            normalized: if normalized { 0u8 } else { 1u8 },
            stride: stride as i32,
            offset,
        }),
{
    VertexAttribPointer {
        location,
        components,
        data_type: data_type.value(),
        normalized: if normalized { 0 } else { 1 },
        stride: stride as i32,
        offset,
    }
}

} // verus!
