//! Buffer objects.

use vstd::prelude::*;

verus! {

/// A binding point for buffer objects.
#[derive(Clone, Copy, Debug, PartialEq, Eq, Structural)]
pub enum BufferTarget {
    ArrayBuffer,
    ElementArrayBuffer,
}

impl BufferTarget {
    /// The number by which OpenGL knows this binding point.
    pub open spec fn spec_value(self) -> u32 {
        match self {
            BufferTarget::ArrayBuffer => 0x8892,
            BufferTarget::ElementArrayBuffer => 0x8893,
        }
    }

    /// The number by which OpenGL knows this binding point.
    #[verifier::when_used_as_spec(spec_value)]
    pub fn value(self) -> (value: u32)
        ensures
            value == self.spec_value(),
    {
        match self {
            BufferTarget::ArrayBuffer => 0x8892,
            BufferTarget::ElementArrayBuffer => 0x8893,
        }
    }
}

impl BufferTarget {
    /// Whether `value` is the number of a binding point.
    pub open spec fn is_supported(value: u32) -> bool {
        value == 0x8892 || value == 0x8893
    }

    /// The binding point with the given number.
    pub fn from_u32(value: u32) -> (target: BufferTarget)
        requires
            BufferTarget::is_supported(value),
        ensures
            target.value() == value,
    {
        if value == 0x8892 {
            BufferTarget::ArrayBuffer
        } else {
            BufferTarget::ElementArrayBuffer
        }
    }
}


/// How the contents of a buffer will be used.
#[derive(Clone, Copy, Debug, PartialEq, Eq, Structural)]
pub enum BufferUsage {
    StaticDraw,
    StreamDraw,
    DynamicDraw,
}

impl BufferUsage {
    /// The number by which OpenGL knows this usage.
    pub open spec fn spec_value(self) -> u32 {
        match self {
            BufferUsage::StaticDraw => 0x88E4,
            BufferUsage::StreamDraw => 0x88E0,
            BufferUsage::DynamicDraw => 0x88E8,
        }
    }

    /// The number by which OpenGL knows this usage.
    #[verifier::when_used_as_spec(spec_value)]
    pub fn value(self) -> (value: u32)
        ensures
            value == self.spec_value(),
    {
        match self {
            BufferUsage::StaticDraw => 0x88E4,
            BufferUsage::StreamDraw => 0x88E0,
            BufferUsage::DynamicDraw => 0x88E8,
        }
    }
}

/// The name of a buffer object.
#[derive(Debug)]
pub struct Buffer {
    id: u32,
}

impl View for Buffer {
    type V = u32;

    closed spec fn view(&self) -> u32 {
        self.id
    }
}

impl Buffer {
    /// The handle for the buffer object of the given name.
    pub fn from_id(id: u32) -> (buffer: Buffer)
        ensures
            buffer@ == id,
    {
        Buffer { id }
    }

    /// The name of the buffer object.
    pub fn id(&self) -> (id: u32)
        ensures
            id == self@,
    {
        self.id
    }

    /// Gives up the handle, and returns the name of the buffer object for the caller to
    /// hand to the driver for deletion.
    pub fn delete(self) -> (id: u32)
        ensures
            id == self@,
    {
        self.id
    }
}

/// The size in bytes of `count` items of `item_size` bytes each, as the driver takes it; or
/// nothing where the size cannot be held.
pub fn data_size(count: usize, item_size: usize) -> (size: Option<isize>)
    ensures
        count * item_size <= isize::MAX ==> size == Some((count * item_size) as isize),
        count * item_size > isize::MAX ==> size is None,
{
    match count.checked_mul(item_size) {
        Some(bytes) => {
            if bytes <= isize::MAX as usize {
                Some(bytes as isize)
            } else {
                None
            }
        },
        None => None,
    }
}

} // verus!
