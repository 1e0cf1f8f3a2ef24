//! Switches and modes of the drawing state, each with the number by which OpenGL knows it.

use vstd::prelude::*;

verus! {

/// A server-side capability that can be switched on.
#[derive(Clone, Copy, Debug, PartialEq, Eq, Structural)]
pub enum Capability {
    DepthTest,
    Blend,
    CullFace,
    DebugOutput,
    DebugOutputSynchronous,
}

impl Capability {
    /// The number by which OpenGL knows this capability.
    pub open spec fn spec_value(self) -> u32 {
        match self {
            Capability::DepthTest => 0x0B71,
            Capability::Blend => 0x0BE2,
            Capability::CullFace => 0x0B44,
            Capability::DebugOutput => 0x92E0,
            Capability::DebugOutputSynchronous => 0x8242,
        }
    }

    /// The number by which OpenGL knows this capability.
    #[verifier::when_used_as_spec(spec_value)]
    pub fn value(self) -> (value: u32)
        ensures
            value == self.spec_value(),
    {
        match self {
            Capability::DepthTest => 0x0B71,
            Capability::Blend => 0x0BE2,
            Capability::CullFace => 0x0B44,
            Capability::DebugOutput => 0x92E0,
            Capability::DebugOutputSynchronous => 0x8242,
        }
    }
}

impl Capability {
    /// Whether `value` is the number of a capability that [`Capability::from_u32`] knows:
    /// depth testing, blending or face culling.
    pub open spec fn is_supported(value: u32) -> bool {
        value == 0x0B71 || value == 0x0BE2 || value == 0x0B44
    }

    /// The capability with the given number.
    pub fn from_u32(value: u32) -> (capability: Capability)
        requires
            Capability::is_supported(value),
        ensures
            capability.value() == value,
    {
        if value == 0x0B71 {
            Capability::DepthTest
        } else if value == 0x0BE2 {
            Capability::Blend
        } else {
            Capability::CullFace
        }
    }
}


/// A buffer that a clear can reach.
#[derive(Clone, Copy, Debug, PartialEq, Eq, Structural)]
pub enum ClearMask {
    ColorBufferBit,
    DepthBufferBit,
    StencilBufferBit,
}

impl ClearMask {
    /// The number by which OpenGL knows this buffer's bit.
    pub open spec fn spec_value(self) -> u32 {
        match self {
            ClearMask::ColorBufferBit => 0x0000_4000,
            ClearMask::DepthBufferBit => 0x0000_0100,
            ClearMask::StencilBufferBit => 0x0000_0400,
        }
    }

    /// The number by which OpenGL knows this buffer's bit.
    #[verifier::when_used_as_spec(spec_value)]
    pub fn value(self) -> (value: u32)
        ensures
            value == self.spec_value(),
    {
        match self {
            ClearMask::ColorBufferBit => 0x0000_4000,
            ClearMask::DepthBufferBit => 0x0000_0100,
            ClearMask::StencilBufferBit => 0x0000_0400,
        }
    }
}

impl ClearMask {
    /// Whether `value` is the bit of one buffer.
    pub open spec fn is_supported(value: u32) -> bool {
        value == 0x0000_4000 || value == 0x0000_0100 || value == 0x0000_0400
    }

    /// The buffer with the given bit.
    pub fn from_u32(value: u32) -> (mask: ClearMask)
        requires
            ClearMask::is_supported(value),
        ensures
            mask.value() == value,
    {
        if value == 0x0000_4000 {
            ClearMask::ColorBufferBit
        } else if value == 0x0000_0100 {
            ClearMask::DepthBufferBit
        } else {
            ClearMask::StencilBufferBit
        }
    }
}


/// The kind of primitive that a draw call assembles.
#[derive(Clone, Copy, Debug, PartialEq, Eq, Structural)]
pub enum DrawMode {
    Points,
    Lines,
    LineStrip,
    Triangles,
    TriangleStrip,
    TriangleFan,
}

impl DrawMode {
    /// The number by which OpenGL knows this kind of primitive.
    pub open spec fn spec_value(self) -> u32 {
        match self {
            DrawMode::Points => 0x0000,
            DrawMode::Lines => 0x0001,
            DrawMode::LineStrip => 0x0003,
            DrawMode::Triangles => 0x0004,
            DrawMode::TriangleStrip => 0x0005,
            DrawMode::TriangleFan => 0x0006,
        }
    }

    /// The number by which OpenGL knows this kind of primitive.
    #[verifier::when_used_as_spec(spec_value)]
    pub fn value(self) -> (value: u32)
        ensures
            value == self.spec_value(),
    {
        match self {
            DrawMode::Points => 0x0000,
            DrawMode::Lines => 0x0001,
            DrawMode::LineStrip => 0x0003,
            DrawMode::Triangles => 0x0004,
            DrawMode::TriangleStrip => 0x0005,
            DrawMode::TriangleFan => 0x0006,
        }
    }
}

/// A factor in the blend equation.
#[derive(Clone, Copy, Debug, PartialEq, Eq, Structural)]
pub enum BlendFactor {
    Zero,
    One,
    SrcAlpha,
    OneMinusSrcAlpha,
}

impl BlendFactor {
    /// The number by which OpenGL knows this factor.
    pub open spec fn spec_value(self) -> u32 {
        match self {
            BlendFactor::Zero => 0,
            BlendFactor::One => 1,
            BlendFactor::SrcAlpha => 0x0302,
            BlendFactor::OneMinusSrcAlpha => 0x0303,
        }
    }

    /// The number by which OpenGL knows this factor.
    #[verifier::when_used_as_spec(spec_value)]
    pub fn value(self) -> (value: u32)
        ensures
            value == self.spec_value(),
    {
        match self {
            BlendFactor::Zero => 0,
            BlendFactor::One => 1,
            BlendFactor::SrcAlpha => 0x0302,
            BlendFactor::OneMinusSrcAlpha => 0x0303,
        }
    }
}

/// How source and destination colours are combined.
#[derive(Clone, Copy, Debug, PartialEq, Eq, Structural)]
pub enum BlendEquation {
    FuncAdd,
    FuncSubtract,
    FuncReverseSubtract,
}

impl BlendEquation {
    /// The number by which OpenGL knows this equation.
    pub open spec fn spec_value(self) -> u32 {
        match self {
            BlendEquation::FuncAdd => 0x8006,
            BlendEquation::FuncSubtract => 0x800A,
            BlendEquation::FuncReverseSubtract => 0x800B,
        }
    }

    /// The number by which OpenGL knows this equation.
    #[verifier::when_used_as_spec(spec_value)]
    pub fn value(self) -> (value: u32)
        ensures
            value == self.spec_value(),
    {
        match self {
            BlendEquation::FuncAdd => 0x8006,
            BlendEquation::FuncSubtract => 0x800A,
            BlendEquation::FuncReverseSubtract => 0x800B,
        }
    }
}
} // verus!
