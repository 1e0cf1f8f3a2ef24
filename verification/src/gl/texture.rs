//! Texture objects and their parameters.

use vstd::prelude::*;

verus! {

/// A binding point for texture objects.
#[derive(Clone, Copy, Debug, PartialEq, Eq, Structural)]
pub enum TextureTarget {
    Texture1D,
    Texture2D,
    Texture3D,
    TextureCubeMap,
}

impl TextureTarget {
    /// The number by which OpenGL knows this binding point.
    pub open spec fn spec_value(self) -> u32 {
        match self {
            TextureTarget::Texture1D => 0x0DE0,
            TextureTarget::Texture2D => 0x0DE1,
            TextureTarget::Texture3D => 0x806F,
            TextureTarget::TextureCubeMap => 0x8513,
        }
    }

    /// The number by which OpenGL knows this binding point.
    #[verifier::when_used_as_spec(spec_value)]
    pub fn value(self) -> (value: u32)
        ensures
            value == self.spec_value(),
    {
        match self {
            TextureTarget::Texture1D => 0x0DE0,
            TextureTarget::Texture2D => 0x0DE1,
            TextureTarget::Texture3D => 0x806F,
            TextureTarget::TextureCubeMap => 0x8513,
        }
    }
}

/// A parameter of a texture object.
#[derive(Clone, Copy, Debug, PartialEq, Eq, Structural)]
pub enum TextureParameter {
    DepthStencilTextureMode,
    TextureBaseLevel,
    TextureCompareFunc,
    TextureCompareMode,
    TextureLodBias,
    TextureMinFilter,
    TextureMagFilter,
    TextureMinLod,
    TextureMaxLod,
    TextureMaxLevel,
    TextureSwizzleR,
    TextureSwizzleG,
    TextureSwizzleB,
    TextureSwizzleA,
    TextureWrapS,
    TextureWrapT,
    TextureWrapR,
}

impl TextureParameter {
    /// The number by which OpenGL knows this parameter.
    pub open spec fn spec_value(self) -> u32 {
        match self {
            TextureParameter::DepthStencilTextureMode => 0x90EA,
            TextureParameter::TextureBaseLevel => 0x813C,
            TextureParameter::TextureCompareFunc => 0x884D,
            TextureParameter::TextureCompareMode => 0x884C,
            TextureParameter::TextureLodBias => 0x8501,
            TextureParameter::TextureMinFilter => 0x2801,
            TextureParameter::TextureMagFilter => 0x2800,
            TextureParameter::TextureMinLod => 0x813A,
            TextureParameter::TextureMaxLod => 0x813B,
            TextureParameter::TextureMaxLevel => 0x813D,
            TextureParameter::TextureSwizzleR => 0x8E42,
            TextureParameter::TextureSwizzleG => 0x8E43,
            TextureParameter::TextureSwizzleB => 0x8E44,
            TextureParameter::TextureSwizzleA => 0x8E45,
            TextureParameter::TextureWrapS => 0x2802,
            TextureParameter::TextureWrapT => 0x2803,
            TextureParameter::TextureWrapR => 0x8072,
        }
    }

    /// The number by which OpenGL knows this parameter.
    #[verifier::when_used_as_spec(spec_value)]
    pub fn value(self) -> (value: u32)
        ensures
            value == self.spec_value(),
    {
        match self {
            TextureParameter::DepthStencilTextureMode => 0x90EA,
            TextureParameter::TextureBaseLevel => 0x813C,
            TextureParameter::TextureCompareFunc => 0x884D,
            TextureParameter::TextureCompareMode => 0x884C,
            TextureParameter::TextureLodBias => 0x8501,
            TextureParameter::TextureMinFilter => 0x2801,
            TextureParameter::TextureMagFilter => 0x2800,
            TextureParameter::TextureMinLod => 0x813A,
            TextureParameter::TextureMaxLod => 0x813B,
            TextureParameter::TextureMaxLevel => 0x813D,
            TextureParameter::TextureSwizzleR => 0x8E42,
            TextureParameter::TextureSwizzleG => 0x8E43,
            TextureParameter::TextureSwizzleB => 0x8E44,
            TextureParameter::TextureSwizzleA => 0x8E45,
            TextureParameter::TextureWrapS => 0x2802,
            TextureParameter::TextureWrapT => 0x2803,
            TextureParameter::TextureWrapR => 0x8072,
        }
    }
}

/// What a texture shows outside its edges.
#[derive(Clone, Copy, Debug, PartialEq, Eq, Structural)]
pub enum TextureWrapMode {
    ClampToEdge,
    ClampToBorder,
    MirroredRepeat,
    Repeat,
    MirrorClampToEdge,
}

impl TextureWrapMode {
    /// The number by which OpenGL knows this mode.
    pub open spec fn spec_value(self) -> u32 {
        match self {
            TextureWrapMode::ClampToEdge => 0x812F,
            TextureWrapMode::ClampToBorder => 0x812D,
            TextureWrapMode::MirroredRepeat => 0x8370,
            TextureWrapMode::Repeat => 0x2901,
            TextureWrapMode::MirrorClampToEdge => 0x8743,
        }
    }

    /// The number by which OpenGL knows this mode.
    #[verifier::when_used_as_spec(spec_value)]
    pub fn value(self) -> (value: u32)
        ensures
            value == self.spec_value(),
    {
        match self {
            TextureWrapMode::ClampToEdge => 0x812F,
            TextureWrapMode::ClampToBorder => 0x812D,
            TextureWrapMode::MirroredRepeat => 0x8370,
            TextureWrapMode::Repeat => 0x2901,
            TextureWrapMode::MirrorClampToEdge => 0x8743,
        }
    }
}

/// How a texture is sampled between its texels, or between its mipmap levels.
#[derive(Clone, Copy, Debug, PartialEq, Eq, Structural)]
pub enum InterpolationMode {
    Nearest,
    Linear,
}

impl InterpolationMode {
    /// The number by which OpenGL knows this mode.
    pub open spec fn spec_value(self) -> u32 {
        match self {
            InterpolationMode::Nearest => 0x2600,
            InterpolationMode::Linear => 0x2601,
        }
    }

    /// The number by which OpenGL knows this mode.
    #[verifier::when_used_as_spec(spec_value)]
    pub fn value(self) -> (value: u32)
        ensures
            value == self.spec_value(),
    {
        match self {
            InterpolationMode::Nearest => 0x2600,
            InterpolationMode::Linear => 0x2601,
        }
    }
}

/// The channels of the pixels handed to the driver.
#[derive(Clone, Copy, Debug, PartialEq, Eq, Structural)]
pub enum PixelDataFormat {
    Red,
    RG,
    RGB,
    BGR,
    RGBA,
    BGRA,
    RedInteger,
    RGInteger,
    RGBInteger,
    BGRInteger,
    RGBAInteger,
    BGRAInteger,
    StencilIndex,
    DepthComponent,
    DepthStencil,
}

impl PixelDataFormat {
    /// The number by which OpenGL knows this format.
    pub open spec fn spec_value(self) -> u32 {
        match self {
            PixelDataFormat::Red => 0x1903,
            PixelDataFormat::RG => 0x8227,
            PixelDataFormat::RGB => 0x1907,
            PixelDataFormat::BGR => 0x80E0,
            PixelDataFormat::RGBA => 0x1908,
            PixelDataFormat::BGRA => 0x80E1,
            PixelDataFormat::RedInteger => 0x8D94,
            PixelDataFormat::RGInteger => 0x8228,
            PixelDataFormat::RGBInteger => 0x8D98,
            PixelDataFormat::BGRInteger => 0x8D9A,
            PixelDataFormat::RGBAInteger => 0x8D99,
            PixelDataFormat::BGRAInteger => 0x8D9B,
            PixelDataFormat::StencilIndex => 0x1901,
            PixelDataFormat::DepthComponent => 0x1902,
            PixelDataFormat::DepthStencil => 0x84F9,
        }
    }

    /// The number by which OpenGL knows this format.
    #[verifier::when_used_as_spec(spec_value)]
    pub fn value(self) -> (value: u32)
        ensures
            value == self.spec_value(),
    {
        match self {
            PixelDataFormat::Red => 0x1903,
            PixelDataFormat::RG => 0x8227,
            PixelDataFormat::RGB => 0x1907,
            PixelDataFormat::BGR => 0x80E0,
            PixelDataFormat::RGBA => 0x1908,
            PixelDataFormat::BGRA => 0x80E1,
            PixelDataFormat::RedInteger => 0x8D94,
            PixelDataFormat::RGInteger => 0x8228,
            PixelDataFormat::RGBInteger => 0x8D98,
            PixelDataFormat::BGRInteger => 0x8D9A,
            PixelDataFormat::RGBAInteger => 0x8D99,
            PixelDataFormat::BGRAInteger => 0x8D9B,
            PixelDataFormat::StencilIndex => 0x1901,
            PixelDataFormat::DepthComponent => 0x1902,
            PixelDataFormat::DepthStencil => 0x84F9,
        }
    }
}

/// The channels that the driver stores a texture with.
#[derive(Clone, Copy, Debug, PartialEq, Eq, Structural)]
pub enum BaseInternalFormat {
    DepthComponent,
    DepthStencil,
    Red,
    RG,
    RGB,
    RGBA,
}

impl BaseInternalFormat {
    /// The number by which OpenGL knows this format.
    pub open spec fn spec_value(self) -> u32 {
        match self {
            BaseInternalFormat::DepthComponent => 0x1902,
            BaseInternalFormat::DepthStencil => 0x84F9,
            BaseInternalFormat::Red => 0x1903,
            BaseInternalFormat::RG => 0x8227,
            BaseInternalFormat::RGB => 0x1907,
            BaseInternalFormat::RGBA => 0x1908,
        }
    }

    /// The number by which OpenGL knows this format.
    #[verifier::when_used_as_spec(spec_value)]
    pub fn value(self) -> (value: u32)
        ensures
            value == self.spec_value(),
    {
        match self {
            BaseInternalFormat::DepthComponent => 0x1902,
            BaseInternalFormat::DepthStencil => 0x84F9,
            BaseInternalFormat::Red => 0x1903,
            BaseInternalFormat::RG => 0x8227,
            BaseInternalFormat::RGB => 0x1907,
            BaseInternalFormat::RGBA => 0x1908,
        }
    }
}

/// The type of the parts of the pixels handed to the driver.
#[derive(Clone, Copy, Debug, PartialEq, Eq, Structural)]
pub enum PixelDataType {
    UnsignedByte,
    Byte,
    UnsignedShort,
    Short,
    UnsignedInt,
    Int,
    HalfFloat,
    Float,
    UnsignedByte332,
    UnsignedByte233Rev,
    UnsignedShort565,
    UnsignedShort565Rev,
    UnsignedShort4444,
    UnsignedShort4444Rev,
    UnsignedShort5551,
    UnsignedShort1555Rev,
    UnsignedInt8888,
    UnsignedInt8888Rev,
    UnsignedInt1010102,
    UnsignedInt2101010Rev,
}

impl PixelDataType {
    /// The number by which OpenGL knows this type.
    pub open spec fn spec_value(self) -> u32 {
        match self {
            PixelDataType::UnsignedByte => 0x1401,
            PixelDataType::Byte => 0x1400,
            PixelDataType::UnsignedShort => 0x1403,
            PixelDataType::Short => 0x1402,
            PixelDataType::UnsignedInt => 0x1405,
            PixelDataType::Int => 0x1404,
            PixelDataType::HalfFloat => 0x140B,
            PixelDataType::Float => 0x1406,
            PixelDataType::UnsignedByte332 => 0x8032,
            PixelDataType::UnsignedByte233Rev => 0x8362,
            PixelDataType::UnsignedShort565 => 0x8363,
            PixelDataType::UnsignedShort565Rev => 0x8364,
            PixelDataType::UnsignedShort4444 => 0x8033,
            PixelDataType::UnsignedShort4444Rev => 0x8365,
            PixelDataType::UnsignedShort5551 => 0x8034,
            PixelDataType::UnsignedShort1555Rev => 0x8366,
            PixelDataType::UnsignedInt8888 => 0x8035,
            PixelDataType::UnsignedInt8888Rev => 0x8367,
            PixelDataType::UnsignedInt1010102 => 0x8036,
            PixelDataType::UnsignedInt2101010Rev => 0x8368,
        }
    }

    /// The number by which OpenGL knows this type.
    #[verifier::when_used_as_spec(spec_value)]
    pub fn value(self) -> (value: u32)
        ensures
            value == self.spec_value(),
    {
        match self {
            PixelDataType::UnsignedByte => 0x1401,
            PixelDataType::Byte => 0x1400,
            PixelDataType::UnsignedShort => 0x1403,
            PixelDataType::Short => 0x1402,
            PixelDataType::UnsignedInt => 0x1405,
            PixelDataType::Int => 0x1404,
            PixelDataType::HalfFloat => 0x140B,
            PixelDataType::Float => 0x1406,
            PixelDataType::UnsignedByte332 => 0x8032,
            PixelDataType::UnsignedByte233Rev => 0x8362,
            PixelDataType::UnsignedShort565 => 0x8363,
            PixelDataType::UnsignedShort565Rev => 0x8364,
            PixelDataType::UnsignedShort4444 => 0x8033,
            PixelDataType::UnsignedShort4444Rev => 0x8365,
            PixelDataType::UnsignedShort5551 => 0x8034,
            PixelDataType::UnsignedShort1555Rev => 0x8366,
            PixelDataType::UnsignedInt8888 => 0x8035,
            PixelDataType::UnsignedInt8888Rev => 0x8367,
            PixelDataType::UnsignedInt1010102 => 0x8036,
            PixelDataType::UnsignedInt2101010Rev => 0x8368,
        }
    }
}

/// The number of the first texture unit; the others follow it.
pub const TEXTURE0: u32 = 0x84C0;

/// The name of a texture object.
#[derive(Debug)]
pub struct Texture {
    id: u32,
}

impl View for Texture {
    type V = u32;

    closed spec fn view(&self) -> u32 {
        self.id
    }
}

impl Texture {
    /// The handle for the texture object of the given name.
    pub fn from_id(id: u32) -> (texture: Texture)
        ensures
            texture@ == id,
    {
        Texture { id }
    }

    /// The name of the texture object.
    pub fn id(&self) -> (id: u32)
        ensures
            id == self@,
    {
        self.id
    }
}

/// The minifying filter for a texture that is sampled with `texture_filter_mode` within a
/// mipmap level and with `mipmap_interpolation` between levels; without the latter the
/// texture is sampled from its base level alone.
pub open spec fn min_filter(
    texture_filter_mode: InterpolationMode,
    mipmap_interpolation: Option<InterpolationMode>,
) -> u32 {
    match mipmap_interpolation {
        Some(InterpolationMode::Nearest) => match texture_filter_mode {
            InterpolationMode::Nearest => 0x2700,
            InterpolationMode::Linear => 0x2701,
        },
        Some(InterpolationMode::Linear) => match texture_filter_mode {
            InterpolationMode::Nearest => 0x2702,
            InterpolationMode::Linear => 0x2703,
        },
        None => texture_filter_mode.value(),
    }
}

/// The parameter and the value to set a texture's wrap mode along `s` with.
pub fn tex_parameter_i_wrap_s(param: TextureWrapMode) -> (setting: (TextureParameter, i32))
    ensures
        setting == (TextureParameter::TextureWrapS, param.value() as i32),
{
    (TextureParameter::TextureWrapS, param.value() as i32)
}

/// The parameter and the value to set a texture's wrap mode along `t` with.
pub fn tex_parameter_i_wrap_t(param: TextureWrapMode) -> (setting: (TextureParameter, i32))
    ensures
        setting == (TextureParameter::TextureWrapT, param.value() as i32),
{
    (TextureParameter::TextureWrapT, param.value() as i32)
}

/// The parameter and the value to set a texture's wrap mode along `r` with.
pub fn tex_parameter_i_wrap_r(param: TextureWrapMode) -> (setting: (TextureParameter, i32))
    ensures
        setting == (TextureParameter::TextureWrapR, param.value() as i32),
{
    (TextureParameter::TextureWrapR, param.value() as i32)
}

/// The parameter and the value to set a texture's magnifying filter with.
pub fn tex_parameter_i_mag_filter(filter_mode: InterpolationMode) -> (setting: (
    TextureParameter,
    i32,
))
    ensures
        setting == (TextureParameter::TextureMagFilter, filter_mode.value() as i32),
{
    (TextureParameter::TextureMagFilter, filter_mode.value() as i32)
}

/// The parameter and the value to set a texture's minifying filter with, see [`min_filter`].
pub fn tex_parameter_i_min_filter(
    texture_filter_mode: InterpolationMode,
    mipmap_interpolation: Option<InterpolationMode>,
) -> (setting: (TextureParameter, i32))
    ensures
        setting == (
            TextureParameter::TextureMinFilter,
            min_filter(texture_filter_mode, mipmap_interpolation) as i32,
        ),
{
    let filter_mode: u32 = match mipmap_interpolation {
        Some(InterpolationMode::Nearest) => match texture_filter_mode {
            InterpolationMode::Nearest => 0x2700,
            InterpolationMode::Linear => 0x2701,
        },
        Some(InterpolationMode::Linear) => match texture_filter_mode {
            InterpolationMode::Nearest => 0x2702,
            InterpolationMode::Linear => 0x2703,
        },
        None => match texture_filter_mode {
            InterpolationMode::Nearest => 0x2600,
            InterpolationMode::Linear => 0x2601,
        },
    };
    (TextureParameter::TextureMinFilter, filter_mode as i32)
}

/// Whether there is a number for the texture unit at `offset` from the first.
pub open spec fn unit_in_range(offset: u32) -> bool {
    TEXTURE0 + offset <= u32::MAX
}

/// The number of the texture unit at `offset` from the first.
pub fn active_texture_gl_texture(offset: u32) -> (unit: u32)
    requires
        unit_in_range(offset),
    ensures
        unit == TEXTURE0 + offset,
{
    TEXTURE0 + offset
}

} // verus!
