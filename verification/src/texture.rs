//! Images that become textures, and what the driver is told to make a texture of one.

use crate::gl::texture::min_filter;
use crate::gl::texture::tex_parameter_i_mag_filter;
use crate::gl::texture::tex_parameter_i_min_filter;
use crate::gl::texture::tex_parameter_i_wrap_s;
use crate::gl::texture::tex_parameter_i_wrap_t;
use crate::gl::texture::BaseInternalFormat;
use crate::gl::texture::InterpolationMode;
use crate::gl::texture::PixelDataFormat;
use crate::gl::texture::PixelDataType;
use crate::gl::texture::TextureParameter;
use crate::gl::texture::TextureTarget;
use crate::gl::texture::TextureWrapMode;
use vstd::prelude::*;

verus! {

/// `image::ImageError`, what the decoder reports when it fails. Nothing is known of what it
/// holds.
#[verifier::external_type_specification]
#[verifier::external_body]
pub struct ExImageError(image::ImageError);

/// `image::DynamicImage`, a decoded image in whatever pixel format its file had. What it
/// holds is known by [`rgba8_of`] alone.
#[verifier::external_type_specification]
#[verifier::external_body]
pub struct ExDynamicImage(image::DynamicImage);

/// `image::ImageFormat`, the file format of an image. It is handed from the guess of the
/// format to the decoder as it is.
#[verifier::external_type_specification]
#[verifier::external_body]
pub struct ExImageFormat(image::ImageFormat);

/// What a decoded image holds once it is converted to 8-bit RGBA: the width, the height and
/// the pixels, row by row.
pub uninterp spec fn rgba8_of(image: image::DynamicImage) -> (u32, u32, Seq<u8>);

/// The file format that the first bytes of `bytes` are the mark of, among the marks that the
/// decoder has built in; or nothing where they are the mark of none.
pub uninterp spec fn guessed_format(bytes: Seq<u8>) -> Option<image::ImageFormat>;

/// What decoding `bytes` as an image file of the given format gives, as 8-bit RGBA: the
/// width, the height and the pixels, row by row; or nothing where the bytes do not decode.
pub uninterp spec fn decoded_as(bytes: Seq<u8>, format: image::ImageFormat) -> Option<
    (u32, u32, Seq<u8>),
>;

/// What decoding `bytes` as an image file gives, as 8-bit RGBA, the format being the one
/// that the first bytes are the mark of.
pub open spec fn decoded_rgba8(bytes: Seq<u8>) -> Option<(u32, u32, Seq<u8>)> {
    match guessed_format(bytes) {
        Some(format) => decoded_as(bytes, format),
        None => None,
    }
}

/// Calls `image::guess_format`, which holds the first bytes against the table of marks that
/// is built into the decoder, and nothing else.
#[verifier::external_body]
fn guess_format(bytes: &[u8]) -> (result: Result<image::ImageFormat, image::ImageError>)
    ensures
        match result {
            Ok(format) => guessed_format(bytes@) == Some(format),
            Err(_) => guessed_format(bytes@) is None,
        },
{
    image::guess_format(bytes)
}

/// Calls `image::load_from_memory_with_format`, which decodes the bytes with the built-in
/// decoder of the given format. The image that comes out is what decoding these bytes as
/// that format gives; no more is claimed of it.
#[verifier::external_body]
fn load_from_memory_with_format(bytes: &[u8], format: image::ImageFormat) -> (result: Result<
    image::DynamicImage,
    image::ImageError,
>)
    ensures
        match result {
            Ok(image) => decoded_as(bytes@, format) == Some(rgba8_of(image)),
            Err(_) => decoded_as(bytes@, format) is None,
        },
{
    image::load_from_memory_with_format(bytes, format)
}

/// Calls `DynamicImage::into_rgba8`, which converts the image to 8-bit RGBA, and takes the
/// buffer that comes out apart into its width, its height and its pixels.
#[verifier::external_body]
fn into_rgba8(image: image::DynamicImage) -> (parts: (u32, u32, Vec<u8>))
    ensures
        (parts.0, parts.1, parts.2@) == rgba8_of(image),
{
    let buffer = image.into_rgba8();
    (buffer.width(), buffer.height(), buffer.into_raw())
}

/// Writes out what `ImageError`'s `Display` says of the error. Nothing is claimed of the text.
#[verifier::external_body]
fn describe(error: &image::ImageError) -> String {
    format!("{}", error)
}

/// Why bytes could not be made an image of.
#[derive(Debug)]
pub enum TextureError {
    /// The bytes do not decode as an image; with what the decoder says of it.
    Undecodable(String),
    /// The pixels are not four bytes for each place of the width times the height, or the
    /// width or the height is more than the driver can be told.
    BadSize,
}

/// Bytes in one pixel.
pub const PIXEL_SIZE: usize = 4;

/// Whether `length` bytes are the pixels of an image of the given width and height that the
/// driver can be told the size of.
pub open spec fn image_fits(width: u32, height: u32, length: nat) -> bool {
    &&& width <= i32::MAX
    &&& height <= i32::MAX
    &&& length == width * height * PIXEL_SIZE
}

/// An image of 8-bit RGBA pixels, row by row.
#[derive(Debug)]
pub struct RgbaImage {
    width: u32,
    height: u32,
    pixels: Vec<u8>,
}

/// The mathematical content of an image.
pub struct RgbaImageView {
    pub width: nat,
    pub height: nat,
    pub pixels: Seq<u8>,
}

impl View for RgbaImage {
    type V = RgbaImageView;

    closed spec fn view(&self) -> RgbaImageView {
        RgbaImageView {
            width: self.width as nat,
            height: self.height as nat,
            pixels: self.pixels@,
        }
    }
}

impl RgbaImage {
    #[verifier::type_invariant]
    spec fn well_formed(self) -> bool {
        image_fits(self.width, self.height, self.pixels@.len())
    }

    /// The image of the given width and height with the given pixels, if these fit.
    pub fn from_raw(width: u32, height: u32, pixels: Vec<u8>) -> (image: Option<RgbaImage>)
        ensures
            image_fits(width, height, pixels@.len()) <==> image is Some,
            image matches Some(made) ==> made@ == (RgbaImageView {
                width: width as nat,
                height: height as nat,
                pixels: pixels@,
            }),
    {
        if width > i32::MAX as u32 || height > i32::MAX as u32 {
            return None;
        }
        assert(width * height <= 0x7fff_ffff * 0x7fff_ffff) by (nonlinear_arith)
            requires
                width <= 0x7fff_ffff,
                height <= 0x7fff_ffff,
        ;
        let length: u128 = width as u128 * height as u128 * PIXEL_SIZE as u128;
        if pixels.len() as u128 == length {
            Some(RgbaImage { width, height, pixels })
        } else {
            None
        }
    }

    /// Decodes an image file held in memory. The format of the file is told by its first
    /// bytes.
    pub fn decode(bytes: &[u8]) -> (result: Result<RgbaImage, TextureError>)
        ensures
            match decoded_rgba8(bytes@) {
                None => result matches Err(TextureError::Undecodable(_)),
                Some((width, height, pixels)) => if image_fits(width, height, pixels.len()) {
                    result matches Ok(image) && image@ == (RgbaImageView {
                        width: width as nat,
                        height: height as nat,
                        pixels,
                    })
                } else {
                    result matches Err(TextureError::BadSize)
                },
            },
    {
        let format = match guess_format(bytes) {
            Ok(format) => format,
            Err(error) => {
                return Err(TextureError::Undecodable(describe(&error)));
            },
        };
        match load_from_memory_with_format(bytes, format) {
            Ok(decoded) => {
                let (width, height, pixels) = into_rgba8(decoded);
                match RgbaImage::from_raw(width, height, pixels) {
                    Some(image) => Ok(image),
                    None => Err(TextureError::BadSize),
                }
            },
            Err(error) => Err(TextureError::Undecodable(describe(&error))),
        }
    }

    /// The width in pixels.
    pub fn width(&self) -> (width: u32)
        ensures
            width == self@.width,
            width <= i32::MAX,
    {
        proof {
            use_type_invariant(self);
        }
        self.width
    }

    /// The height in pixels.
    pub fn height(&self) -> (height: u32)
        ensures
            height == self@.height,
            height <= i32::MAX,
    {
        proof {
            use_type_invariant(self);
        }
        self.height
    }

    /// The pixels, row by row, four bytes to each.
    pub fn as_bytes(&self) -> (pixels: &[u8])
        ensures
            pixels@ == self@.pixels,
            pixels@.len() == self@.width * self@.height * PIXEL_SIZE,
    {
        proof {
            use_type_invariant(self);
        }
        self.pixels.as_slice()
    }
}

/// What a texture is made from.
#[derive(Debug)]
pub struct TextureCreateInfo {
    pub rgba_image: RgbaImage,
    pub internal_format: BaseInternalFormat,
    pub mip_level: i32,
    pub wrap_s: TextureWrapMode,
    pub wrap_t: TextureWrapMode,
    pub min_filter: InterpolationMode,
    pub mag_filter: InterpolationMode,
    pub mipmap_interpolation: Option<InterpolationMode>,
}

/// What the driver is told of the image that a texture is made of.
#[derive(Clone, Copy, Debug, PartialEq, Eq, Structural)]
pub struct TexImage2D {
    /// The number of the binding point.
    pub target: u32,
    /// The mipmap level that the image is for.
    pub level: i32,
    /// The number of the format to store the texture in.
    pub internal_format: i32,
    /// The width of the image in pixels.
    pub width: i32,
    /// The height of the image in pixels.
    pub height: i32,
    /// The number of the format of the pixels.
    pub format: u32,
    /// The number of the type of the parts of a pixel.
    pub data_type: u32,
}

/// What the driver is told to make a texture, in the order in which it is told: the
/// parameters to set on the texture, then the image. After these the driver is asked for
/// the mipmap.
#[derive(Debug)]
pub struct TextureSetup {
    pub parameters: Vec<(TextureParameter, i32)>,
    pub image: TexImage2D,
}

impl TextureCreateInfo {
    /// The parameters that a texture made from this is given: how it wraps along `s` and
    /// along `t`, its magnifying filter, and its minifying filter.
    pub open spec fn parameters(self) -> Seq<(TextureParameter, i32)> {
        seq![
            (TextureParameter::TextureWrapS, self.wrap_s.value() as i32),
            (TextureParameter::TextureWrapT, self.wrap_t.value() as i32),
            (TextureParameter::TextureMagFilter, self.mag_filter.value() as i32),
            (
                TextureParameter::TextureMinFilter,
                min_filter(self.min_filter, self.mipmap_interpolation) as i32,
            ),
        ]
    }

    /// What the driver is told of the image: a two-dimensional texture of 8-bit RGBA pixels.
    pub open spec fn tex_image(self) -> TexImage2D {
        TexImage2D {
            target: TextureTarget::Texture2D.value(),
            level: self.mip_level,
            internal_format: self.internal_format.value() as i32,
            width: self.rgba_image@.width as i32,
            height: self.rgba_image@.height as i32,
            format: PixelDataFormat::RGBA.value(),
            data_type: PixelDataType::UnsignedByte.value(),
        }
    }

    /// What the driver is told to make the texture.
    pub fn setup(&self) -> (setup: TextureSetup)
        ensures
            setup.parameters@ == self.parameters(),
            setup.image == self.tex_image(),
    {
        let mut parameters: Vec<(TextureParameter, i32)> = Vec::new();
        parameters.push(tex_parameter_i_wrap_s(self.wrap_s));
        parameters.push(tex_parameter_i_wrap_t(self.wrap_t));
        parameters.push(tex_parameter_i_mag_filter(self.mag_filter));
        parameters.push(tex_parameter_i_min_filter(self.min_filter, self.mipmap_interpolation));
        let image = TexImage2D {
            target: TextureTarget::Texture2D.value(),
            level: self.mip_level,
            internal_format: self.internal_format.value() as i32,
            width: self.rgba_image.width() as i32,
            height: self.rgba_image.height() as i32,
            format: PixelDataFormat::RGBA.value(),
            data_type: PixelDataType::UnsignedByte.value(),
        };
        assert(parameters@ =~= self.parameters());
        TextureSetup { parameters, image }
    }
}

} // verus!
