use kengine::gl::texture::BaseInternalFormat;
use kengine::gl::texture::InterpolationMode;
use kengine::gl::texture::TextureParameter;
use kengine::gl::texture::TextureWrapMode;
use kengine::texture::RgbaImage;
use kengine::texture::TexImage2D;
use kengine::texture::TextureCreateInfo;
use kengine::texture::TextureError;
use kengine::texture::PIXEL_SIZE;

const RGBA_PNG: [u8; 88] = [
    0x89, 0x50, 0x4e, 0x47, 0x0d, 0x0a, 0x1a, 0x0a, 0x00, 0x00, 0x00, 0x0d, 0x49, 0x48, 0x44, 0x52,
    0x00, 0x00, 0x00, 0x03, 0x00, 0x00, 0x00, 0x02, 0x08, 0x06, 0x00, 0x00, 0x00, 0x9d, 0x74, 0x66,
    0x1a, 0x00, 0x00, 0x00, 0x1f, 0x49, 0x44, 0x41, 0x54, 0x78, 0x9c, 0x63, 0xf8, 0xcf, 0xc0, 0xf0,
    0x1f, 0x0c, 0x19, 0xfe, 0xff, 0x67, 0xe0, 0x12, 0x91, 0xd3, 0x60, 0x64, 0x62, 0x66, 0xf9, 0xf5,
    0xfb, 0xcf, 0x5f, 0x00, 0x7f, 0x9a, 0x0a, 0x57, 0x9e, 0x7c, 0x61, 0x43, 0x00, 0x00, 0x00, 0x00,
    0x49, 0x45, 0x4e, 0x44, 0xae, 0x42, 0x60, 0x82,
];

const GRAY_PNG: [u8; 68] = [
    0x89, 0x50, 0x4e, 0x47, 0x0d, 0x0a, 0x1a, 0x0a, 0x00, 0x00, 0x00, 0x0d, 0x49, 0x48, 0x44, 0x52,
    0x00, 0x00, 0x00, 0x02, 0x00, 0x00, 0x00, 0x01, 0x08, 0x00, 0x00, 0x00, 0x00, 0xd1, 0x49, 0x20,
    0x56, 0x00, 0x00, 0x00, 0x0b, 0x49, 0x44, 0x41, 0x54, 0x78, 0x9c, 0x63, 0x60, 0x3f, 0x01, 0x00,
    0x00, 0xd9, 0x00, 0xd0, 0xd7, 0xa6, 0x22, 0x3c, 0x00, 0x00, 0x00, 0x00, 0x49, 0x45, 0x4e, 0x44,
    0xae, 0x42, 0x60, 0x82,
];

const RGB_BMP: [u8; 62] = [
    0x42, 0x4d, 0x3e, 0x00, 0x00, 0x00, 0x00, 0x00, 0x00, 0x00, 0x36, 0x00, 0x00, 0x00, 0x28, 0x00,
    0x00, 0x00, 0x02, 0x00, 0x00, 0x00, 0x01, 0x00, 0x00, 0x00, 0x01, 0x00, 0x18, 0x00, 0x00, 0x00,
    0x00, 0x00, 0x08, 0x00, 0x00, 0x00, 0x13, 0x0b, 0x00, 0x00, 0x13, 0x0b, 0x00, 0x00, 0x00, 0x00,
    0x00, 0x00, 0x00, 0x00, 0x00, 0x00, 0x00, 0x00, 0xff, 0xff, 0x00, 0x00, 0x00, 0x00,
];

fn image_of(width: u32, height: u32) -> RgbaImage {
    RgbaImage::from_raw(width, height, vec![0; (width * height * 4) as usize]).unwrap()
}

#[test]
fn png_with_alpha_decodes_to_its_pixels() {
    let image = RgbaImage::decode(&RGBA_PNG).unwrap();
    assert_eq!(image.width(), 3);
    assert_eq!(image.height(), 2);
    assert_eq!(
        image.as_bytes(),
        [
            255, 0, 0, 255, 0, 255, 0, 255, 0, 0, 255, 255, 10, 20, 30, 40, 1, 2, 3, 4, 250, 251,
            252, 253
        ]
    );
}

#[test]
fn grey_png_decodes_to_opaque_rgba() {
    let image = RgbaImage::decode(&GRAY_PNG).unwrap();
    assert_eq!(image.width(), 2);
    assert_eq!(image.height(), 1);
    assert_eq!(image.as_bytes(), [7, 7, 7, 255, 200, 200, 200, 255]);
}

#[test]
fn bytes_that_are_no_image_do_not_decode() {
    assert!(matches!(RgbaImage::decode(&[]), Err(TextureError::Undecodable(_))));
    assert!(matches!(RgbaImage::decode(b"not an image"), Err(TextureError::Undecodable(_))));
    assert!(matches!(RgbaImage::decode(&RGBA_PNG[..40]), Err(TextureError::Undecodable(_))));
    let mut broken = RGBA_PNG;
    broken[50] ^= 0xff;
    assert!(matches!(RgbaImage::decode(&broken), Err(TextureError::Undecodable(_))));
}

#[test]
fn image_is_made_of_four_bytes_to_the_pixel() {
    assert_eq!(PIXEL_SIZE, 4);
    let image = RgbaImage::from_raw(2, 3, (0..24).collect()).unwrap();
    assert_eq!(image.width(), 2);
    assert_eq!(image.height(), 3);
    assert_eq!(image.as_bytes(), (0..24).collect::<Vec<u8>>());
    assert!(RgbaImage::from_raw(2, 3, vec![0; 23]).is_none());
    assert!(RgbaImage::from_raw(2, 3, vec![0; 25]).is_none());
    assert!(RgbaImage::from_raw(1, 1, vec![]).is_none());
}

#[test]
fn empty_images_have_no_pixels() {
    assert!(RgbaImage::from_raw(0, 0, vec![]).is_some());
    assert!(RgbaImage::from_raw(0, 7, vec![]).is_some());
    assert!(RgbaImage::from_raw(i32::MAX as u32, 0, vec![]).is_some());
    assert!(RgbaImage::from_raw(0, 7, vec![0; 4]).is_none());
}

#[test]
fn images_larger_than_the_driver_takes_are_refused() {
    assert!(RgbaImage::from_raw(i32::MAX as u32 + 1, 0, vec![]).is_none());
    assert!(RgbaImage::from_raw(0, i32::MAX as u32 + 1, vec![]).is_none());
    assert!(RgbaImage::from_raw(u32::MAX, u32::MAX, vec![]).is_none());
    assert!(RgbaImage::from_raw(1 << 31, 1 << 31, vec![]).is_none());
}

#[test]
fn texture_setup_of_the_engine() {
    let info = TextureCreateInfo {
        rgba_image: image_of(4, 2),
        internal_format: BaseInternalFormat::RGBA,
        mip_level: 0,
        wrap_s: TextureWrapMode::Repeat,
        wrap_t: TextureWrapMode::Repeat,
        min_filter: InterpolationMode::Linear,
        mag_filter: InterpolationMode::Nearest,
        mipmap_interpolation: Some(InterpolationMode::Linear),
    };
    let setup = info.setup();
    assert_eq!(
        setup.parameters,
        vec![
            (TextureParameter::TextureWrapS, gl46::GL_REPEAT.0 as i32),
            (TextureParameter::TextureWrapT, gl46::GL_REPEAT.0 as i32),
            (TextureParameter::TextureMagFilter, gl46::GL_NEAREST.0 as i32),
            (TextureParameter::TextureMinFilter, gl46::GL_LINEAR_MIPMAP_LINEAR.0 as i32),
        ]
    );
    assert_eq!(
        setup.image,
        TexImage2D {
            target: gl46::GL_TEXTURE_2D.0,
            level: 0,
            internal_format: gl46::GL_RGBA.0 as i32,
            width: 4,
            height: 2,
            format: gl46::GL_RGBA.0,
            data_type: gl46::GL_UNSIGNED_BYTE.0,
        }
    );
}

#[test]
fn texture_setup_follows_what_it_is_made_from() {
    let info = TextureCreateInfo {
        rgba_image: image_of(1, 5),
        internal_format: BaseInternalFormat::RGB,
        mip_level: 3,
        wrap_s: TextureWrapMode::ClampToEdge,
        wrap_t: TextureWrapMode::MirroredRepeat,
        min_filter: InterpolationMode::Nearest,
        mag_filter: InterpolationMode::Linear,
        mipmap_interpolation: None,
    };
    let setup = info.setup();
    assert_eq!(
        setup.parameters,
        vec![
            (TextureParameter::TextureWrapS, gl46::GL_CLAMP_TO_EDGE.0 as i32),
            (TextureParameter::TextureWrapT, gl46::GL_MIRRORED_REPEAT.0 as i32),
            (TextureParameter::TextureMagFilter, gl46::GL_LINEAR.0 as i32),
            (TextureParameter::TextureMinFilter, gl46::GL_NEAREST.0 as i32),
        ]
    );
    assert_eq!(setup.image.level, 3);
    assert_eq!(setup.image.internal_format, gl46::GL_RGB.0 as i32);
    assert_eq!(setup.image.width, 1);
    assert_eq!(setup.image.height, 5);
    assert_eq!(setup.image.format, gl46::GL_RGBA.0);
}

#[test]
fn image_of_another_format_decodes_to_opaque_rgba() {
    let image = RgbaImage::decode(&RGB_BMP).unwrap();
    assert_eq!(image.width(), 2);
    assert_eq!(image.height(), 1);
    assert_eq!(image.as_bytes(), [255, 0, 0, 255, 0, 0, 255, 255]);
}

#[test]
fn image_without_the_mark_of_a_format_does_not_decode() {
    let mut unmarked = RGBA_PNG;
    unmarked[1] = b'Q';
    assert!(matches!(RgbaImage::decode(&unmarked), Err(TextureError::Undecodable(_))));
    let mut marked = b"GIF89a".to_vec();
    marked.extend([0xff; 3]);
    assert!(matches!(RgbaImage::decode(&marked), Err(TextureError::Undecodable(_))));
}

#[test]
fn decoding_twice_gives_the_same_image() {
    let first = RgbaImage::decode(&RGBA_PNG).unwrap();
    let second = RgbaImage::decode(&RGBA_PNG).unwrap();
    assert_eq!(first.width(), second.width());
    assert_eq!(first.height(), second.height());
    assert_eq!(first.as_bytes(), second.as_bytes());
}
