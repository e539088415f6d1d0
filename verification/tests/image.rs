use glume::image::Decoded;
use glume::image::Image;
use glume::image::ImageError;
use glume::image::ImageRef;
use glume::image::PixelArray;
use glume::image::PixelArrayRef;
use glume::image::PixelFormat;
use stb_image::image::load_from_memory;
use stb_image::image::LoadResult;

fn rgb_bytes() -> Vec<u8> {
    vec![1, 2, 3, 4, 5, 6, 7, 8, 9, 10, 11, 12]
}

/// The header of a binary PNM file: the letter `P`, the digit of the
/// format, then width, height and the largest sample value.
fn pnm_header(format_digit: u8, width: u32, height: u32) -> Vec<u8> {
    let mut bytes = vec![b'P', b'0' + format_digit];
    bytes.extend_from_slice(format!("\n{} {}\n255\n", width, height).as_bytes());
    bytes
}

/// A 2 by 2 image in the binary PPM format.
fn ppm() -> Vec<u8> {
    let mut bytes = pnm_header(6, 2, 2);
    bytes.extend_from_slice(&rgb_bytes());
    bytes
}

/// A 2 by 1 image in the binary PGM format: one byte a pixel.
fn pgm() -> Vec<u8> {
    let mut bytes = pnm_header(5, 2, 1);
    bytes.extend_from_slice(&[7, 9]);
    bytes
}

/// A 1 by 2 image in the TGA format with four bytes a pixel, first row
/// first; TGA stores blue, green, red, alpha.
fn tga_with_alpha() -> Vec<u8> {
    let mut bytes = vec![0, 0, 2, 0, 0, 0, 0, 0, 0, 0, 0, 0, 1, 0, 2, 0, 32, 0x28];
    bytes.extend_from_slice(&[30, 20, 10, 40, 70, 60, 50, 80]);
    bytes
}

/// A 1 by 1 image in the Radiance HDR format.
fn hdr() -> Vec<u8> {
    let mut bytes = b"#?RADIANCE\nFORMAT=32-bit_rle_rgbe\n\n-Y 1 +X 1\n".to_vec();
    bytes.extend_from_slice(&[128, 128, 128, 128]);
    bytes
}

/// Decodes the bytes of an image file and makes an image of the result.
fn load(bytes: &[u8]) -> Result<Image, ImageError> {
    let decoded = match load_from_memory(bytes) {
        LoadResult::Error(message) => Decoded::Error(message),
        LoadResult::ImageU8(image) => Decoded::ImageU8 {
            width: image.width,
            height: image.height,
            depth: image.depth,
            data: image.data,
        },
        LoadResult::ImageF32(_) => Decoded::ImageF32,
    };
    Image::from_decoded(decoded)
}

#[test]
fn pixel_array_ref_counts_whole_pixels() {
    assert_eq!(PixelArrayRef::RGB(&rgb_bytes()).len(), 4);
    assert_eq!(PixelArrayRef::RGBA(&rgb_bytes()).len(), 3);
    assert_eq!(PixelArrayRef::RGB(&[1, 2, 3, 4, 5]).len(), 1);
    assert_eq!(PixelArrayRef::RGBA(&[1, 2, 3]).len(), 0);
    assert_eq!(PixelArrayRef::RGB(&[]).len(), 0);
}

#[test]
fn pixel_array_ref_gives_its_pixels() {
    let bytes = rgb_bytes();
    let rgb = PixelArrayRef::RGB(&bytes);
    assert_eq!(rgb.get_pixel(0), [1, 2, 3, 255]);
    assert_eq!(rgb.get_pixel(3), [10, 11, 12, 255]);
    let rgba = PixelArrayRef::RGBA(&bytes);
    assert_eq!(rgba.get_pixel(0), [1, 2, 3, 4]);
    assert_eq!(rgba.get_pixel(2), [9, 10, 11, 12]);
}

#[test]
fn pixel_array_ref_format_and_bytes() {
    let bytes = rgb_bytes();
    assert_eq!(PixelArrayRef::RGB(&bytes).format(), PixelFormat::RGB);
    assert_eq!(PixelArrayRef::RGBA(&bytes).format(), PixelFormat::RGBA);
    assert_eq!(PixelArrayRef::RGB(&bytes).as_ptr(), &bytes[..]);
    assert_eq!(PixelArrayRef::RGBA(&bytes).as_ptr(), &bytes[..]);
}

#[test]
fn pixel_array_ref_to_owned_copies() {
    let bytes = rgb_bytes();
    match PixelArrayRef::RGB(&bytes).to_owned() {
        PixelArray::RGB(data) => assert_eq!(data, bytes),
        PixelArray::RGBA(_) => panic!("format changed"),
    }
    match PixelArrayRef::RGBA(&bytes).to_owned() {
        PixelArray::RGBA(data) => assert_eq!(data, bytes),
        PixelArray::RGB(_) => panic!("format changed"),
    }
}

#[test]
fn pixel_array_counts_and_gives_pixels() {
    let rgb = PixelArray::RGB(rgb_bytes());
    assert_eq!(rgb.len(), 4);
    assert_eq!(rgb.get_pixel(1), [4, 5, 6, 255]);
    let rgba = PixelArray::RGBA(rgb_bytes());
    assert_eq!(rgba.len(), 3);
    assert_eq!(rgba.get_pixel(1), [5, 6, 7, 8]);
    assert_eq!(rgba.as_ref().len(), 3);
    assert_eq!(rgba.as_ref().format(), PixelFormat::RGBA);
    assert_eq!(rgb.as_ref().get_pixel(2), [7, 8, 9, 255]);
    let copy = rgb.clone();
    assert_eq!(copy.len(), 4);
    assert_eq!(copy.get_pixel(3), [10, 11, 12, 255]);
}

#[test]
fn image_ref_reads_rows() {
    let bytes = rgb_bytes();
    let image = ImageRef::new((2, 2), PixelArrayRef::RGB(&bytes));
    assert_eq!(image.size(), (2, 2));
    assert_eq!(image.get_pixel(0, 0), [1, 2, 3, 255]);
    assert_eq!(image.get_pixel(1, 0), [4, 5, 6, 255]);
    assert_eq!(image.get_pixel(0, 1), [7, 8, 9, 255]);
    assert_eq!(image.get_pixel(1, 1), [10, 11, 12, 255]);
    assert_eq!(image.pixel_array().len(), 4);
    let wide = ImageRef::new((3, 1), PixelArrayRef::RGBA(&bytes));
    assert_eq!(wide.get_pixel(2, 0), [9, 10, 11, 12]);
}

#[test]
fn image_reads_rows_and_borrows() {
    let image = Image::new((1, 3), PixelArray::RGBA(rgb_bytes()));
    assert_eq!(image.size(), (1, 3));
    assert_eq!(image.get_pixel(0, 2), [9, 10, 11, 12]);
    let borrowed = image.as_ref();
    assert_eq!(borrowed.size(), (1, 3));
    assert_eq!(borrowed.get_pixel(0, 1), [5, 6, 7, 8]);
    let copy = image.clone();
    assert_eq!(copy.size(), (1, 3));
    assert_eq!(copy.get_pixel(0, 0), [1, 2, 3, 4]);
    match PixelArray::from(image) {
        PixelArray::RGBA(data) => assert_eq!(data, rgb_bytes()),
        PixelArray::RGB(_) => panic!("format changed"),
    }
}

#[test]
fn texture_source_names_format_size_and_bytes() {
    let image = Image::new((2, 2), PixelArray::RGB(rgb_bytes()));
    let texture = image.create_texture();
    assert_eq!(texture.format, PixelFormat::RGB);
    assert_eq!(texture.size, (2, 2));
    assert_eq!(texture.data, &rgb_bytes()[..]);
    let bytes = rgb_bytes();
    let texture = ImageRef::new((3, 1), PixelArrayRef::RGBA(&bytes)).create_texture();
    assert_eq!(texture.format, PixelFormat::RGBA);
    assert_eq!(texture.size, (3, 1));
    assert_eq!(texture.data, &bytes[..]);
}

#[test]
fn decoded_rgb_becomes_an_image() {
    let decoded = Decoded::ImageU8 { width: 2, height: 2, depth: 3, data: rgb_bytes() };
    let image = Image::from_decoded(decoded).unwrap();
    assert_eq!(image.size(), (2, 2));
    assert_eq!(image.as_ref().pixel_array().format(), PixelFormat::RGB);
    assert_eq!(image.get_pixel(1, 1), [10, 11, 12, 255]);
}

#[test]
fn decoded_rgba_becomes_an_image() {
    let decoded = Decoded::ImageU8 { width: 3, height: 1, depth: 4, data: rgb_bytes() };
    let image = Image::from_decoded(decoded).unwrap();
    assert_eq!(image.size(), (3, 1));
    assert_eq!(image.as_ref().pixel_array().format(), PixelFormat::RGBA);
    assert_eq!(image.get_pixel(2, 0), [9, 10, 11, 12]);
}

#[test]
fn other_depths_are_refused() {
    for depth in [0, 1, 2, 5, usize::MAX] {
        let decoded = Decoded::ImageU8 { width: 1, height: 1, depth, data: vec![0; 8] };
        match Image::from_decoded(decoded) {
            Err(ImageError::InvalidDepth(d)) => assert_eq!(d, depth),
            other => panic!("unexpected: {:?}", other),
        }
    }
}

#[test]
fn floating_point_images_are_refused() {
    assert!(matches!(Image::from_decoded(Decoded::ImageF32), Err(ImageError::UnsupportedFormat)));
}

#[test]
fn decoder_errors_are_handed_on() {
    match Image::from_decoded(Decoded::Error("broken".to_string())) {
        Err(ImageError::Decode(message)) => assert_eq!(message, "broken"),
        other => panic!("unexpected: {:?}", other),
    }
}

#[test]
fn sizes_beyond_u32_are_refused() {
    if usize::BITS > 32 {
        let wide = u32::MAX as usize + 1;
        let decoded = Decoded::ImageU8 { width: wide, height: 1, depth: 3, data: vec![] };
        assert!(matches!(Image::from_decoded(decoded), Err(ImageError::TooLarge)));
        let decoded = Decoded::ImageU8 { width: 1, height: wide, depth: 4, data: vec![] };
        assert!(matches!(Image::from_decoded(decoded), Err(ImageError::TooLarge)));
        let decoded = Decoded::ImageU8 { width: wide, height: 1, depth: 2, data: vec![] };
        assert!(matches!(Image::from_decoded(decoded), Err(ImageError::InvalidDepth(2))));
    }
    let decoded =
        Decoded::ImageU8 { width: u32::MAX as usize, height: 0, depth: 3, data: vec![] };
    assert_eq!(Image::from_decoded(decoded).unwrap().size(), (u32::MAX, 0));
}

#[test]
fn error_messages() {
    assert_eq!(ImageError::Decode("stbi failed".to_string()).message(), "stbi failed");
    assert_eq!(
        ImageError::UnsupportedFormat.message(),
        "Image format is not supported at this time!"
    );
    assert_eq!(ImageError::InvalidDepth(1).message(), "Invalid pixel depth. Must be 3 or 4.");
    assert_eq!(ImageError::TooLarge.message(), "Image is too large.");
}

#[test]
fn decoded_file_with_three_channels() {
    let image = load(&ppm()).unwrap();
    assert_eq!(image.size(), (2, 2));
    assert_eq!(image.as_ref().pixel_array().format(), PixelFormat::RGB);
    assert_eq!(image.as_ref().pixel_array().as_ptr(), &rgb_bytes()[..]);
    assert_eq!(image.get_pixel(0, 0), [1, 2, 3, 255]);
    assert_eq!(image.get_pixel(1, 1), [10, 11, 12, 255]);
}

#[test]
fn decoded_file_with_four_channels() {
    let image = load(&tga_with_alpha()).unwrap();
    assert_eq!(image.size(), (1, 2));
    assert_eq!(image.as_ref().pixel_array().format(), PixelFormat::RGBA);
    assert_eq!(image.get_pixel(0, 0), [10, 20, 30, 40]);
    assert_eq!(image.get_pixel(0, 1), [50, 60, 70, 80]);
}

#[test]
fn decoded_gray_file_is_refused() {
    assert!(matches!(load(&pgm()), Err(ImageError::InvalidDepth(1))));
}

#[test]
fn decoded_floating_point_file_is_refused() {
    assert!(matches!(load(&hdr()), Err(ImageError::UnsupportedFormat)));
}

#[test]
fn undecodable_file_is_reported() {
    match load(b"this is no image") {
        Err(ImageError::Decode(message)) => assert_eq!(message, "stbi_load_from_memory failed"),
        other => panic!("unexpected: {:?}", other),
    }
    assert!(matches!(load(&[]), Err(ImageError::Decode(_))));
}
