//! Images as arrays of pixels: three bytes a pixel for red, green and blue,
//! or four with alpha, row after row from the first row on.

use vstd::prelude::*;
use vstd::arithmetic::div_mod::lemma_fundamental_div_mod;
use vstd::arithmetic::div_mod::lemma_mod_bound;
use vstd::slice::slice_to_vec;
use vstd::std_specs::convert::FromSpecImpl;

verus! {

/// How many channels a pixel has.
#[derive(Debug, Clone, Copy, PartialEq, Eq, Structural)]
pub enum PixelFormat {
    RGB,
    RGBA,
}

impl PixelFormat {
    /// The number of bytes that a pixel takes.
    pub open spec fn channels(self) -> int {
        match self {
            PixelFormat::RGB => 3,
            PixelFormat::RGBA => 4,
        }
    }
}

/// The pixels of an image: their format and their bytes.
pub struct Pixels {
    pub format: PixelFormat,
    pub bytes: Seq<u8>,
}

impl Pixels {
    /// The number of whole pixels.
    pub open spec fn len(self) -> int {
        (self.bytes.len() as int) / self.format.channels()
    }

    /// Red, green, blue and alpha of the pixel at `index`; a pixel without
    /// alpha is opaque.
    pub open spec fn pixel(self, index: int) -> Seq<u8> {
        match self.format {
            PixelFormat::RGB => seq![
                self.bytes[3 * index],
                self.bytes[3 * index + 1],
                self.bytes[3 * index + 2],
                255u8,
            ],
            PixelFormat::RGBA => seq![
                self.bytes[4 * index],
                self.bytes[4 * index + 1],
                self.bytes[4 * index + 2],
                self.bytes[4 * index + 3],
            ],
        }
    }
}

/// The pixel at an index below the number of whole pixels lies inside the
/// bytes with all of its channels.
pub proof fn lemma_pixel_in_bounds(pixels: Pixels, index: int)
    requires
        0 <= index < pixels.len(),
    ensures
        pixels.format is RGB ==> 3 * index + 3 <= pixels.bytes.len(),
        pixels.format is RGBA ==> 4 * index + 4 <= pixels.bytes.len(),
{
    let len = pixels.bytes.len() as int;
    lemma_fundamental_div_mod(len, 3);
    lemma_mod_bound(len, 3);
    lemma_fundamental_div_mod(len, 4);
    lemma_mod_bound(len, 4);
}

/// Pixels that are borrowed.
#[derive(Debug, Clone, Copy)]
pub enum PixelArrayRef<'a> {
    RGB(&'a [u8]),
    RGBA(&'a [u8]),
}

impl<'a> View for PixelArrayRef<'a> {
    type V = Pixels;

    open spec fn view(&self) -> Pixels {
        match self {
            PixelArrayRef::RGB(data) => Pixels { format: PixelFormat::RGB, bytes: data@ },
            PixelArrayRef::RGBA(data) => Pixels { format: PixelFormat::RGBA, bytes: data@ },
        }
    }
}

impl<'a> PixelArrayRef<'a> {
    /// Returns the number of pixels in the pixel array.
    pub fn len(&self) -> (len: usize)
        ensures
            len == self@.len(),
    {
        match self {
            PixelArrayRef::RGB(data) => data.len() / 3,
            PixelArrayRef::RGBA(data) => data.len() / 4,
        }
    }

    /// The bytes of the pixels, as a graphics API takes them.
    pub fn as_ptr(&self) -> (data: &'a [u8])
        ensures
            data@ == self@.bytes,
    {
        match self {
            PixelArrayRef::RGB(data) => data,
            PixelArrayRef::RGBA(data) => data,
        }
    }

    /// The format of the pixels.
    pub fn format(&self) -> (format: PixelFormat)
        ensures
            format == self@.format,
    {
        match self {
            PixelArrayRef::RGB(_) => PixelFormat::RGB,
            PixelArrayRef::RGBA(_) => PixelFormat::RGBA,
        }
    }

    /// A copy of the pixels that owns its bytes.
    pub fn to_owned(&self) -> (owned: PixelArray)
        ensures
            owned@ == self@,
    {
        match self {
            PixelArrayRef::RGB(data) => PixelArray::RGB(slice_to_vec(data)),
            PixelArrayRef::RGBA(data) => PixelArray::RGBA(slice_to_vec(data)),
        }
    }

    /// Red, green, blue and alpha of the pixel at `index`.
    pub fn get_pixel(&self, index: usize) -> (pixel: [u8; 4])
        requires
            index < self@.len(),
        ensures
            pixel@ == self@.pixel(index as int),
    {
        let pixel = match self {
            PixelArrayRef::RGB(data) => {
                let _len = data.len();
                proof {
                    lemma_pixel_in_bounds(self@, index as int);
                }
                let i = index * 3;
                [data[i], data[i + 1], data[i + 2], 255]
            },
            PixelArrayRef::RGBA(data) => {
                let _len = data.len();
                proof {
                    lemma_pixel_in_bounds(self@, index as int);
                }
                let i = index * 4;
                [data[i], data[i + 1], data[i + 2], data[i + 3]]
            },
        };
        assert(pixel@ =~= self@.pixel(index as int));
        pixel
    }
}

/// Pixels that own their bytes.
#[derive(Debug)]
pub enum PixelArray {
    RGB(Vec<u8>),
    RGBA(Vec<u8>),
}

impl Clone for PixelArray {
    fn clone(&self) -> (copy: PixelArray)
        ensures
            copy@ == self@,
    {
        self.as_ref().to_owned()
    }
}

impl View for PixelArray {
    type V = Pixels;

    open spec fn view(&self) -> Pixels {
        match self {
            PixelArray::RGB(data) => Pixels { format: PixelFormat::RGB, bytes: data@ },
            PixelArray::RGBA(data) => Pixels { format: PixelFormat::RGBA, bytes: data@ },
        }
    }
}

impl PixelArray {
    /// Returns the number of pixels in the pixel array.
    pub fn len(&self) -> (len: usize)
        ensures
            len == self@.len(),
    {
        match self {
            PixelArray::RGB(data) => data.len() / 3,
            PixelArray::RGBA(data) => data.len() / 4,
        }
    }

    /// The same pixels, borrowed.
    pub fn as_ref(&self) -> (borrowed: PixelArrayRef<'_>)
        ensures
            borrowed@ == self@,
    {
        match self {
            PixelArray::RGB(data) => PixelArrayRef::RGB(data.as_slice()),
            PixelArray::RGBA(data) => PixelArrayRef::RGBA(data.as_slice()),
        }
    }

    /// Red, green, blue and alpha of the pixel at `index`.
    pub fn get_pixel(&self, index: usize) -> (pixel: [u8; 4])
        requires
            index < self@.len(),
        ensures
            pixel@ == self@.pixel(index as int),
    {
        let pixel = match self {
            PixelArray::RGB(data) => {
                let _len = data.len();
                proof {
                    lemma_pixel_in_bounds(self@, index as int);
                }
                let i = index * 3;
                [data[i], data[i + 1], data[i + 2], 255]
            },
            PixelArray::RGBA(data) => {
                let _len = data.len();
                proof {
                    lemma_pixel_in_bounds(self@, index as int);
                }
                let i = index * 4;
                [data[i], data[i + 1], data[i + 2], data[i + 3]]
            },
        };
        assert(pixel@ =~= self@.pixel(index as int));
        pixel
    }
}

impl From<Image> for PixelArray {
    fn from(image: Image) -> (pixels: PixelArray) {
        image.pixel_array
    }
}

impl FromSpecImpl<Image> for PixelArray {
    open spec fn obeys_from_spec() -> bool {
        true
    }

    closed spec fn from_spec(image: Image) -> PixelArray {
        image.pixel_array
    }
}

/// What an image holds: its width and height, and its pixels.
pub struct ImageView {
    pub size: (u32, u32),
    pub pixels: Pixels,
}

impl ImageView {
    /// Whether there are as many pixels as the size asks for.
    pub open spec fn is_complete(self) -> bool {
        self.pixels.len() == self.size.0 * self.size.1
    }

    /// Red, green, blue and alpha of the pixel in column `x` of row `y`.
    pub open spec fn pixel(self, x: int, y: int) -> Seq<u8> {
        self.pixels.pixel(y * self.size.0 + x)
    }
}

/// What a texture is made of: the pixels of an image as the graphics API
/// takes them.
#[derive(Debug, Clone, Copy)]
pub struct TextureSource<'a> {
    pub format: PixelFormat,
    pub size: (u32, u32),
    pub data: &'a [u8],
}

/// An image whose pixels are borrowed. It has as many pixels as its size
/// asks for.
#[derive(Debug, Clone, Copy)]
pub struct ImageRef<'a> {
    size: (u32, u32),
    pixel_array: PixelArrayRef<'a>,
}

impl<'a> View for ImageRef<'a> {
    type V = ImageView;

    closed spec fn view(&self) -> ImageView {
        ImageView { size: self.size, pixels: self.pixel_array@ }
    }
}

impl<'a> ImageRef<'a> {
    /// The image of the given size over the given pixels, of which there
    /// are as many as the size asks for.
    pub fn new(size: (u32, u32), pixel_array: PixelArrayRef<'a>) -> (image: ImageRef<'a>)
        requires
            size.0 * size.1 <= u32::MAX,
            pixel_array@.len() == size.0 * size.1,
        ensures
            image@ == (ImageView { size, pixels: pixel_array@ }),
            image@.is_complete(),
    {
        ImageRef { size, pixel_array }
    }

    pub fn size(&self) -> (size: (u32, u32))
        ensures
            size == self@.size,
    {
        self.size
    }

    /// The pixels of the image.
    pub fn pixel_array(&self) -> (pixel_array: PixelArrayRef<'a>)
        ensures
            pixel_array@ == self@.pixels,
    {
        self.pixel_array
    }

    /// What to hand to the graphics API to make a texture of the image:
    /// the format of the pixels, the size, and the bytes.
    pub fn create_texture(&self) -> (texture: TextureSource<'a>)
        ensures
            texture.format == self@.pixels.format,
            texture.size == self@.size,
            texture.data@ == self@.pixels.bytes,
    {
        TextureSource {
            format: self.pixel_array.format(),
            size: self.size,
            data: self.pixel_array.as_ptr(),
        }
    }

    /// Red, green, blue and alpha of the pixel in column `x` of row `y`.
    pub fn get_pixel(&self, x: usize, y: usize) -> (pixel: [u8; 4])
        requires
            y * self@.size.0 + x < self@.pixels.len(),
        ensures
            pixel@ == self@.pixel(x as int, y as int),
    {
        proof {
            lemma_row_start_fits(y as int, self.size.0 as int, x as int);
        }
        let _len = self.pixel_array.len();
        let index = y * self.size.0 as usize + x;
        self.pixel_array.get_pixel(index)
    }
}

/// The start of a row is not larger than the index of any pixel in it.
proof fn lemma_row_start_fits(y: int, width: int, x: int)
    requires
        0 <= y,
        0 <= width,
        0 <= x,
    ensures
        0 <= y * width <= y * width + x,
{
    assert(0 <= y * width) by (nonlinear_arith)
        requires
            0 <= y,
            0 <= width,
    ;
}

/// An image that owns its pixels.
#[derive(Debug)]
pub struct Image {
    size: (u32, u32),
    pixel_array: PixelArray,
}

impl Clone for Image {
    fn clone(&self) -> (copy: Image)
        ensures
            copy@ == self@,
    {
        Image { size: (self.size.0, self.size.1), pixel_array: self.pixel_array.clone() }
    }
}

impl View for Image {
    type V = ImageView;

    closed spec fn view(&self) -> ImageView {
        ImageView { size: self.size, pixels: self.pixel_array@ }
    }
}

impl Image {
    pub fn new(size: (u32, u32), pixel_array: PixelArray) -> (image: Image)
        ensures
            image@ == (ImageView { size, pixels: pixel_array@ }),
    {
        Image { size, pixel_array }
    }

    pub fn size(&self) -> (size: (u32, u32))
        ensures
            size == self@.size,
    {
        self.size
    }

    /// The pixels of the image.
    pub fn pixel_array(&self) -> (pixel_array: &PixelArray)
        ensures
            pixel_array@ == self@.pixels,
    {
        &self.pixel_array
    }

    /// What to hand to the graphics API to make a texture of the image.
    /// The image has as many pixels as its size asks for.
    pub fn create_texture(&self) -> (texture: TextureSource<'_>)
        requires
            self@.size.0 * self@.size.1 <= u32::MAX,
            self@.is_complete(),
        ensures
            texture.format == self@.pixels.format,
            texture.size == self@.size,
            texture.data@ == self@.pixels.bytes,
    {
        self.as_ref().create_texture()
    }

    /// The same image, borrowed. The image has as many pixels as its size
    /// asks for.
    pub fn as_ref(&self) -> (borrowed: ImageRef<'_>)
        requires
            self@.size.0 * self@.size.1 <= u32::MAX,
            self@.is_complete(),
        ensures
            borrowed@ == self@,
    {
        ImageRef::new(self.size, self.pixel_array.as_ref())
    }

    /// Red, green, blue and alpha of the pixel in column `x` of row `y`.
    pub fn get_pixel(&self, x: usize, y: usize) -> (pixel: [u8; 4])
        requires
            y * self@.size.0 + x < self@.pixels.len(),
        ensures
            pixel@ == self@.pixel(x as int, y as int),
    {
        proof {
            lemma_row_start_fits(y as int, self.size.0 as int, x as int);
        }
        let _len = self.pixel_array.len();
        let index = y * self.size.0 as usize + x;
        self.pixel_array.get_pixel(index)
    }
}

/// What a decoder makes of an image file.
#[derive(Debug)]
pub enum Decoded {
    /// The bytes hold no image that the decoder reads; the message says
    /// what failed.
    Error(String),
    /// An image of bytes: `depth` bytes a pixel, row after row.
    ImageU8 { width: usize, height: usize, depth: usize, data: Vec<u8> },
    /// An image of floating-point samples.
    ImageF32,
}

/// Why a file could not be loaded as an image.
#[derive(Debug)]
pub enum ImageError {
    /// The decoder failed, with its message.
    Decode(String),
    /// The image holds floating-point samples.
    UnsupportedFormat,
    /// The image has the given number of bytes a pixel, which is neither 3
    /// nor 4.
    InvalidDepth(usize),
    /// The image is wider or higher than an image can be.
    TooLarge,
}

impl Image {
    /// Whether `loaded` is what a decoded image becomes: an image of three
    /// or four bytes a pixel becomes an RGB or RGBA image of the same size
    /// over the same bytes; anything else is an error.
    pub open spec fn is_made_from(decoded: Decoded, loaded: Result<Image, ImageError>) -> bool {
        match decoded {
            Decoded::Error(message) => loaded == Err::<Image, ImageError>(
                ImageError::Decode(message),
            ),
            Decoded::ImageF32 => loaded == Err::<Image, ImageError>(ImageError::UnsupportedFormat),
            Decoded::ImageU8 { width, height, depth, data } => {
                if depth != 3 && depth != 4 {
                    loaded == Err::<Image, ImageError>(ImageError::InvalidDepth(depth))
                } else if width > u32::MAX || height > u32::MAX {
                    loaded == Err::<Image, ImageError>(ImageError::TooLarge)
                } else {
                    &&& loaded is Ok
                    &&& loaded->Ok_0@ == (ImageView {
                        size: (width as u32, height as u32),
                        pixels: Pixels {
                            format: if depth == 3 {
                                PixelFormat::RGB
                            } else {
                                PixelFormat::RGBA
                            },
                            bytes: data@,
                        },
                    })
                }
            },
        }
    }

    /// Makes an image of what the decoder gave.
    pub fn from_decoded(decoded: Decoded) -> (loaded: Result<Image, ImageError>)
        ensures
            Image::is_made_from(decoded, loaded),
    {
        match decoded {
            Decoded::Error(message) => Err(ImageError::Decode(message)),
            Decoded::ImageF32 => Err(ImageError::UnsupportedFormat),
            Decoded::ImageU8 { width, height, depth, data } => {
                if depth != 3 && depth != 4 {
                    Err(ImageError::InvalidDepth(depth))
                } else if width > u32::MAX as usize || height > u32::MAX as usize {
                    Err(ImageError::TooLarge)
                } else {
                    let size = (width as u32, height as u32);
                    let pixel_array = if depth == 3 {
                        PixelArray::RGB(data)
                    } else {
                        PixelArray::RGBA(data)
                    };
                    Ok(Image::new(size, pixel_array))
                }
            },
        }
    }
}

impl ImageError {
    /// The error in words.
    pub fn message(&self) -> (message: String)
        ensures
            self matches ImageError::Decode(text) ==> message@ == text@,
            self is UnsupportedFormat ==> message@
                == "Image format is not supported at this time!"@,
            self is InvalidDepth ==> message@ == "Invalid pixel depth. Must be 3 or 4."@,
            self is TooLarge ==> message@ == "Image is too large."@,
    {
        match self {
            ImageError::Decode(text) => text.clone(),
            ImageError::UnsupportedFormat => "Image format is not supported at this time!".to_owned(),
            ImageError::InvalidDepth(_) => "Invalid pixel depth. Must be 3 or 4.".to_owned(),
            ImageError::TooLarge => "Image is too large.".to_owned(),
        }
    }
}

} // verus!
