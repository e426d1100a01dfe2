//! Reading images: the pixel dimensions in a file's header, and the pixels of
//! an encoded image.

use crate::error::{CommandError, ErrorKind};
use crate::file_type::RasterFormat;
use vstd::prelude::*;
use vstd::string::*;

verus! {

/// `image::ImageError`, the failure of a decoder. Nothing is known of what
/// it holds; its message is read through `to_string`.
#[verifier::external_type_specification]
#[verifier::external_body]
pub struct ExImageError(image::ImageError);

/// `image::DynamicImage`, a decoded image in any pixel layout. Nothing is
/// known of what it holds.
#[verifier::external_type_specification]
#[verifier::external_body]
pub struct ExDynamicImage(image::DynamicImage);

/// The width and height that the header of `contents` declares when it is
/// read as an image of the given format; `None` where it cannot be read so.
pub uninterp spec fn header_dimensions(format: RasterFormat, contents: Seq<u8>) -> Option<
    (u32, u32),
>;

/// `image::ImageReader::with_format` followed by `into_dimensions` builds the
/// decoder of the given built-in format over the bytes and asks it for the
/// image's width and height. Only the header is decoded, and the answer
/// depends on the format and the bytes alone. Any failure gives `None`.
#[verifier::external_body]
pub(crate) fn read_dimensions(format: RasterFormat, contents: &[u8]) -> (dimensions: Option<
    (u32, u32),
>)
    ensures
        dimensions == header_dimensions(format, contents@),
{
    let format = match format {
        RasterFormat::Png => image::ImageFormat::Png,
        RasterFormat::Jpeg => image::ImageFormat::Jpeg,
        RasterFormat::Gif => image::ImageFormat::Gif,
        RasterFormat::Bmp => image::ImageFormat::Bmp,
        RasterFormat::WebP => image::ImageFormat::WebP,
        RasterFormat::Tiff => image::ImageFormat::Tiff,
    };
    image::ImageReader::with_format(std::io::Cursor::new(contents), format).into_dimensions().ok()
}

/// `image::load_from_memory` guesses the format of an encoded image from its
/// first bytes and decodes it. The guess consults detection hooks that the
/// running program may have registered, so nothing is promised of the result.
pub assume_specification[ image::load_from_memory ](buffer: &[u8]) -> (decoded: Result<
    image::DynamicImage,
    image::ImageError,
>)
;

/// `image::DynamicImage::to_rgba8` converts an image to four bytes a pixel:
/// red, green, blue, alpha. The buffer it returns holds at least the pixels of
/// every row, and its first bytes are those pixels.
#[verifier::external_body]
pub(crate) fn to_rgba8(image: &image::DynamicImage) -> (raw: (u32, u32, Vec<u8>))
    ensures
        4 * raw.0 * raw.1 <= raw.2@.len(),
{
    let rgba = image.to_rgba8();
    (rgba.width(), rgba.height(), rgba.into_raw())
}

/// The pixels of an image, four bytes each: red, green, blue, alpha, row after
/// row from the top.
#[derive(Debug)]
pub struct RgbaPixels {
    pub width: u32,
    pub height: u32,
    pub bytes: Vec<u8>,
}

impl RgbaPixels {
    /// The buffer holds exactly the pixels of every row.
    pub open spec fn well_formed(&self) -> bool {
        self.bytes@.len() == 4 * self.width * self.height
    }

    /// The pixels of a `width` by `height` image that `bytes` starts with, or
    /// `None` where `bytes` is too short to hold them. Bytes behind the last
    /// pixel are dropped.
    pub fn from_raw(width: u32, height: u32, bytes: Vec<u8>) -> (pixels: Option<RgbaPixels>)
        ensures
            pixels is Some <==> 4 * width * height <= bytes@.len(),
            pixels matches Some(p) ==> {
                &&& p.well_formed()
                &&& p.width == width
                &&& p.height == height
                &&& p.bytes@ == bytes@.take(4 * width * height)
            },
    {
        let mut bytes = bytes;
        assert(0 <= width * height <= 0xffff_ffff * 0xffff_ffff && 4 * (width * height) == 4
            * width * height) by (nonlinear_arith)
            requires
                0 <= width <= 0xffff_ffff,
                0 <= height <= 0xffff_ffff,
        ;
        let needed: u128 = 4 * ((width as u128) * (height as u128));
        if needed > bytes.len() as u128 {
            None
        } else {
            bytes.truncate(needed as usize);
            Some(RgbaPixels { width, height, bytes })
        }
    }
}

/// Decodes an encoded image to its pixels. A failure is reported as a decode
/// error that carries the decoder's message.
pub fn decode_pixels(image_data: &[u8]) -> (r: Result<RgbaPixels, CommandError>)
    ensures
        r matches Ok(pixels) ==> pixels.well_formed(),
        r matches Err(e) ==> e.kind == ErrorKind::DecodeError,
{
    match image::load_from_memory(image_data) {
        Ok(image) => {
            let (width, height, bytes) = to_rgba8(&image);
            match RgbaPixels::from_raw(width, height, bytes) {
                Some(pixels) => Ok(pixels),
                None => unreached(),
            }
        },
        Err(error) => Err(CommandError::new(ErrorKind::DecodeError, error.to_string())),
    }
}

} // verus!
