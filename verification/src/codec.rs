//! The JPEG codec of the `image` crate, as far as the library leans on it.
//!
//! Nothing in this file is proved. Each item states what the library takes
//! the codec to do; the rest of the crate is verified against these
//! statements. They were read off version 0.25.10 of `image`, which decodes
//! JPEG with `zune-jpeg` 0.5.

use vstd::prelude::*;
use image::{DynamicImage, ExtendedColorType, ImageError, ImageFormat};
use image::{GrayAlphaImage, GrayImage, RgbImage, RgbaImage};
use image::codecs::jpeg::JpegEncoder;
use crate::raster::PixelFormat;

verus! {

/// The codec's error type, carried through unopened.
#[verifier::external_type_specification]
#[verifier::external_body]
pub struct ExImageError(ImageError);

/// Lowest quality the encoder is documented to take.
pub const MIN_QUALITY: u8 = 1;

/// Highest quality the encoder is documented to take.
pub const MAX_QUALITY: u8 = 100;

/// Largest width or height a JPEG frame header can hold.
pub const MAX_DIMENSION: u32 = 65535;

/// The JPEG stream that `JpegEncoder` writes for an 8-bit RGB raster of the
/// given dimensions at the given quality.
pub uninterp spec fn jpeg_stream(samples: Seq<u8>, width: nat, height: nat, quality: nat) -> Seq<u8>;

/// What `image::load_from_memory_with_format` makes of a byte stream read as
/// JPEG: width, height, samples per pixel and the samples, or `None` where it
/// refuses the stream.
pub uninterp spec fn jpeg_decoding(bytes: Seq<u8>) -> Option<(u32, u32, u8, Seq<u8>)>;

/// The samples that `DynamicImage::into_rgb8` gives for an 8-bit raster with
/// the given number of samples per pixel.
pub uninterp spec fn rgb8_conversion(width: nat, height: nat, channels: nat, samples: Seq<u8>) -> Seq<u8>;

/// Calls `JpegEncoder::new_with_quality` on `out` and then `encode` with the
/// colour type `Rgb8`.
///
/// Taken from the encoder's source: it panics unless the slice holds
/// width × height × 3 bytes, which the precondition rules out; it refuses a
/// raster exactly when a dimension is zero or above 65535; otherwise every
/// write goes to the vector, cannot fail, and lands behind what the vector
/// held. The bytes written are a function of the raster and the quality.
/// Nothing is said of `out` after a refusal.
#[verifier::external_body]
pub(crate) fn encode_rgb8(samples: &Vec<u8>, width: u32, height: u32, quality: u8, out: &mut Vec<u8>) -> (r: Result<(), ImageError>)
    requires
        samples@.len() == width * height * 3,
    ensures
        match r {
            Ok(_) => {
                &&& 1 <= width <= MAX_DIMENSION
                &&& 1 <= height <= MAX_DIMENSION
                &&& final(out)@ == old(out)@ + jpeg_stream(samples@, width as nat, height as nat, quality as nat)
            },
            Err(_) => !(1 <= width <= MAX_DIMENSION && 1 <= height <= MAX_DIMENSION),
        },
{
    JpegEncoder::new_with_quality(out, quality).encode(samples, width, height, ExtendedColorType::Rgb8)
}

/// Calls `image::load_from_memory_with_format` with `ImageFormat::Jpeg` and
/// takes the decoded image apart.
///
/// Taken from the decoder's source: the outcome is a function of the bytes;
/// a decoded JPEG has one to four 8-bit samples per pixel, neither dimension
/// is zero, and the sample vector is allocated with exactly
/// width × height × channels entries.
#[verifier::external_body]
pub(crate) fn decode_jpeg(bytes: &Vec<u8>) -> (r: Result<(u32, u32, u8, Vec<u8>), ImageError>)
    ensures
        match r {
            Ok((width, height, channels, samples)) => {
                &&& jpeg_decoding(bytes@) == Some((width, height, channels, samples@))
                &&& 1 <= width
                &&& 1 <= height
                &&& 1 <= channels <= 4
                &&& samples@.len() == width * height * channels
            },
            Err(_) => jpeg_decoding(bytes@) is None,
        },
{
    let decoded = image::load_from_memory_with_format(bytes, ImageFormat::Jpeg)?;
    Ok((decoded.width(), decoded.height(), decoded.color().channel_count(), decoded.into_bytes()))
}

/// Calls `DynamicImage::into_rgb8` on the raster and hands back the samples.
///
/// Taken from its source: the result is a function of the raster and has
/// three samples for each pixel of it.
#[verifier::external_body]
pub(crate) fn convert_to_rgb8(width: u32, height: u32, format: PixelFormat, samples: Vec<u8>) -> (out: Vec<u8>)
    requires
        samples@.len() == width * height * format.channel_count(),
    ensures
        out@ == rgb8_conversion(width as nat, height as nat, format.channel_count(), samples@),
        out@.len() == width * height * 3,
{
    let raster = match format {
        PixelFormat::Luma8 => GrayImage::from_raw(width, height, samples).map(DynamicImage::ImageLuma8),
        PixelFormat::LumaA8 => GrayAlphaImage::from_raw(width, height, samples).map(DynamicImage::ImageLumaA8),
        PixelFormat::Rgb8 => RgbImage::from_raw(width, height, samples).map(DynamicImage::ImageRgb8),
        PixelFormat::Rgba8 => RgbaImage::from_raw(width, height, samples).map(DynamicImage::ImageRgba8),
    };
    raster.unwrap().into_rgb8().into_raw()
}

} // verus!
