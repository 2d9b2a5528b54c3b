//! The outside image codec and perceptual-hash routines this library calls,
//! each with the contract it is relied on for.
use vstd::prelude::*;
use image::codecs::jpeg::JpegEncoder;
use image::codecs::png::PngEncoder;
use image::codecs::webp::WebPEncoder;
use image::imageops::thumbnail;
use image::{ExtendedColorType, ImageBuffer, ImageEncoder, ImageError, ImageFormat, Rgba};

verus! {

#[verifier::external_type_specification]
pub struct ExImageFormat(ImageFormat);

#[verifier::external_type_specification]
#[verifier::external_body]
pub struct ExImageError(ImageError);

/// The lookup table of `ImageFormat::from_mime_type`.
pub open spec fn format_for_mime(m: Seq<char>) -> Option<ImageFormat> {
    if m == "image/avif"@ {
        Some(ImageFormat::Avif)
    } else if m == "image/jpeg"@ {
        Some(ImageFormat::Jpeg)
    } else if m == "image/png"@ {
        Some(ImageFormat::Png)
    } else if m == "image/gif"@ {
        Some(ImageFormat::Gif)
    } else if m == "image/webp"@ {
        Some(ImageFormat::WebP)
    } else if m == "image/tiff"@ {
        Some(ImageFormat::Tiff)
    } else if m == "image/x-targa"@ || m == "image/x-tga"@ {
        Some(ImageFormat::Tga)
    } else if m == "image/vnd-ms.dds"@ {
        Some(ImageFormat::Dds)
    } else if m == "image/bmp"@ {
        Some(ImageFormat::Bmp)
    } else if m == "image/x-icon"@ || m == "image/vnd.microsoft.icon"@ {
        Some(ImageFormat::Ico)
    } else if m == "image/vnd.radiance"@ {
        Some(ImageFormat::Hdr)
    } else if m == "image/x-exr"@ {
        Some(ImageFormat::OpenExr)
    } else if m == "image/x-portable-bitmap"@ || m == "image/x-portable-graymap"@
        || m == "image/x-portable-pixmap"@ || m == "image/x-portable-anymap"@ {
        Some(ImageFormat::Pnm)
    } else if m == "image/x-qoi"@ {
        Some(ImageFormat::Qoi)
    } else {
        None
    }
}

/// Relies on `image::ImageFormat::from_mime_type`: an exact lookup of the MIME type.
#[verifier::external_body]
pub(crate) fn format_from_mime(mime: &str) -> (r: Option<ImageFormat>)
    ensures
        r == format_for_mime(mime@),
{
    ImageFormat::from_mime_type(mime)
}

/// The image that `image::load_from_memory_with_format` decodes from `bytes`
/// in `format`, as `DynamicImage::to_rgba8` gives it: width, height and RGBA
/// samples row by row; `None` where decoding reports an error.
pub uninterp spec fn decoded_rgba_of(bytes: Seq<u8>, format: ImageFormat) -> Option<(u32, u32, Seq<u8>)>;

/// Relies on `image::load_from_memory_with_format`, then `DynamicImage::to_rgba8`,
/// whose buffer holds exactly four samples per pixel.
#[verifier::external_body]
pub(crate) fn decode_rgba(bytes: &[u8], format: ImageFormat) -> (r: Result<(u32, u32, Vec<u8>), ImageError>)
    ensures
        r is Ok <==> decoded_rgba_of(bytes@, format) is Some,
        r matches Ok((w, h, px)) ==> {
            &&& decoded_rgba_of(bytes@, format) == Some((w, h, px@))
            &&& px@.len() == w * h * 4
        },
{
    let buf = image::load_from_memory_with_format(bytes, format)?.to_rgba8();
    let (w, h) = buf.dimensions();
    Ok((w, h, buf.into_raw()))
}

/// Relies on `image::imageops::thumbnail`, which resamples an RGBA image to
/// exactly `new_width` by `new_height` pixels, four samples each.
#[verifier::external_body]
pub(crate) fn shrink_rgba(width: u32, height: u32, rgba: &[u8], new_width: u32, new_height: u32) -> (r: Vec<u8>)
    requires
        rgba@.len() == width * height * 4,
        1 <= new_width <= 100,
        1 <= new_height <= 100,
    ensures
        r@.len() == new_width * new_height * 4,
{
    match ImageBuffer::<Rgba<u8>, &[u8]>::from_raw(width, height, rgba) {
        Some(src) => thumbnail(&src, new_width, new_height).into_raw(),
        None => Vec::new(),
    }
}

/// Relies on the `Display` text of `image::ImageError`.
#[verifier::external_body]
pub(crate) fn image_error_text(e: &ImageError) -> (r: String) {
    e.to_string()
}

/// Width and height of the placeholder that `thumbhash::thumb_hash_to_rgba`
/// renders from a hash, read from the hash's length and header bits; `None`
/// where it reports an error.
pub uninterp spec fn thumb_render_dims(hash: Seq<u8>) -> Option<(usize, usize)>;

/// A hash of an image of at least one pixel a side renders to 5 to 32 pixels
/// a side, 32 along the longer side of the source (along its height when the
/// two are equal).
pub open spec fn hash_renders_for(hash: Seq<u8>, width: nat, height: nat) -> bool {
    width >= 1 && height >= 1 ==> (thumb_render_dims(hash) matches Some((w, h)) && {
        &&& 5 <= w <= 32
        &&& 5 <= h <= 32
        &&& width > height ==> w == 32
        &&& width <= height ==> h == 32
    })
}

/// Relies on `thumbhash::rgba_to_thumb_hash`, which asserts at most 100 pixels
/// a side and a buffer of `width * height * 4` samples. For an image of at
/// least one pixel a side the header it writes marks the image as landscape
/// exactly when `width > height`, and stores luminance counts of 1 to 7, so
/// `thumb_hash_to_rgba` renders it at an aspect ratio within 1/7 and 7, with
/// the longer side at 32 pixels.
#[verifier::external_body]
pub(crate) fn thumb_hash(width: usize, height: usize, rgba: &[u8]) -> (r: Vec<u8>)
    requires
        width <= 100,
        height <= 100,
        rgba@.len() == width * height * 4,
    ensures
        hash_renders_for(r@, width as nat, height as nat),
{
    thumbhash::rgba_to_thumb_hash(width, height, rgba)
}

/// Relies on `thumbhash::thumb_hash_to_rgba`: it renders at most 32 pixels a
/// side, pushes four samples per pixel, and fails when the hash is too short.
/// The samples themselves go through `f32::cos` and are not stated.
#[verifier::external_body]
pub(crate) fn thumb_render(hash: &[u8]) -> (r: Result<(usize, usize, Vec<u8>), ()>)
    ensures
        r is Ok <==> thumb_render_dims(hash@) is Some,
        r matches Ok((w, h, px)) ==> {
            &&& thumb_render_dims(hash@) == Some((w, h))
            &&& w <= 32
            &&& h <= 32
            &&& px@.len() == w * h * 4
        },
{
    thumbhash::thumb_hash_to_rgba(hash)
}

/// The bytes that `image::codecs::png::PngEncoder` writes for an RGBA image.
pub uninterp spec fn png_of(rgba: Seq<u8>, width: nat, height: nat) -> Seq<u8>;

/// Relies on `PngEncoder::write_image` with `Rgba8` samples, which panics on a
/// buffer of another length than `width * height * 4`, refuses a zero side, and
/// otherwise writes at least the PNG signature.
#[verifier::external_body]
pub(crate) fn encode_png(width: u32, height: u32, rgba: &[u8]) -> (r: Result<Vec<u8>, ImageError>)
    requires
        rgba@.len() == width * height * 4,
    ensures
        r is Ok <==> (width >= 1 && height >= 1),
        r matches Ok(b) ==> b@ == png_of(rgba@, width as nat, height as nat) && b@.len() > 0,
{
    let mut buf: Vec<u8> = Vec::new();
    match PngEncoder::new(&mut buf).write_image(rgba, width, height, ExtendedColorType::Rgba8) {
        Ok(()) => Ok(buf),
        Err(e) => Err(e),
    }
}

/// The bytes that `image::codecs::webp::WebPEncoder` (lossless) writes for an
/// RGBA image.
pub uninterp spec fn webp_of(rgba: Seq<u8>, width: nat, height: nat) -> Seq<u8>;

/// Relies on `WebPEncoder::new_lossless` and `write_image` with `Rgba8`
/// samples, which panics on a buffer of another length than `width * height * 4`,
/// takes sides of 1 to 16384 pixels, and writes at least the RIFF header.
#[verifier::external_body]
pub(crate) fn encode_webp(width: u32, height: u32, rgba: &[u8]) -> (r: Result<Vec<u8>, ImageError>)
    requires
        rgba@.len() == width * height * 4,
    ensures
        r is Ok <==> (1 <= width <= 16384 && 1 <= height <= 16384),
        r matches Ok(b) ==> b@ == webp_of(rgba@, width as nat, height as nat) && b@.len() > 0,
{
    let mut buf: Vec<u8> = Vec::new();
    match WebPEncoder::new_lossless(&mut buf).write_image(rgba, width, height, ExtendedColorType::Rgba8) {
        Ok(()) => Ok(buf),
        Err(e) => Err(e),
    }
}

/// The bytes that `image::codecs::jpeg::JpegEncoder` writes for an RGB image.
pub uninterp spec fn jpeg_of(rgb: Seq<u8>, width: nat, height: nat) -> Seq<u8>;

/// Relies on `JpegEncoder::write_image` with `Rgb8` samples (it takes no alpha
/// channel), which panics on a buffer of another length than `width * height * 3`,
/// takes sides of 1 to 65535 pixels, and writes at least the start-of-image marker.
#[verifier::external_body]
pub(crate) fn encode_jpeg(width: u32, height: u32, rgb: &[u8]) -> (r: Result<Vec<u8>, ImageError>)
    requires
        rgb@.len() == width * height * 3,
    ensures
        r is Ok <==> (1 <= width <= 65535 && 1 <= height <= 65535),
        r matches Ok(b) ==> b@ == jpeg_of(rgb@, width as nat, height as nat) && b@.len() > 0,
{
    let mut buf: Vec<u8> = Vec::new();
    match JpegEncoder::new(&mut buf).write_image(rgb, width, height, ExtendedColorType::Rgb8) {
        Ok(()) => Ok(buf),
        Err(e) => Err(e),
    }
}

} // verus!
