//! The stages after a successful fetch: decode, hash, reconstruct, encode.
use vstd::prelude::*;
use vstd::string::StringExecFns;
use image::{ImageError, ImageFormat};
use crate::codec::{
    decode_rgba, decoded_rgba_of, encode_jpeg, encode_png, encode_webp, format_for_mime,
    format_from_mime, image_error_text, jpeg_of, png_of, shrink_rgba, thumb_hash, thumb_render, thumb_render_dims,
    webp_of,
};
use crate::negotiate::{negotiate, negotiated, OutputFormat};
use crate::pixels::{rgb_of, strip_alpha, PixelBuffer};

verus! {

/// Why a request could not be served.
#[derive(Debug)]
pub enum Failure {
    /// The origin image could not be retrieved.
    Source(String),
    /// A stage after a successful fetch failed.
    Processing(String),
}

impl Failure {
    /// The human-readable description carried by the failure.
    pub open spec fn spec_description(&self) -> Seq<char> {
        match self {
            Failure::Source(d) => d@,
            Failure::Processing(d) => d@,
        }
    }

    /// The human-readable description carried by the failure.
    pub fn description(&self) -> (r: String)
        ensures
            r@ == self.spec_description(),
    {
        match self {
            Failure::Source(d) => d.clone(),
            Failure::Processing(d) => d.clone(),
        }
    }
}

/// Description of an image without a single pixel.
pub const EMPTY_IMAGE: &'static str = "the source image has no pixels";

/// Description of a codec failure that came without text of its own.
pub const CODEC_FAILED: &'static str = "the image codec reported an error";

/// Description of a hash that cannot be rendered back.
pub const RENDER_FAILED: &'static str = "the thumbhash cannot be rendered";

/// A processing failure with a description that says something.
pub open spec fn is_processing_failure(f: Failure) -> bool {
    f is Processing && f.spec_description().len() > 0
}

/// The format a declared content type maps to; JPEG when it is absent or
/// unknown.
pub open spec fn declared_format(content_type: Option<Seq<char>>) -> ImageFormat {
    match content_type {
        Some(c) => match format_for_mime(c) {
            Some(f) => f,
            None => ImageFormat::Jpeg,
        },
        None => ImageFormat::Jpeg,
    }
}

/// The source format for a fetched content-type header.
pub fn source_format(content_type: Option<&str>) -> (r: ImageFormat)
    ensures
        r == declared_format(
            match content_type {
                Some(c) => Some(c@),
                None => None,
            },
        ),
{
    match content_type {
        Some(c) => match format_from_mime(c) {
            Some(f) => f,
            None => ImageFormat::Jpeg,
        },
        None => ImageFormat::Jpeg,
    }
}

proof fn lemma_literal_nonempty()
    ensures
        EMPTY_IMAGE@.len() > 0,
        CODEC_FAILED@.len() > 0,
        RENDER_FAILED@.len() > 0,
{
    reveal_strlit("the source image has no pixels");
    reveal_strlit("the image codec reported an error");
    reveal_strlit("the thumbhash cannot be rendered");
}

/// The codec's description of an error, or a fixed one where it gave none.
fn codec_failure(e: &ImageError) -> (r: Failure)
    ensures
        is_processing_failure(r),
{
    proof {
        lemma_literal_nonempty();
    }
    let text = image_error_text(e);
    if text.as_str().len() == 0 {
        Failure::Processing(String::from_str(CODEC_FAILED))
    } else {
        Failure::Processing(text)
    }
}

/// Decodes fetched bytes in the given format into an RGBA buffer; a decoding
/// error is described by the codec's own text.
pub fn decode_pixels(bytes: &[u8], format: ImageFormat) -> (r: Result<PixelBuffer, Failure>)
    ensures
        r is Ok <==> decoded_rgba_of(bytes@, format) is Some,
        r matches Ok(p) ==> {
            &&& p.wf()
            &&& decoded_rgba_of(bytes@, format) matches Some((w, h, px))
            &&& p.width == w && p.height == h && p.data@ == px
        },
        r matches Err(e) ==> is_processing_failure(e),
{
    match decode_rgba(bytes, format) {
        Ok((w, h, data)) => Ok(PixelBuffer { width: w as usize, height: h as usize, data }),
        Err(e) => Err(codec_failure(&e)),
    }
}

/// The size an image is brought to before hashing: unchanged where it fits in
/// 100 by 100 pixels, otherwise scaled so that its longer side is 100 pixels
/// and its shorter side keeps the proportion, rounded down, at least 1.
pub open spec fn fitted(width: nat, height: nat) -> (nat, nat) {
    if width <= 100 && height <= 100 {
        (width, height)
    } else if width >= height {
        (100, if height * 100 / width >= 1 { height * 100 / width } else { 1 })
    } else {
        (if width * 100 / height >= 1 { width * 100 / height } else { 1 }, 100)
    }
}

/// Scaling the shorter side by `100 / long` keeps it at most 100, and below
/// 100 when it is strictly shorter.
proof fn lemma_scaled_side(short: int, long: int)
    requires
        0 <= short <= long,
        long >= 1,
    ensures
        short * 100 / long <= 100,
        short < long ==> short * 100 / long < 100,
        short == long ==> short * 100 / long == 100,
{
    if short == long {
        assert(long * 100 / long == 100) by (nonlinear_arith)
            requires
                long >= 1,
        ;
    }
    assert(short * 100 <= long * 100) by (nonlinear_arith)
        requires
            short <= long,
    ;
    assert(short * 100 / long <= 100) by (nonlinear_arith)
        requires
            short * 100 <= long * 100,
            long >= 1,
    ;
    if short < long {
        assert(short * 100 / long < 100) by (nonlinear_arith)
            requires
                short < long,
                short >= 0,
                long >= 1,
        ;
    }
}

/// The fitted size of an image of `width` by `height` pixels.
pub fn fitted_dims(width: u32, height: u32) -> (r: (u32, u32))
    requires
        width >= 1,
        height >= 1,
    ensures
        (r.0 as nat, r.1 as nat) == fitted(width as nat, height as nat),
        1 <= r.0 <= 100,
        1 <= r.1 <= 100,
        (width > height) == (r.0 > r.1),
{
    if width <= 100 && height <= 100 {
        return (width, height);
    }
    let w = width as u64;
    let h = height as u64;
    if width >= height {
        let s = h * 100 / w;
        proof {
            lemma_scaled_side(h as int, w as int);
        }
        (100, if s >= 1 { s as u32 } else { 1 })
    } else {
        let s = w * 100 / h;
        proof {
            lemma_scaled_side(w as int, h as int);
        }
        (if s >= 1 { s as u32 } else { 1 }, 100)
    }
}

/// Renders a hash into a buffer of the size the hash records.
pub fn render_hash(hash: &[u8]) -> (r: Result<PixelBuffer, Failure>)
    ensures
        r is Ok <==> thumb_render_dims(hash@) is Some,
        r matches Ok(q) ==> q.wf() && thumb_render_dims(hash@) == Some((q.width, q.height)),
        r matches Err(e) ==> is_processing_failure(e),
{
    proof {
        lemma_literal_nonempty();
    }
    match thumb_render(hash) {
        Ok((w, h, px)) => Ok(PixelBuffer { width: w, height: h, data: px }),
        Err(()) => Err(Failure::Processing(String::from_str(RENDER_FAILED))),
    }
}

/// Hashes a buffer, first fitted into 100 by 100 pixels, and renders the hash
/// back into a new, self-consistent buffer of 5 to 32 pixels a side, 32 along
/// the source's longer side.
pub fn round_trip(p: &PixelBuffer) -> (r: Result<PixelBuffer, Failure>)
    requires
        p.wf(),
        p.width <= u32::MAX,
        p.height <= u32::MAX,
    ensures
        r is Ok <==> (p.width >= 1 && p.height >= 1),
        r matches Ok(q) ==> {
            &&& q.wf()
            &&& 5 <= q.width <= 32
            &&& 5 <= q.height <= 32
            &&& p.width > p.height ==> q.width == 32
            &&& p.width <= p.height ==> q.height == 32
        },
        r matches Err(e) ==> is_processing_failure(e),
{
    proof {
        lemma_literal_nonempty();
    }
    if p.width == 0 || p.height == 0 {
        return Err(Failure::Processing(String::from_str(EMPTY_IMAGE)));
    }
    let hash = if p.width <= 100 && p.height <= 100 {
        thumb_hash(p.width, p.height, p.data.as_slice())
    } else {
        let (nw, nh) = fitted_dims(p.width as u32, p.height as u32);
        let small = shrink_rgba(p.width as u32, p.height as u32, p.data.as_slice(), nw, nh);
        thumb_hash(nw as usize, nh as usize, small.as_slice())
    };
    render_hash(hash.as_slice())
}

/// The bytes the selected encoder writes for an RGBA image.
pub open spec fn encoding_of(f: OutputFormat, data: Seq<u8>, width: usize, height: usize) -> Seq<u8> {
    match f {
        OutputFormat::Png => png_of(data, width as nat, height as nat),
        OutputFormat::WebP => webp_of(data, width as nat, height as nat),
        OutputFormat::Jpeg => jpeg_of(rgb_of(data), width as nat, height as nat),
    }
}

/// The sizes each encoder takes.
pub open spec fn encoder_accepts(f: OutputFormat, width: nat, height: nat) -> bool {
    match f {
        OutputFormat::Png => width >= 1 && height >= 1,
        OutputFormat::WebP => 1 <= width <= 16384 && 1 <= height <= 16384,
        OutputFormat::Jpeg => 1 <= width <= 65535 && 1 <= height <= 65535,
    }
}

/// Encodes a buffer with the selected encoder at the buffer's own dimensions;
/// JPEG takes the colour samples without alpha. An encoding error is described
/// by the codec's own text.
pub fn encode_as(f: OutputFormat, q: &PixelBuffer) -> (r: Result<Vec<u8>, Failure>)
    requires
        q.wf(),
        q.width <= u32::MAX,
        q.height <= u32::MAX,
    ensures
        r is Ok <==> encoder_accepts(f, q.width as nat, q.height as nat),
        r matches Ok(b) ==> b@ == encoding_of(f, q.data@, q.width, q.height) && b@.len() > 0,
        r matches Err(e) ==> is_processing_failure(e),
{
    let w = q.width as u32;
    let h = q.height as u32;
    let encoded = match f {
        OutputFormat::Png => encode_png(w, h, q.data.as_slice()),
        OutputFormat::WebP => encode_webp(w, h, q.data.as_slice()),
        OutputFormat::Jpeg => {
            assert(q.data@.len() % 4 == 0);
            let rgb = strip_alpha(&q.data);
            assert(rgb@.len() == w * h * 3);
            encode_jpeg(w, h, rgb.as_slice())
        },
    };
    match encoded {
        Ok(b) => Ok(b),
        Err(e) => Err(codec_failure(&e)),
    }
}

/// `b` is the encoding in `f` of a rendered placeholder of 5 to 32 pixels a
/// side, 32 along the longer side of a `width` by `height` source.
pub open spec fn is_placeholder_encoding(f: OutputFormat, b: Seq<u8>, width: nat, height: nat) -> bool {
    exists|px: Seq<u8>, w: usize, h: usize|
        {
            &&& 5 <= w <= 32
            &&& 5 <= h <= 32
            &&& width > height ==> w == 32
            &&& width <= height ==> h == 32
            &&& px.len() == w * h * 4
            &&& #[trigger] encoding_of(f, px, w, h) == b
        }
}

/// Renders the placeholder of a decoded buffer and encodes it in the format
/// that the `Accept` preference selects.
pub fn placeholder(p: &PixelBuffer, accept: &str) -> (r: Result<(OutputFormat, Vec<u8>), Failure>)
    requires
        p.wf(),
        p.width <= u32::MAX,
        p.height <= u32::MAX,
    ensures
        r is Ok <==> (p.width >= 1 && p.height >= 1),
        r matches Ok((f, b)) ==> {
            &&& f == negotiated(accept@)
            &&& b@.len() > 0
            &&& is_placeholder_encoding(f, b@, p.width as nat, p.height as nat)
        },
        r matches Err(e) ==> is_processing_failure(e),
{
    let q = match round_trip(p) {
        Ok(q) => q,
        Err(e) => return Err(e),
    };
    let f = negotiate(accept);
    match encode_as(f, &q) {
        Ok(b) => {
            assert(encoding_of(f, q.data@, q.width, q.height) == b@);
            Ok((f, b))
        },
        Err(e) => Err(e),
    }
}

/// Fetched bytes that decode in `format` to an image of at least one pixel.
pub open spec fn renders(bytes: Seq<u8>, format: ImageFormat) -> bool {
    decoded_rgba_of(bytes, format) matches Some((w, h, _)) && w >= 1 && h >= 1
}

/// `b` is the encoding in `f` of the placeholder of the image that `bytes`
/// decode to in `format`.
pub open spec fn is_placeholder_of(f: OutputFormat, b: Seq<u8>, bytes: Seq<u8>, format: ImageFormat) -> bool {
    decoded_rgba_of(bytes, format) matches Some((w, h, _)) && is_placeholder_encoding(f, b, w as nat, h as nat)
}

/// Decodes fetched bytes, renders their placeholder and encodes it in the
/// format that the `Accept` preference selects. It succeeds exactly when the
/// bytes decode in `format` to an image of at least one pixel.
pub fn thumbnail(bytes: &[u8], format: ImageFormat, accept: &str) -> (r: Result<(OutputFormat, Vec<u8>), Failure>)
    ensures
        r is Ok <==> renders(bytes@, format),
        r matches Ok((f, b)) ==> {
            &&& f == negotiated(accept@)
            &&& b@.len() > 0
            &&& is_placeholder_of(f, b@, bytes@, format)
        },
        r matches Err(e) ==> is_processing_failure(e),
{
    let p = match decode_pixels(bytes, format) {
        Ok(p) => p,
        Err(e) => return Err(e),
    };
    placeholder(&p, accept)
}

} // verus!
