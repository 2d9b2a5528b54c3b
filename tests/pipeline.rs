use image::codecs::jpeg::JpegEncoder;
use image::codecs::png::PngEncoder;
use image::{ExtendedColorType, ImageEncoder, ImageFormat};
use thumbs::negotiate::{contains_str, negotiate, OutputFormat, MIME_JPG, MIME_PNG, MIME_WEBP};
use thumbs::origin::origin_url;
use thumbs::pipeline::{
    decode_pixels, encode_as, fitted_dims, placeholder, round_trip, source_format, thumbnail, Failure,
};
use thumbs::pixels::{strip_alpha, PixelBuffer};
use thumbs::reply::{reply_for_failure, respond, Fetched, Reply, ReplyBody};

fn gradient_rgb(w: u32, h: u32) -> Vec<u8> {
    let mut v = Vec::new();
    for y in 0..h {
        for x in 0..w {
            v.push((x * 8) as u8);
            v.push((y * 8) as u8);
            v.push(128);
        }
    }
    v
}

fn sample_jpeg(w: u32, h: u32) -> Vec<u8> {
    let mut buf = Vec::new();
    JpegEncoder::new(&mut buf)
        .write_image(&gradient_rgb(w, h), w, h, ExtendedColorType::Rgb8)
        .unwrap();
    buf
}

fn sample_png(w: u32, h: u32) -> Vec<u8> {
    let mut buf = Vec::new();
    PngEncoder::new(&mut buf)
        .write_image(&gradient_rgb(w, h), w, h, ExtendedColorType::Rgb8)
        .unwrap();
    buf
}

fn answered(status: u16, text: &str, ct: Option<&str>, body: Vec<u8>) -> Fetched {
    Fetched::Answered {
        status,
        status_text: text.to_string(),
        content_type: ct.map(|c| c.to_string()),
        body,
    }
}

fn text_of(r: &Reply) -> String {
    match &r.body {
        ReplyBody::Text(t) => t.clone(),
        ReplyBody::Image(_) => panic!("expected a text body"),
    }
}

fn image_of(r: &Reply) -> Vec<u8> {
    match &r.body {
        ReplyBody::Image(b) => b.clone(),
        ReplyBody::Text(t) => panic!("expected an image body, got {}", t),
    }
}

#[test]
fn png_named_anywhere_wins() {
    assert_eq!(negotiate("image/png"), OutputFormat::Png);
    assert_eq!(negotiate("image/webp,image/png;q=0.9,*/*"), OutputFormat::Png);
    assert_eq!(negotiate("text/html,image/webp,image/png"), OutputFormat::Png);
    assert_eq!(negotiate("image/png").mime_type(), "image/png");
}

#[test]
fn webp_without_png_is_webp() {
    assert_eq!(negotiate("image/webp"), OutputFormat::WebP);
    assert_eq!(negotiate("image/avif,image/webp,*/*"), OutputFormat::WebP);
    assert_eq!(negotiate("image/webp").mime_type(), "image/webp");
}

#[test]
fn neither_is_jpeg() {
    assert_eq!(negotiate(""), OutputFormat::Jpeg);
    assert_eq!(negotiate("*/*"), OutputFormat::Jpeg);
    assert_eq!(negotiate("image/*"), OutputFormat::Jpeg);
    assert_eq!(negotiate("image/pn"), OutputFormat::Jpeg);
    assert_eq!(negotiate("IMAGE/PNG"), OutputFormat::Jpeg);
    assert_eq!(negotiate("").mime_type(), "image/jpg");
}

#[test]
fn mime_constants() {
    assert_eq!(MIME_PNG, "image/png");
    assert_eq!(MIME_WEBP, "image/webp");
    assert_eq!(MIME_JPG, "image/jpg");
}

#[test]
fn containment_edges() {
    assert!(contains_str("abc", ""));
    assert!(contains_str("", ""));
    assert!(!contains_str("", "a"));
    assert!(contains_str("abc", "abc"));
    assert!(contains_str("xxabc", "abc"));
    assert!(!contains_str("ab", "abc"));
    assert!(contains_str("héllo wörld", "ö"));
    assert!(!contains_str("aab", "abb"));
}

#[test]
fn origin_url_prefixes_base() {
    assert_eq!(origin_url("/img/123.jpg"), "https://images.t-online.de/img/123.jpg");
    assert_eq!(origin_url(""), "https://images.t-online.de");
}

#[test]
fn source_format_from_content_type() {
    assert_eq!(source_format(Some("image/png")), ImageFormat::Png);
    assert_eq!(source_format(Some("image/webp")), ImageFormat::WebP);
    assert_eq!(source_format(Some("image/jpeg")), ImageFormat::Jpeg);
    assert_eq!(source_format(Some("image/gif")), ImageFormat::Gif);
    assert_eq!(source_format(Some("text/html")), ImageFormat::Jpeg);
    assert_eq!(source_format(None), ImageFormat::Jpeg);
}

#[test]
fn strip_alpha_drops_every_fourth_sample() {
    assert_eq!(strip_alpha(&vec![1, 2, 3, 4, 5, 6, 7, 8]), vec![1, 2, 3, 5, 6, 7]);
    assert_eq!(strip_alpha(&vec![]), Vec::<u8>::new());
}

#[test]
fn decode_gives_consistent_buffer() {
    let p = decode_pixels(&sample_jpeg(12, 7), ImageFormat::Jpeg).unwrap();
    assert_eq!((p.width, p.height), (12, 7));
    assert_eq!(p.data.len(), 12 * 7 * 4);
}

#[test]
fn decode_rejects_garbage() {
    match decode_pixels(b"definitely not an image", ImageFormat::Jpeg) {
        Err(Failure::Processing(d)) => assert!(!d.is_empty()),
        _ => panic!("expected a processing failure"),
    }
}

#[test]
fn round_trip_shape_is_consistent() {
    for (w, h) in [(1u32, 1u32), (40, 10), (10, 40), (100, 100), (64, 64)] {
        let p = decode_pixels(&sample_png(w, h), ImageFormat::Png).unwrap();
        let q = round_trip(&p).unwrap();
        assert_eq!(q.data.len(), q.width * q.height * 4);
        assert!(q.width <= 32 && q.height <= 32);
    }
}

#[test]
fn round_trip_of_wide_image_is_landscape() {
    let p = decode_pixels(&sample_png(80, 20), ImageFormat::Png).unwrap();
    let q = round_trip(&p).unwrap();
    assert_eq!(q.width, 32);
    assert!(q.height < 32);
}

#[test]
fn round_trip_fits_large_image() {
    let p = PixelBuffer { width: 101, height: 1, data: vec![90; 101 * 4] };
    let q = round_trip(&p).unwrap();
    assert_eq!(q.width, 32);
    assert_eq!(q.data.len(), q.width * q.height * 4);
    let p = decode_pixels(&sample_png(150, 400), ImageFormat::Png).unwrap();
    let q = round_trip(&p).unwrap();
    assert_eq!(q.height, 32);
    assert!(q.width < 32 && q.width >= 5);
    assert_eq!(q.data.len(), q.width * q.height * 4);
}

#[test]
fn fitted_dims_keep_proportion() {
    assert_eq!(fitted_dims(40, 60), (40, 60));
    assert_eq!(fitted_dims(100, 100), (100, 100));
    assert_eq!(fitted_dims(400, 200), (100, 50));
    assert_eq!(fitted_dims(150, 400), (37, 100));
    assert_eq!(fitted_dims(300, 300), (100, 100));
    assert_eq!(fitted_dims(1000, 1), (100, 1));
    assert_eq!(fitted_dims(1, 101), (1, 100));
}

#[test]
fn encode_as_each_format_decodes_back() {
    let q = PixelBuffer { width: 3, height: 2, data: vec![200; 3 * 2 * 4] };
    let png = encode_as(OutputFormat::Png, &q).unwrap();
    let img = image::load_from_memory_with_format(&png, ImageFormat::Png).unwrap();
    assert_eq!((img.width(), img.height()), (3, 2));
    let webp = encode_as(OutputFormat::WebP, &q).unwrap();
    let img = image::load_from_memory_with_format(&webp, ImageFormat::WebP).unwrap();
    assert_eq!((img.width(), img.height()), (3, 2));
    let jpeg = encode_as(OutputFormat::Jpeg, &q).unwrap();
    let img = image::load_from_memory_with_format(&jpeg, ImageFormat::Jpeg).unwrap();
    assert_eq!((img.width(), img.height()), (3, 2));
}

#[test]
fn placeholder_uses_reconstructed_dimensions() {
    let p = decode_pixels(&sample_png(90, 30), ImageFormat::Png).unwrap();
    let q = round_trip(&p).unwrap();
    let (f, b) = placeholder(&p, "image/png").unwrap();
    assert_eq!(f, OutputFormat::Png);
    let img = image::load_from_memory_with_format(&b, ImageFormat::Png).unwrap();
    assert_eq!((img.width() as usize, img.height() as usize), (q.width, q.height));
    assert_ne!((img.width(), img.height()), (90, 30));
}

#[test]
fn thumbnail_negotiates_format() {
    let jpeg = sample_jpeg(16, 16);
    let (f, b) = thumbnail(&jpeg, ImageFormat::Jpeg, "image/webp").unwrap();
    assert_eq!(f, OutputFormat::WebP);
    assert!(image::load_from_memory_with_format(&b, ImageFormat::WebP).is_ok());
}

#[test]
fn webp_requested_for_jpeg_origin() {
    let r = respond(
        answered(200, "200 OK", Some("image/jpeg"), sample_jpeg(24, 16)),
        Some("image/webp,*/*"),
    );
    assert_eq!(r.status, 200);
    assert_eq!(r.content_type, Some("image/webp"));
    let body = image_of(&r);
    assert!(!body.is_empty());
    assert!(image::load_from_memory_with_format(&body, ImageFormat::WebP).is_ok());
}

#[test]
fn missing_origin_image_is_404() {
    let r = respond(answered(404, "404 Not Found", Some("text/html"), b"<html>nope</html>".to_vec()), None);
    assert_eq!(r.status, 404);
    assert_eq!(r.content_type, None);
    assert_eq!(text_of(&r), "404 Not Found");
}

#[test]
fn unavailable_origin_is_404() {
    let r = respond(Fetched::Unavailable("connection refused".to_string()), Some("image/png"));
    assert_eq!(r.status, 404);
    assert_eq!(text_of(&r), "connection refused");
}

#[test]
fn invalid_image_is_500() {
    for accept in [None, Some(""), Some("image/png"), Some("image/webp")] {
        let r = respond(answered(200, "200 OK", Some("image/jpeg"), b"not an image".to_vec()), accept);
        assert_eq!(r.status, 500);
        assert_eq!(r.content_type, None);
        assert!(!text_of(&r).is_empty());
    }
}

#[test]
fn large_image_gets_placeholder() {
    let r = respond(answered(200, "200 OK", Some("image/png"), sample_png(320, 200)), None);
    assert_eq!(r.status, 200);
    assert_eq!(r.content_type, Some("image/jpg"));
    let body = image_of(&r);
    let img = image::load_from_memory_with_format(&body, ImageFormat::Jpeg).unwrap();
    assert_eq!(img.width(), 32);
    assert!(img.height() < 32);
}

#[test]
fn large_jpeg_with_webp_accept() {
    let r = respond(
        answered(200, "200 OK", Some("image/jpeg"), sample_jpeg(640, 480)),
        Some("image/webp,*/*"),
    );
    assert_eq!(r.status, 200);
    assert_eq!(r.content_type, Some("image/webp"));
    let body = image_of(&r);
    let img = image::load_from_memory_with_format(&body, ImageFormat::WebP).unwrap();
    assert_eq!(img.width(), 32);
}

#[test]
fn absent_accept_gives_jpeg() {
    let r = respond(answered(200, "200 OK", None, sample_jpeg(20, 20)), None);
    assert_eq!(r.status, 200);
    assert_eq!(r.content_type, Some("image/jpg"));
    let body = image_of(&r);
    assert!(image::load_from_memory_with_format(&body, ImageFormat::Jpeg).is_ok());
}

#[test]
fn png_origin_with_png_accept() {
    let r = respond(answered(200, "200 OK", Some("image/png"), sample_png(30, 60)), Some("image/png"));
    assert_eq!(r.status, 200);
    assert_eq!(r.content_type, Some("image/png"));
    let body = image_of(&r);
    let img = image::load_from_memory_with_format(&body, ImageFormat::Png).unwrap();
    assert_eq!(img.height(), 32);
}

#[test]
fn declared_format_mismatch_is_500() {
    let r = respond(answered(200, "200 OK", Some("image/png"), sample_jpeg(8, 8)), None);
    assert_eq!(r.status, 500);
}

#[test]
fn failure_replies() {
    let r = reply_for_failure(Failure::Source("gone".to_string()));
    assert_eq!(r.status, 404);
    assert_eq!(text_of(&r), "gone");
    let r = reply_for_failure(Failure::Processing("broken".to_string()));
    assert_eq!(r.status, 500);
    assert_eq!(text_of(&r), "broken");
    assert_eq!(Failure::Processing("x".to_string()).description(), "x");
}

#[test]
fn round_trip_refuses_empty_buffer() {
    let p = PixelBuffer { width: 0, height: 3, data: vec![] };
    match round_trip(&p) {
        Err(Failure::Processing(d)) => assert!(!d.is_empty()),
        _ => panic!("expected a processing failure"),
    }
}

#[test]
fn invalid_image_body_is_codec_text() {
    let bytes = b"not an image".to_vec();
    let expected = match image::load_from_memory_with_format(&bytes, ImageFormat::Jpeg) {
        Err(e) => e.to_string(),
        Ok(_) => panic!("garbage decoded"),
    };
    let r = respond(answered(200, "200 OK", None, bytes), None);
    assert_eq!(r.status, 500);
    assert_eq!(text_of(&r), expected);
}

#[test]
fn encode_refuses_zero_side() {
    let q = PixelBuffer { width: 0, height: 2, data: vec![] };
    assert!(encode_as(OutputFormat::Png, &q).is_err());
    assert!(encode_as(OutputFormat::WebP, &q).is_err());
    assert!(encode_as(OutputFormat::Jpeg, &q).is_err());
}
