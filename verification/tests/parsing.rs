use pompom::format::detect_format;
use pompom::format::ImageKind;
use pompom::parse::parse_u32;

#[test]
fn parse_plain_number() {
    assert_eq!(parse_u32(&b"800".to_vec()), Some(800));
}

#[test]
fn parse_leading_zeros() {
    assert_eq!(parse_u32(&b"0042".to_vec()), Some(42));
}

#[test]
fn parse_leading_plus() {
    assert_eq!(parse_u32(&b"+7".to_vec()), Some(7));
}

#[test]
fn parse_max_value() {
    assert_eq!(parse_u32(&b"4294967295".to_vec()), Some(u32::MAX));
}

#[test]
fn parse_overflow_fails() {
    assert_eq!(parse_u32(&b"4294967296".to_vec()), None);
}

#[test]
fn parse_empty_fails() {
    assert_eq!(parse_u32(&b"".to_vec()), None);
    assert_eq!(parse_u32(&b"+".to_vec()), None);
}

#[test]
fn parse_non_digits_fail() {
    assert_eq!(parse_u32(&b"abc".to_vec()), None);
    assert_eq!(parse_u32(&b"12a".to_vec()), None);
    assert_eq!(parse_u32(&b" 12".to_vec()), None);
    assert_eq!(parse_u32(&b"-5".to_vec()), None);
    assert_eq!(parse_u32(&b"++1".to_vec()), None);
}

#[test]
fn detect_png_signature() {
    let v = vec![0x89, 0x50, 0x4e, 0x47, 0x0d, 0x0a, 0x1a, 0x0a, 0x00];
    assert_eq!(detect_format(&v), Some(ImageKind::Png));
}

#[test]
fn detect_jpeg_signature() {
    assert_eq!(detect_format(&vec![0xff, 0xd8, 0xff, 0xe0]), Some(ImageKind::Jpeg));
}

#[test]
fn detect_gif_signatures() {
    assert_eq!(detect_format(&b"GIF89a....".to_vec()), Some(ImageKind::Gif));
    assert_eq!(detect_format(&b"GIF87a....".to_vec()), Some(ImageKind::Gif));
    assert_eq!(detect_format(&b"GIF88a....".to_vec()), None);
}

#[test]
fn detect_webp_signature() {
    let mut v = b"RIFF".to_vec();
    v.extend_from_slice(&[0x10, 0x00, 0x00, 0x00]);
    v.extend_from_slice(b"WEBP");
    assert_eq!(detect_format(&v), Some(ImageKind::WebP));
}

#[test]
fn detect_tiff_signatures() {
    assert_eq!(detect_format(&vec![0x4d, 0x4d, 0x00, 0x2a]), Some(ImageKind::Tiff));
    assert_eq!(detect_format(&vec![0x49, 0x49, 0x2a, 0x00]), Some(ImageKind::Tiff));
}

#[test]
fn detect_bmp_signature() {
    assert_eq!(detect_format(&b"BMxxxx".to_vec()), Some(ImageKind::Bmp));
}

#[test]
fn detect_unknown_is_none() {
    assert_eq!(detect_format(&vec![0x00, 0x11, 0x22]), None);
    assert_eq!(detect_format(&Vec::new()), None);
}

#[test]
fn mime_types_are_canonical() {
    assert_eq!(ImageKind::Jpeg.mime_type(), "image/jpeg");
    assert_eq!(ImageKind::Png.mime_type(), "image/png");
    assert_eq!(ImageKind::Gif.mime_type(), "image/gif");
    assert_eq!(ImageKind::WebP.mime_type(), "image/webp");
    assert_eq!(ImageKind::Tiff.mime_type(), "image/tiff");
    assert_eq!(ImageKind::Bmp.mime_type(), "image/bmp");
}

#[test]
fn default_resize_gives_800_by_600_in_input_container() {
    let mut img = image::RgbImage::new(100, 100);
    for p in img.pixels_mut() {
        *p = image::Rgb([50, 60, 70]);
    }
    let mut buf = std::io::Cursor::new(Vec::new());
    image::DynamicImage::ImageRgb8(img).write_to(&mut buf, image::ImageFormat::Png).unwrap();
    let out = pompom::resize::resize_image(buf.into_inner()).unwrap();
    // exactly the default dimensions, still in the input's own container
    assert_eq!(detect_format(&out), Some(ImageKind::Png));
    let decoded = image::load_from_memory(&out).unwrap();
    assert_eq!(image::GenericImageView::dimensions(&decoded), (800, 600));
}

#[test]
fn default_resize_rejects_unrecognized_bytes() {
    let err = pompom::resize::resize_image(vec![1, 2, 3, 4]).unwrap_err();
    assert!(matches!(err, pompom::errors::TransformError::UnsupportedFormat));
}

#[test]
fn default_resize_rejects_truncated_image() {
    let mut img = image::RgbImage::new(40, 40);
    for p in img.pixels_mut() {
        *p = image::Rgb([1, 2, 3]);
    }
    let mut buf = std::io::Cursor::new(Vec::new());
    image::DynamicImage::ImageRgb8(img).write_to(&mut buf, image::ImageFormat::Png).unwrap();
    let mut data = buf.into_inner();
    data.truncate(20);
    let err = pompom::resize::resize_image(data).unwrap_err();
    assert!(matches!(err, pompom::errors::TransformError::DecodeError));
}
