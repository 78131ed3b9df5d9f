use pompom::adapter::build_crop_input;
use pompom::adapter::build_dimensions_input;
use pompom::adapter::build_resize_input;
use pompom::engine::crop_image;
use pompom::engine::get_image_dimensions;
use pompom::engine::resize_image;
use pompom::engine::resolve_worker_outcome;
use pompom::engine::WorkerOutcome;
use pompom::errors::status_code;
use pompom::errors::TransformError;
use pompom::format::detect_format;
use pompom::format::ImageKind;
use pompom::types::CropImageInput;
use pompom::types::GetImageDimensionsInput;
use pompom::types::MultipartField;
use pompom::types::ResizeImageInput;

fn solid_rgb(w: u32, h: u32, rgb: [u8; 3]) -> image::DynamicImage {
    let mut img = image::RgbImage::new(w, h);
    for p in img.pixels_mut() {
        *p = image::Rgb(rgb);
    }
    image::DynamicImage::ImageRgb8(img)
}

fn png_bytes(w: u32, h: u32, rgb: [u8; 3]) -> Vec<u8> {
    let mut buf = std::io::Cursor::new(Vec::new());
    solid_rgb(w, h, rgb).write_to(&mut buf, image::ImageFormat::Png).unwrap();
    buf.into_inner()
}

fn jpeg_bytes(w: u32, h: u32, rgb: [u8; 3]) -> Vec<u8> {
    let mut buf = std::io::Cursor::new(Vec::new());
    solid_rgb(w, h, rgb).write_to(&mut buf, image::ImageFormat::Jpeg).unwrap();
    buf.into_inner()
}

fn decoded_dims(data: &[u8]) -> (u32, u32) {
    let img = image::load_from_memory(data).unwrap();
    (image::GenericImageView::dimensions(&img).0, image::GenericImageView::dimensions(&img).1)
}

fn field(name: &str, payload: Vec<u8>) -> MultipartField {
    MultipartField { name: name.to_string(), payload }
}

#[test]
fn resize_png_gives_exact_dimensions() {
    let input = ResizeImageInput::new(png_bytes(100, 80, [10, 200, 30]), 50, 40);
    let out = resize_image(input).unwrap();
    assert_eq!(out.image_mime_type, "image/png");
    assert_eq!(decoded_dims(&out.data), (50, 40));
}

#[test]
fn resize_upscales_too() {
    let input = ResizeImageInput::new(png_bytes(10, 10, [1, 2, 3]), 200, 30);
    let out = resize_image(input).unwrap();
    assert_eq!(decoded_dims(&out.data), (200, 30));
}

#[test]
fn content_type_follows_input_format_jpeg() {
    let input = ResizeImageInput::new(jpeg_bytes(64, 64, [200, 100, 0]), 32, 32);
    let out = resize_image(input).unwrap();
    assert_eq!(out.image_mime_type, "image/jpeg");
    // the output bytes really are a JPEG stream
    assert_eq!(&out.data[0..3], &[0xff, 0xd8, 0xff]);
    assert_eq!(detect_format(&out.data), Some(ImageKind::Jpeg));
}

#[test]
fn content_type_follows_input_format_png() {
    let out = resize_image(ResizeImageInput::new(png_bytes(20, 20, [5, 5, 5]), 10, 10)).unwrap();
    assert_eq!(out.image_mime_type, "image/png");
    assert_eq!(detect_format(&out.data), Some(ImageKind::Png));
}

fn encoded_bytes(w: u32, h: u32, fmt: image::ImageFormat) -> Vec<u8> {
    let mut buf = std::io::Cursor::new(Vec::new());
    solid_rgb(w, h, [120, 80, 40]).write_to(&mut buf, fmt).unwrap();
    buf.into_inner()
}

#[test]
fn content_type_follows_input_format_bmp() {
    let input = ResizeImageInput::new(encoded_bytes(12, 12, image::ImageFormat::Bmp), 6, 6);
    let out = resize_image(input).unwrap();
    assert_eq!(out.image_mime_type, "image/bmp");
    assert_eq!(detect_format(&out.data), Some(ImageKind::Bmp));
    assert_eq!(decoded_dims(&out.data), (6, 6));
}

#[test]
fn content_type_follows_input_format_gif() {
    let input = ResizeImageInput::new(encoded_bytes(12, 12, image::ImageFormat::Gif), 7, 5);
    let out = resize_image(input).unwrap();
    assert_eq!(out.image_mime_type, "image/gif");
    assert_eq!(detect_format(&out.data), Some(ImageKind::Gif));
    assert_eq!(decoded_dims(&out.data), (7, 5));
}

#[test]
fn content_type_follows_input_format_webp() {
    let input = ResizeImageInput::new(encoded_bytes(12, 12, image::ImageFormat::WebP), 8, 4);
    let out = resize_image(input).unwrap();
    assert_eq!(out.image_mime_type, "image/webp");
    assert_eq!(detect_format(&out.data), Some(ImageKind::WebP));
    assert_eq!(decoded_dims(&out.data), (8, 4));
}

#[test]
fn content_type_follows_input_format_tiff() {
    let input = ResizeImageInput::new(encoded_bytes(12, 12, image::ImageFormat::Tiff), 9, 3);
    let out = resize_image(input).unwrap();
    assert_eq!(out.image_mime_type, "image/tiff");
    assert_eq!(detect_format(&out.data), Some(ImageKind::Tiff));
    assert_eq!(decoded_dims(&out.data), (9, 3));
}

#[test]
fn missing_image_field_is_rejected_with_400() {
    let fields = vec![field("width", b"100".to_vec()), field("height", b"50".to_vec())];
    let err = build_resize_input(fields).unwrap_err();
    assert!(matches!(err, TransformError::MissingImageData));
    assert_eq!(status_code(&err), 400);
}

#[test]
fn non_numeric_width_is_rejected_with_400() {
    let fields = vec![field("image", png_bytes(8, 8, [0, 0, 0])), field("width", b"abc".to_vec())];
    let err = build_resize_input(fields).unwrap_err();
    match &err {
        TransformError::InvalidParameter(name) => assert_eq!(name, "width"),
        other => panic!("unexpected error {:?}", other),
    }
    assert_eq!(status_code(&err), 400);
}

#[test]
fn absent_width_uses_default_800() {
    let fields = vec![field("image", png_bytes(16, 16, [9, 9, 9])), field("height", b"50".to_vec())];
    let input = build_resize_input(fields).unwrap();
    assert_eq!(input.width, 800);
    assert_eq!(input.height, 50);
    let out = resize_image(input).unwrap();
    assert_eq!(decoded_dims(&out.data), (800, 50));
}

#[test]
fn absent_height_uses_default_600() {
    let fields = vec![field("image", png_bytes(16, 16, [9, 9, 9])), field("width", b"20".to_vec())];
    let input = build_resize_input(fields).unwrap();
    assert_eq!(input.width, 20);
    assert_eq!(input.height, 600);
}

#[test]
fn later_field_wins_on_repeat() {
    let fields = vec![
        field("image", png_bytes(8, 8, [1, 1, 1])),
        field("width", b"10".to_vec()),
        field("width", b"30".to_vec()),
    ];
    let input = build_resize_input(fields).unwrap();
    assert_eq!(input.width, 30);
}

#[test]
fn unrecognized_fields_are_ignored() {
    let fields = vec![
        field("filename", b"cat.png".to_vec()),
        field("image", png_bytes(8, 8, [1, 1, 1])),
        field("comment", b"hello".to_vec()),
    ];
    let input = build_resize_input(fields).unwrap();
    assert_eq!(input.width, 800);
    assert_eq!(input.height, 600);
}

#[test]
fn crop_out_of_bounds_is_rejected_not_clamped() {
    let input = CropImageInput::new(png_bytes(100, 100, [7, 7, 7]), 50, 50, 100, 100);
    let err = crop_image(input).unwrap_err();
    assert!(matches!(err, TransformError::InvalidGeometry));
    assert_eq!(status_code(&err), 400);
}

#[test]
fn crop_within_bounds_gives_exact_rectangle() {
    let input = CropImageInput::new(png_bytes(100, 100, [7, 7, 7]), 10, 20, 30, 40);
    let out = crop_image(input).unwrap();
    assert_eq!(out.image_mime_type, "image/png");
    assert_eq!(decoded_dims(&out.data), (30, 40));
}

#[test]
fn crop_touching_the_edge_is_allowed() {
    let input = CropImageInput::new(png_bytes(100, 100, [7, 7, 7]), 50, 50, 50, 50);
    let out = crop_image(input).unwrap();
    assert_eq!(decoded_dims(&out.data), (50, 50));
}

#[test]
fn corrupt_bytes_are_415() {
    let junk: Vec<u8> = vec![0x00, 0x01, 0x02, 0x03, 0x10, 0x20, 0x30, 0x40, 0x55, 0x66, 0x77, 0x88];
    let err = resize_image(ResizeImageInput::new(junk, 50, 50)).unwrap_err();
    assert!(matches!(err, TransformError::UnsupportedFormat));
    assert_eq!(status_code(&err), 415);
}

#[test]
fn truncated_png_is_decode_error_415() {
    let mut data = png_bytes(50, 50, [1, 2, 3]);
    data.truncate(20);
    let err = resize_image(ResizeImageInput::new(data, 10, 10)).unwrap_err();
    assert!(matches!(err, TransformError::DecodeError));
    assert_eq!(status_code(&err), 415);
}

#[test]
fn zero_dimension_resize_is_invalid_geometry() {
    let err = resize_image(ResizeImageInput::new(png_bytes(10, 10, [0, 0, 0]), 0, 10)).unwrap_err();
    assert!(matches!(err, TransformError::InvalidGeometry));
    assert_eq!(status_code(&err), 400);
}

#[test]
fn oversized_jpeg_target_is_encode_error_500() {
    // the JPEG encoder cannot write a dimension above 65535
    let input = ResizeImageInput::new(jpeg_bytes(4, 4, [3, 3, 3]), 70000, 1);
    let err = resize_image(input).unwrap_err();
    assert!(matches!(err, TransformError::EncodeError));
    assert_eq!(status_code(&err), 500);
}

#[test]
fn dimensions_query_reports_decoded_size() {
    let input = GetImageDimensionsInput::new(jpeg_bytes(64, 32, [1, 2, 3]));
    let out = get_image_dimensions(input).unwrap();
    assert_eq!(out.width, 64);
    assert_eq!(out.height, 32);
    assert_eq!(out.image_mime_type, "image/jpeg");
}

#[test]
fn dimensions_builder_takes_only_image() {
    let fields = vec![field("width", b"nonsense".to_vec()), field("image", png_bytes(5, 9, [0, 0, 0]))];
    let input = build_dimensions_input(fields).unwrap();
    let out = get_image_dimensions(input).unwrap();
    assert_eq!((out.width, out.height), (5, 9));
}

#[test]
fn crop_builder_requires_all_coordinates() {
    let fields = vec![
        field("image", png_bytes(8, 8, [0, 0, 0])),
        field("x", b"1".to_vec()),
        field("y", b"1".to_vec()),
        field("width", b"2".to_vec()),
    ];
    let err = build_crop_input(fields).unwrap_err();
    match &err {
        TransformError::InvalidParameter(name) => assert_eq!(name, "height"),
        other => panic!("unexpected error {:?}", other),
    }
    assert_eq!(status_code(&err), 400);
}

#[test]
fn crop_builder_accepts_full_rectangle() {
    let fields = vec![
        field("image", png_bytes(8, 8, [0, 0, 0])),
        field("x", b"1".to_vec()),
        field("y", b"2".to_vec()),
        field("width", b"3".to_vec()),
        field("height", b"4".to_vec()),
    ];
    let input = build_crop_input(fields).unwrap();
    assert_eq!((input.x, input.y, input.width, input.height), (1, 2, 3, 4));
}

#[test]
fn worker_crash_becomes_worker_failure_500() {
    let err = resolve_worker_outcome(WorkerOutcome::Crashed).unwrap_err();
    assert!(matches!(err, TransformError::WorkerFailure));
    assert_eq!(status_code(&err), 500);
}

#[test]
fn completed_worker_result_passes_through() {
    let out = pompom::types::ResizeImageOutput::new(vec![1, 2, 3], "image/png");
    let r = resolve_worker_outcome(WorkerOutcome::Completed(Ok(out))).unwrap();
    assert_eq!(r.data, vec![1, 2, 3]);
    assert_eq!(r.image_mime_type, "image/png");
}

#[test]
fn field_read_error_is_400() {
    assert_eq!(status_code(&TransformError::FieldReadError), 400);
}

#[test]
fn independent_requests_stay_independent() {
    let reqs = vec![
        (png_bytes(30, 30, [255, 0, 0]), 12u32, 14u32, "image/png"),
        (jpeg_bytes(40, 20, [0, 255, 0]), 21u32, 9u32, "image/jpeg"),
        (png_bytes(10, 50, [0, 0, 255]), 33u32, 44u32, "image/png"),
    ];
    let mut outputs = Vec::new();
    for (data, w, h, _) in &reqs {
        let out = resize_image(ResizeImageInput::new(data.clone(), *w, *h)).unwrap();
        outputs.push(out);
    }
    for (i, out) in outputs.iter().enumerate() {
        assert_eq!(out.image_mime_type, reqs[i].3);
        assert_eq!(decoded_dims(&out.data), (reqs[i].1, reqs[i].2));
        let img = image::load_from_memory(&out.data).unwrap().to_rgb8();
        let p = img.get_pixel(reqs[i].1 / 2, reqs[i].2 / 2);
        // the dominant channel of each request's color survives in its own output
        let expect_channel = i % 3;
        assert!(p[expect_channel] > 128, "pixel {:?} in output {}", p, i);
    }
}
