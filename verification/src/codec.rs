//! The codec capability: decode, resize, crop and encode, provided by the
//! `image` crate behind trusted wrappers. A decoded image is carried in a
//! `PixelGrid` together with its dimensions and pixel layout as plain
//! values; what only the codec can compute is named, never restated.

use vstd::prelude::*;

use crate::format::ImageKind;
use crate::format::spec_detect;

verus! {

#[verifier::external_type_specification]
#[verifier::external_body]
pub struct ExDynamicImage(image::DynamicImage);

/// The pixel count up to which a re-encoded grid is promised to decode
/// back under the codec's default 512 MiB allocation budget. The decoder
/// first reserves the full output buffer — at most sixteen bytes per
/// pixel, so at most 128 MiB here — against that budget, and its working
/// buffers must fit what remains; this bound leaves them three times the
/// output size, where a bound that let the reservation reach the whole
/// budget would starve them.
pub const DECODE_SAFE_PIXELS: u64 = 8388608;

/// The pixel layout of a decoded grid, one tag per layout the codec
/// reports. Together with the dimensions and the container it determines
/// whether an encoder accepts a grid.
#[derive(Clone, Copy, Debug, PartialEq, Eq)]
pub enum ColorKind {
    L8,
    La8,
    Rgb8,
    Rgba8,
    L16,
    La16,
    Rgb16,
    Rgba16,
    Rgb32F,
    Rgba32F,
}

/// Whether `image::load_from_memory` decodes these bytes; a function of the
/// bytes alone.
pub uninterp spec fn decodable(bytes: Seq<u8>) -> bool;

/// The width of the grid `image::load_from_memory` decodes these bytes to.
pub uninterp spec fn decoded_width(bytes: Seq<u8>) -> nat;

/// The height of the grid `image::load_from_memory` decodes these bytes to.
pub uninterp spec fn decoded_height(bytes: Seq<u8>) -> nat;

/// The pixel layout of the grid `image::load_from_memory` decodes these
/// bytes to.
pub uninterp spec fn decoded_color(bytes: Seq<u8>) -> ColorKind;

/// Whether `image::DynamicImage::write_to` succeeds for a grid of the
/// given dimensions and pixel layout in the given container. The encoders
/// accept or refuse a grid by exactly these — dimension caps and supported
/// layouts per container — never by pixel contents.
pub uninterp spec fn encode_ok(w: nat, h: nat, color: ColorKind, kind: ImageKind) -> bool;

/// An in-memory decoded image: the codec's pixel data together with its
/// dimensions and pixel layout as plain values the verified logic can read.
pub(crate) struct PixelGrid {
    pub handle: image::DynamicImage,
    pub width: u32,
    pub height: u32,
    pub color: ColorKind,
}

/// Relies on `image::load_from_memory` and `image::DynamicImage::color`:
/// decoding succeeds or fails, and the grid's dimensions and pixel layout
/// are, as a function of the bytes alone. This assumes no process-global
/// decoding hooks are registered with the codec; neither this library nor
/// its service registers any.
#[verifier::external_body]
pub(crate) fn decode_bytes(data: &Vec<u8>) -> (r: Result<PixelGrid, ()>)
    ensures
        r is Ok <==> decodable(data@),
        r is Ok ==> r->Ok_0.width as nat == decoded_width(data@)
            && r->Ok_0.height as nat == decoded_height(data@)
            && r->Ok_0.color == decoded_color(data@),
{
    let img = match image::load_from_memory(data.as_slice()) { Ok(i) => i, Err(_) => return Err(()) };
    let (w, h) = image::GenericImageView::dimensions(&img);
    let c = match img.color() {
        image::ColorType::L8 => ColorKind::L8, image::ColorType::La8 => ColorKind::La8,
        image::ColorType::Rgb8 => ColorKind::Rgb8, image::ColorType::Rgba8 => ColorKind::Rgba8,
        image::ColorType::L16 => ColorKind::L16, image::ColorType::La16 => ColorKind::La16,
        image::ColorType::Rgb16 => ColorKind::Rgb16, image::ColorType::Rgba16 => ColorKind::Rgba16,
        image::ColorType::Rgb32F => ColorKind::Rgb32F, _ => ColorKind::Rgba32F,
    };
    Ok(PixelGrid { handle: img, width: w, height: h, color: c })
}

/// Relies on `image::DynamicImage::resize_exact`: the result is a grid of
/// exactly the requested dimensions in the source's pixel layout. The two
/// size bounds keep both the result buffer and the resampler's
/// intermediate buffer (source width by target height, at up to sixteen
/// bytes per pixel) within the address space, where the allocation would
/// otherwise abort.
#[verifier::external_body]
pub(crate) fn resize_exact(g: &PixelGrid, w: u32, h: u32) -> (r: PixelGrid)
    requires
        g.width > 0,
        g.height > 0,
        w > 0,
        h > 0,
        w as nat * h as nat <= usize::MAX as nat / 16,
        g.width as nat * h as nat <= usize::MAX as nat / 16,
    ensures
        r.width == w,
        r.height == h,
        r.color == g.color,
{
    let img = g.handle.resize_exact(w, h, image::imageops::FilterType::Lanczos3);
    PixelGrid { handle: img, width: w, height: h, color: g.color }
}

/// Relies on `image::DynamicImage::crop_imm`: within the source bounds, the
/// result is the requested rectangle, so it has exactly the requested
/// dimensions, in the source's pixel layout.
#[verifier::external_body]
pub(crate) fn crop_rect(g: &PixelGrid, x: u32, y: u32, w: u32, h: u32) -> (r: PixelGrid)
    requires
        w > 0,
        h > 0,
        x as nat + w as nat <= g.width as nat,
        y as nat + h as nat <= g.height as nat,
    ensures
        r.width == w,
        r.height == h,
        r.color == g.color,
{
    let img = g.handle.crop_imm(x, y, w, h);
    PixelGrid { handle: img, width: w, height: h, color: g.color }
}

/// Relies on `image::DynamicImage::write_to`: it succeeds exactly when the
/// chosen encoder accepts the grid's dimensions and pixel layout; on
/// success the output stream begins with the magic bytes of the requested
/// container, and — for a grid small enough that the decoder's output
/// reservation leaves its working buffers ample headroom within the
/// default allocation budget — decoding it back succeeds and recovers the
/// grid's dimensions.
#[verifier::external_body]
pub(crate) fn encode_grid(g: &PixelGrid, kind: ImageKind) -> (r: Result<Vec<u8>, ()>)
    ensures
        r is Ok <==> encode_ok(g.width as nat, g.height as nat, g.color, kind),
        r is Ok ==> spec_detect(r->Ok_0@) == Some(kind),
        r is Ok && g.width as nat * g.height as nat <= DECODE_SAFE_PIXELS as nat
            ==> decodable(r->Ok_0@)
            && decoded_width(r->Ok_0@) == g.width as nat
            && decoded_height(r->Ok_0@) == g.height as nat,
{
    let fmt = match kind {
        ImageKind::Jpeg => image::ImageFormat::Jpeg,
        ImageKind::Png => image::ImageFormat::Png,
        ImageKind::Gif => image::ImageFormat::Gif,
        ImageKind::WebP => image::ImageFormat::WebP,
        ImageKind::Tiff => image::ImageFormat::Tiff,
        ImageKind::Bmp => image::ImageFormat::Bmp,
    };
    let mut buf = std::io::Cursor::new(Vec::new());
    match g.handle.write_to(&mut buf, fmt) {
        Ok(()) => Ok(buf.into_inner()),
        Err(_) => Err(()),
    }
}

} // verus!
