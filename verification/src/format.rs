//! Container-format detection from an image buffer's leading bytes, and the
//! canonical MIME type of each supported container. The set of containers
//! is closed by choice — JPEG, PNG, GIF, WebP, TIFF and BMP; any other
//! container is rejected as unsupported — and the signature of each is the
//! file-level magic its encoder writes.

use vstd::prelude::*;

verus! {

/// A supported image container format, as detected from magic bytes. The
/// tag chosen at detection selects both the encoder and the response
/// content type, so a round trip never silently changes container.
#[derive(Clone, Copy, Debug, PartialEq, Eq)]
pub enum ImageKind {
    Jpeg,
    Png,
    Gif,
    WebP,
    Tiff,
    Bmp,
}

/// PNG signature: the fixed eight-byte file header.
pub open spec fn is_png(s: Seq<u8>) -> bool {
    s.len() >= 8 && s[0] == 0x89 && s[1] == 0x50 && s[2] == 0x4e && s[3] == 0x47
        && s[4] == 0x0d && s[5] == 0x0a && s[6] == 0x1a && s[7] == 0x0a
}

/// JPEG signature: start-of-image marker followed by a marker prefix.
pub open spec fn is_jpeg(s: Seq<u8>) -> bool {
    s.len() >= 3 && s[0] == 0xff && s[1] == 0xd8 && s[2] == 0xff
}

/// GIF signature: `GIF87a` or `GIF89a`.
pub open spec fn is_gif(s: Seq<u8>) -> bool {
    s.len() >= 6 && s[0] == 0x47 && s[1] == 0x49 && s[2] == 0x46 && s[3] == 0x38
        && (s[4] == 0x37 || s[4] == 0x39) && s[5] == 0x61
}

/// WebP signature: a RIFF container whose form type is `WEBP`; the four
/// bytes between them are the chunk size and carry no format information.
pub open spec fn is_webp(s: Seq<u8>) -> bool {
    s.len() >= 12 && s[0] == 0x52 && s[1] == 0x49 && s[2] == 0x46 && s[3] == 0x46
        && s[8] == 0x57 && s[9] == 0x45 && s[10] == 0x42 && s[11] == 0x50
}

/// TIFF signature: big-endian `MM\0*` or little-endian `II*\0`.
pub open spec fn is_tiff(s: Seq<u8>) -> bool {
    s.len() >= 4 && ((s[0] == 0x4d && s[1] == 0x4d && s[2] == 0x00 && s[3] == 0x2a)
        || (s[0] == 0x49 && s[1] == 0x49 && s[2] == 0x2a && s[3] == 0x00))
}

/// BMP signature: `BM`.
pub open spec fn is_bmp(s: Seq<u8>) -> bool {
    s.len() >= 2 && s[0] == 0x42 && s[1] == 0x4d
}

/// The container detected from a buffer's leading bytes, or `None` when no
/// supported signature matches. The signatures are mutually exclusive, so
/// the order of the tests does not matter.
pub open spec fn spec_detect(s: Seq<u8>) -> Option<ImageKind> {
    if is_png(s) {
        Some(ImageKind::Png)
    } else if is_jpeg(s) {
        Some(ImageKind::Jpeg)
    } else if is_gif(s) {
        Some(ImageKind::Gif)
    } else if is_webp(s) {
        Some(ImageKind::WebP)
    } else if is_tiff(s) {
        Some(ImageKind::Tiff)
    } else if is_bmp(s) {
        Some(ImageKind::Bmp)
    } else {
        None
    }
}

/// The canonical MIME type of a container, as a character sequence.
pub open spec fn spec_mime(k: ImageKind) -> Seq<char> {
    match k {
        ImageKind::Jpeg => "image/jpeg"@,
        ImageKind::Png => "image/png"@,
        ImageKind::Gif => "image/gif"@,
        ImageKind::WebP => "image/webp"@,
        ImageKind::Tiff => "image/tiff"@,
        ImageKind::Bmp => "image/bmp"@,
    }
}

impl ImageKind {
    /// The canonical MIME type string for this container.
    pub fn mime_type(&self) -> (r: &'static str)
        ensures
            r@ == spec_mime(*self),
    {
        match self {
            ImageKind::Jpeg => "image/jpeg",
            ImageKind::Png => "image/png",
            ImageKind::Gif => "image/gif",
            ImageKind::WebP => "image/webp",
            ImageKind::Tiff => "image/tiff",
            ImageKind::Bmp => "image/bmp",
        }
    }
}

/// Classify a buffer by its leading bytes, exactly as `spec_detect`
/// describes.
pub fn detect_format(data: &Vec<u8>) -> (r: Option<ImageKind>)
    ensures
        r == spec_detect(data@),
{
    let n = data.len();
    if n >= 8 && data[0] == 0x89 && data[1] == 0x50 && data[2] == 0x4e && data[3] == 0x47
        && data[4] == 0x0d && data[5] == 0x0a && data[6] == 0x1a && data[7] == 0x0a {
        Some(ImageKind::Png)
    } else if n >= 3 && data[0] == 0xff && data[1] == 0xd8 && data[2] == 0xff {
        Some(ImageKind::Jpeg)
    } else if n >= 6 && data[0] == 0x47 && data[1] == 0x49 && data[2] == 0x46 && data[3] == 0x38
        && (data[4] == 0x37 || data[4] == 0x39) && data[5] == 0x61 {
        Some(ImageKind::Gif)
    } else if n >= 12 && data[0] == 0x52 && data[1] == 0x49 && data[2] == 0x46 && data[3] == 0x46
        && data[8] == 0x57 && data[9] == 0x45 && data[10] == 0x42 && data[11] == 0x50 {
        Some(ImageKind::WebP)
    } else if n >= 4 && ((data[0] == 0x4d && data[1] == 0x4d && data[2] == 0x00 && data[3] == 0x2a)
        || (data[0] == 0x49 && data[1] == 0x49 && data[2] == 0x2a && data[3] == 0x00)) {
        Some(ImageKind::Tiff)
    } else if n >= 2 && data[0] == 0x42 && data[1] == 0x4d {
        Some(ImageKind::Bmp)
    } else {
        None
    }
}

} // verus!
