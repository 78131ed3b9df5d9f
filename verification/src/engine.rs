//! The transform engine: pure blocking computation from a typed input to a
//! typed output. Each operation detects the container format, decodes,
//! transforms, and re-encodes in the detected format, and classifies every
//! failure precisely; it is stateless and never retries.

use vstd::prelude::*;

use crate::codec::DECODE_SAFE_PIXELS;
use crate::codec::decodable;
use crate::codec::decode_bytes;
use crate::codec::decoded_color;
use crate::codec::decoded_height;
use crate::codec::decoded_width;
use crate::codec::encode_grid;
use crate::codec::encode_ok;
use crate::codec::resize_exact;
use crate::codec::crop_rect;
use crate::errors::TransformError;
use crate::format::detect_format;
use crate::format::spec_detect;
use crate::format::spec_mime;
use crate::types::CropImageInput;
use crate::types::CropImageOutput;
use crate::types::GetImageDimensionsInput;
use crate::types::GetImageDimensionsOutput;
use crate::types::ResizeImageInput;
use crate::types::ResizeImageOutput;

verus! {

/// Geometry a resize must reject: a zero target dimension, a degenerate
/// source grid, or dimensions whose pixel buffers — the target grid, or
/// the resampler's intermediate buffer of source width by target height,
/// each at up to sixteen bytes per pixel — could not fit in this machine's
/// address space.
pub open spec fn resize_bad_geometry(w: u32, h: u32, d: Seq<u8>) -> bool {
    w == 0 || h == 0 || decoded_width(d) == 0 || decoded_height(d) == 0
        || w as nat * h as nat > usize::MAX as nat / 16
        || decoded_width(d) * (h as nat) > usize::MAX as nat / 16
}

/// Geometry a crop must reject: a zero rectangle dimension, or a rectangle
/// that exceeds the source bounds in either direction. Out-of-bounds
/// rectangles fail fast; nothing is clamped.
pub open spec fn crop_bad_geometry(x: u32, y: u32, w: u32, h: u32, d: Seq<u8>) -> bool {
    w == 0 || h == 0 || x as nat + w as nat > decoded_width(d)
        || y as nat + h as nat > decoded_height(d)
}

/// Resize the image to exactly the requested dimensions, preserving no
/// aspect ratio, and re-encode it in the container detected from the input
/// bytes. Success is owed whenever the signature is recognized, the bytes
/// decode, the geometry is valid, and the encoder accepts a grid of the
/// requested dimensions in the decoded pixel layout; every failure is
/// classified. A successful output always carries the detected container;
/// that it decodes back at exactly the requested dimensions is promised
/// for targets within the decoder's default allocation budget.
pub fn resize_image(input: ResizeImageInput) -> (r: Result<ResizeImageOutput, TransformError>)
    ensures
        (r matches Err(TransformError::UnsupportedFormat)) <==> spec_detect(input.data@) is None,
        (r matches Err(TransformError::DecodeError)) <==> (spec_detect(input.data@) is Some
            && !decodable(input.data@)),
        (r matches Err(TransformError::InvalidGeometry)) <==> (spec_detect(input.data@) is Some
            && decodable(input.data@)
            && resize_bad_geometry(input.width, input.height, input.data@)),
        spec_detect(input.data@) is Some && decodable(input.data@)
            && !resize_bad_geometry(input.width, input.height, input.data@)
            ==> (r is Ok || r matches Err(TransformError::EncodeError)),
        r is Ok <==> (spec_detect(input.data@) matches Some(k)
            && decodable(input.data@)
            && !resize_bad_geometry(input.width, input.height, input.data@)
            && encode_ok(input.width as nat, input.height as nat, decoded_color(input.data@), k)),
        r matches Ok(out) ==> (spec_detect(input.data@) matches Some(k)
            && out.image_mime_type@ == spec_mime(k)
            && spec_detect(out.data@) == Some(k)
            && (input.width as nat * input.height as nat <= DECODE_SAFE_PIXELS as nat
                ==> decodable(out.data@)
                && decoded_width(out.data@) == input.width as nat
                && decoded_height(out.data@) == input.height as nat)),
{
    let kind = match detect_format(&input.data) {
        Some(k) => k,
        None => {
            return Err(TransformError::UnsupportedFormat);
        }
    };
    let grid = match decode_bytes(&input.data) {
        Ok(g) => g,
        Err(_) => {
            return Err(TransformError::DecodeError);
        }
    };
    if input.width == 0 || input.height == 0 || grid.width == 0 || grid.height == 0 {
        return Err(TransformError::InvalidGeometry);
    }
    proof {
        assert((input.width as nat) * (input.height as nat) <= 0xFFFF_FFFF * 0xFFFF_FFFF)
            by (nonlinear_arith)
            requires input.width <= 0xFFFF_FFFF && input.height <= 0xFFFF_FFFF;
        assert((grid.width as nat) * (input.height as nat) <= 0xFFFF_FFFF * 0xFFFF_FFFF)
            by (nonlinear_arith)
            requires grid.width <= 0xFFFF_FFFF && input.height <= 0xFFFF_FFFF;
    }
    let pixels: u64 = (input.width as u64) * (input.height as u64);
    if pixels > (usize::MAX / 16) as u64 {
        return Err(TransformError::InvalidGeometry);
    }
    let intermediate: u64 = (grid.width as u64) * (input.height as u64);
    if intermediate > (usize::MAX / 16) as u64 {
        return Err(TransformError::InvalidGeometry);
    }
    let resized = resize_exact(&grid, input.width, input.height);
    let encoded = match encode_grid(&resized, kind) {
        Ok(b) => b,
        Err(_) => {
            return Err(TransformError::EncodeError);
        }
    };
    Ok(ResizeImageOutput::new(encoded, kind.mime_type()))
}

/// Extract the requested rectangle from the image and re-encode it in the
/// container detected from the input bytes. A rectangle that exceeds the
/// source bounds is rejected as invalid geometry, never clamped; success
/// is owed whenever the input decodes, the rectangle is valid, and the
/// encoder accepts it in the decoded pixel layout. A successful output
/// always carries the detected container; that it decodes back at exactly
/// the rectangle's dimensions is promised for rectangles within the
/// decoder's default allocation budget.
pub fn crop_image(input: CropImageInput) -> (r: Result<CropImageOutput, TransformError>)
    ensures
        (r matches Err(TransformError::UnsupportedFormat)) <==> spec_detect(input.data@) is None,
        (r matches Err(TransformError::DecodeError)) <==> (spec_detect(input.data@) is Some
            && !decodable(input.data@)),
        (r matches Err(TransformError::InvalidGeometry)) <==> (spec_detect(input.data@) is Some
            && decodable(input.data@)
            && crop_bad_geometry(input.x, input.y, input.width, input.height, input.data@)),
        spec_detect(input.data@) is Some && decodable(input.data@)
            && !crop_bad_geometry(input.x, input.y, input.width, input.height, input.data@)
            ==> (r is Ok || r matches Err(TransformError::EncodeError)),
        r is Ok <==> (spec_detect(input.data@) matches Some(k)
            && decodable(input.data@)
            && !crop_bad_geometry(input.x, input.y, input.width, input.height, input.data@)
            && encode_ok(input.width as nat, input.height as nat, decoded_color(input.data@), k)),
        r matches Ok(out) ==> (spec_detect(input.data@) matches Some(k)
            && out.image_mime_type@ == spec_mime(k)
            && spec_detect(out.data@) == Some(k)
            && (input.width as nat * input.height as nat <= DECODE_SAFE_PIXELS as nat
                ==> decodable(out.data@)
                && decoded_width(out.data@) == input.width as nat
                && decoded_height(out.data@) == input.height as nat)),
{
    let kind = match detect_format(&input.data) {
        Some(k) => k,
        None => {
            return Err(TransformError::UnsupportedFormat);
        }
    };
    let grid = match decode_bytes(&input.data) {
        Ok(g) => g,
        Err(_) => {
            return Err(TransformError::DecodeError);
        }
    };
    if input.width == 0 || input.height == 0 {
        return Err(TransformError::InvalidGeometry);
    }
    if (input.x as u64) + (input.width as u64) > (grid.width as u64)
        || (input.y as u64) + (input.height as u64) > (grid.height as u64) {
        return Err(TransformError::InvalidGeometry);
    }
    let cropped = crop_rect(&grid, input.x, input.y, input.width, input.height);
    let encoded = match encode_grid(&cropped, kind) {
        Ok(b) => b,
        Err(_) => {
            return Err(TransformError::EncodeError);
        }
    };
    Ok(CropImageOutput::new(encoded, kind.mime_type()))
}

/// Read the decoded grid's dimensions without transforming any pixels. On
/// any recognized, decodable input this succeeds and reports exactly the
/// decoded dimensions and the detected MIME type.
pub fn get_image_dimensions(input: GetImageDimensionsInput) -> (r: Result<
    GetImageDimensionsOutput,
    TransformError,
>)
    ensures
        (r matches Err(TransformError::UnsupportedFormat)) <==> spec_detect(input.data@) is None,
        (r matches Err(TransformError::DecodeError)) <==> (spec_detect(input.data@) is Some
            && !decodable(input.data@)),
        r is Ok <==> (spec_detect(input.data@) is Some && decodable(input.data@)),
        r matches Ok(out) ==> (spec_detect(input.data@) matches Some(k)
            && out.image_mime_type@ == spec_mime(k)
            && out.width as nat == decoded_width(input.data@)
            && out.height as nat == decoded_height(input.data@)),
{
    let kind = match detect_format(&input.data) {
        Some(k) => k,
        None => {
            return Err(TransformError::UnsupportedFormat);
        }
    };
    let grid = match decode_bytes(&input.data) {
        Ok(g) => g,
        Err(_) => {
            return Err(TransformError::DecodeError);
        }
    };
    Ok(GetImageDimensionsOutput::new(grid.height, grid.width, kind.mime_type()))
}

/// What the offload boundary observed of one worker run: either the
/// engine's own result, or a crash before any result was produced.
pub enum WorkerOutcome {
    Completed(Result<ResizeImageOutput, TransformError>),
    Crashed,
}

/// The offload boundary's conversion of a worker's fate into a response:
/// a completed run's result is surfaced exactly once and unchanged, and a
/// crash becomes `WorkerFailure` instead of hanging or killing the caller.
pub fn resolve_worker_outcome(o: WorkerOutcome) -> (r: Result<
    ResizeImageOutput,
    TransformError,
>)
    ensures
        o matches WorkerOutcome::Completed(res) ==> r == res,
        (o is Crashed) ==> (r matches Err(TransformError::WorkerFailure)),
{
    match o {
        WorkerOutcome::Completed(res) => res,
        WorkerOutcome::Crashed => Err(TransformError::WorkerFailure),
    }
}

} // verus!
