//! Typed input/output records, one pair per operation. All are created per
//! request, carry plain values, and are discarded once the response is
//! written; no state crosses requests.

use vstd::prelude::*;

verus! {

/// One named part of a multipart body, already read in full: the field's
/// name and its raw payload bytes. Not retained past the adapter stage.
#[derive(Debug)]
pub struct MultipartField {
    pub name: String,
    pub payload: Vec<u8>,
}

/// Input for a resize: the raw image bytes and the exact target dimensions.
#[derive(Debug)]
pub struct ResizeImageInput {
    pub data: Vec<u8>,
    pub width: u32,
    pub height: u32,
}

impl ResizeImageInput {
    pub fn new(data: Vec<u8>, width: u32, height: u32) -> (r: Self)
        ensures
            r.data == data,
            r.width == width,
            r.height == height,
    {
        Self { data, width, height }
    }
}

/// Output of a resize: the re-encoded bytes and the MIME type of the format
/// that was detected from the input bytes.
#[derive(Debug)]
pub struct ResizeImageOutput {
    pub data: Vec<u8>,
    pub image_mime_type: &'static str,
}

impl ResizeImageOutput {
    pub fn new(data: Vec<u8>, image_mime_type: &'static str) -> (r: Self)
        ensures
            r.data == data,
            r.image_mime_type == image_mime_type,
    {
        Self { data, image_mime_type }
    }
}

/// Input for a crop: the raw image bytes and the rectangle to extract.
#[derive(Debug)]
pub struct CropImageInput {
    pub data: Vec<u8>,
    pub x: u32,
    pub y: u32,
    pub width: u32,
    pub height: u32,
}

impl CropImageInput {
    pub fn new(data: Vec<u8>, x: u32, y: u32, width: u32, height: u32) -> (r: Self)
        ensures
            r.data == data,
            r.x == x,
            r.y == y,
            r.width == width,
            r.height == height,
    {
        Self { data, x, y, width, height }
    }
}

/// Output of a crop: the re-encoded bytes and the detected MIME type.
#[derive(Debug)]
pub struct CropImageOutput {
    pub data: Vec<u8>,
    pub image_mime_type: &'static str,
}

impl CropImageOutput {
    pub fn new(data: Vec<u8>, image_mime_type: &'static str) -> (r: Self)
        ensures
            r.data == data,
            r.image_mime_type == image_mime_type,
    {
        Self { data, image_mime_type }
    }
}

/// Input for a dimension query: only the raw image bytes.
#[derive(Debug)]
pub struct GetImageDimensionsInput {
    pub data: Vec<u8>,
}

impl GetImageDimensionsInput {
    pub fn new(data: Vec<u8>) -> (r: Self)
        ensures
            r.data == data,
    {
        Self { data }
    }
}

/// Output of a dimension query: the decoded grid's dimensions and the
/// detected MIME type; no byte buffer.
#[derive(Debug)]
pub struct GetImageDimensionsOutput {
    pub height: u32,
    pub width: u32,
    pub image_mime_type: &'static str,
}

impl GetImageDimensionsOutput {
    pub fn new(height: u32, width: u32, image_mime_type: &'static str) -> (r: Self)
        ensures
            r.height == height,
            r.width == width,
            r.image_mime_type == image_mime_type,
    {
        Self { height, width, image_mime_type }
    }
}

/// Dimensions of an image as a response body record.
#[derive(Debug)]
pub struct ImageDimensionsResponse {
    pub width: u32,
    pub height: u32,
}

} // verus!
