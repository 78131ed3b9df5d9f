//! A resize entry point that takes only the image bytes: it applies the
//! documented default dimensions, 800 by 600, exactly, and re-encodes in
//! the container detected from the input, like every other transform.

use vstd::prelude::*;

use crate::codec::decodable;
use crate::codec::decoded_color;
use crate::codec::decoded_height;
use crate::codec::decoded_width;
use crate::codec::encode_ok;
use crate::engine::resize_bad_geometry;
use crate::errors::TransformError;
use crate::format::spec_detect;
use crate::types::ResizeImageInput;

verus! {

/// Resize the image to exactly the default 800 by 600 and re-encode it in
/// its own detected container. The contract is that of the general resize
/// with the default dimensions fixed: each failure kind comes exactly from
/// its cause, and success is owed whenever the encoder accepts an 800 by
/// 600 grid of the decoded pixel layout in the detected container.
pub fn resize_image(data: Vec<u8>) -> (r: Result<Vec<u8>, TransformError>)
    ensures
        (r matches Err(TransformError::UnsupportedFormat)) <==> spec_detect(data@) is None,
        (r matches Err(TransformError::DecodeError)) <==> (spec_detect(data@) is Some
            && !decodable(data@)),
        (r matches Err(TransformError::InvalidGeometry)) <==> (spec_detect(data@) is Some
            && decodable(data@) && resize_bad_geometry(800, 600, data@)),
        spec_detect(data@) is Some && decodable(data@) && !resize_bad_geometry(800, 600, data@)
            ==> (r is Ok || r matches Err(TransformError::EncodeError)),
        r is Ok <==> (spec_detect(data@) matches Some(k)
            && decodable(data@)
            && !resize_bad_geometry(800, 600, data@)
            && encode_ok(800, 600, decoded_color(data@), k)),
        r matches Ok(out) ==> (spec_detect(out@) == spec_detect(data@)
            && decodable(out@)
            && decoded_width(out@) == 800
            && decoded_height(out@) == 600),
{
    match crate::engine::resize_image(ResizeImageInput::new(data, 800, 600)) {
        Ok(out) => Ok(out.data),
        Err(e) => Err(e),
    }
}

} // verus!
