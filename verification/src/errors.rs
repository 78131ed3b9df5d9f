//! The layered error taxonomy: every stage of request handling fails with a
//! precise kind, and each kind maps to exactly one HTTP status code.

use vstd::prelude::*;

verus! {

/// A classified, terminal failure of one request. Every stage returns its
/// specific kind upward unwrapped; only the HTTP surface turns it into a
/// status code.
#[derive(Debug, PartialEq, Eq)]
pub enum TransformError {
    /// No `image` field was present in the multipart body.
    MissingImageData,
    /// A transport error occurred while reading a field's payload.
    FieldReadError,
    /// A numeric field, carried here by name, was present but not an
    /// unsigned decimal integer.
    InvalidParameter(String),
    /// The image bytes carry no recognized container signature.
    UnsupportedFormat,
    /// The container signature was recognized but the bytes do not decode.
    DecodeError,
    /// A zero dimension, a crop rectangle out of bounds, or a requested
    /// grid too large for this machine's address space.
    InvalidGeometry,
    /// The encoder failed on a validly decoded and transformed grid.
    EncodeError,
    /// The offloaded transform crashed before producing a result.
    WorkerFailure,
}

/// The HTTP status surfaced for each error kind: client-input faults are 400,
/// unusable image payloads are 415, service-side faults are 500.
pub open spec fn spec_status(e: TransformError) -> u16 {
    match e {
        TransformError::MissingImageData => 400,
        TransformError::FieldReadError => 400,
        TransformError::InvalidParameter(_) => 400,
        TransformError::UnsupportedFormat => 415,
        TransformError::DecodeError => 415,
        TransformError::InvalidGeometry => 400,
        TransformError::EncodeError => 500,
        TransformError::WorkerFailure => 500,
    }
}

/// The status code an error is surfaced as.
pub fn status_code(e: &TransformError) -> (r: u16)
    ensures
        r == spec_status(*e),
{
    match e {
        TransformError::MissingImageData => 400,
        TransformError::FieldReadError => 400,
        TransformError::InvalidParameter(_) => 400,
        TransformError::UnsupportedFormat => 415,
        TransformError::DecodeError => 415,
        TransformError::InvalidGeometry => 400,
        TransformError::EncodeError => 500,
        TransformError::WorkerFailure => 500,
    }
}

} // verus!
