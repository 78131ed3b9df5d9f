//! An image transform service core: typed transform parameters, a verified
//! multipart field adapter, and a transform engine that detects an image's
//! container format, decodes it, resizes or crops it, and re-encodes it in
//! the same format, classifying every failure precisely.
//!
//! The codec contracts treat decoding as a function of the image bytes
//! alone. That holds as long as no process-global decoding hook is
//! registered with the codec crate; nothing in this library or its service
//! registers one, and a host program that did would void those contracts.

pub mod errors;
pub mod types;
pub mod parse;
pub mod format;
pub mod codec;
pub mod engine;
pub mod resize;
pub mod adapter;
