//! The library's error type.
use vstd::prelude::*;

verus! {

/// Errors of the encode and decode pipelines.
///
/// Failures of the `image` crate and of I/O are reported by the code that does the
/// I/O; the verified pipeline produces these variants.
#[derive(Debug)]
pub enum WebpError {
    /// libwebp could not set up its encoder.
    EncoderInit(String),
    /// libwebp could not set up its decoder or could not read the bitstream header.
    DecoderInit(String),
    /// Encoding failed.
    Encode(String),
    /// Decoding failed.
    Decode(String),
    /// A zero width or height.
    InvalidDimensions { width: u32, height: u32 },
}

} // verus!
