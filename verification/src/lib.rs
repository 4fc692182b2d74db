//! Encode and decode WebP images through libwebp, with the decisions around each
//! libwebp call (input validation, pixel layout, grayscale expansion, buffer sizing,
//! status and error reporting) written as verified functions.
//!
//! WebP is an 8-bit format: inputs are encoded as 8-bit RGB/RGBA (grayscale is
//! expanded) and decoded back to RGB or RGBA.
pub mod color;
pub mod decoder;
pub mod encoder;
pub mod error;
pub mod info;
pub mod laws;
pub mod messages;

pub use color::{ColorType, ExtendedColorType};
pub use decoder::{finish_read, DecodeJob, DecodeOutcome, DecoderConfig, Features, WebpDecoder};
pub use encoder::{
    expand_gray, finish_encode, layout_for, EncodeError, EncodeJob, EncodeOutcome, EncoderConfig,
    Layout, LibwebpSettings, Pixels, WebpEncoder,
};
pub use error::WebpError;
pub use info::{probe, ImageInfo};
pub use messages::{encode_error_message, is_ok, status_message, version_string};
