//! WebP decoding: the header libwebp reports, the decoder built from it, the
//! output layout (RGB, or RGBA when the image has alpha), the check of the output
//! buffer and the mapping of libwebp's decode status to the result.
use vstd::prelude::*;

use crate::color::ColorType;
use crate::error::WebpError;
use crate::messages::{decimal, is_ok, push_decimal, status_message, status_text, VP8_STATUS_OK};
use vstd::string::StringExecFns;

verus! {

/// Tunable parameters for the libwebp decoder.
#[derive(Clone, Copy, Debug, PartialEq, Eq, Structural)]
pub struct DecoderConfig {
    /// Multi-threaded decoding (libwebp `use_threads`, on/off); default `false`.
    pub threads: bool,
}

impl Default for DecoderConfig {
    fn default() -> (r: Self)
        ensures
            r == (DecoderConfig { threads: false }),
    {
        DecoderConfig { threads: false }
    }
}

/// What libwebp's `WebPGetFeatures` reported for a bitstream: its status code and,
/// when that is `VP8_STATUS_OK`, the header's fields.
#[derive(Clone, Copy, Debug, PartialEq, Eq, Structural)]
pub struct Features {
    pub status: u32,
    pub width: i32,
    pub height: i32,
    pub has_alpha: i32,
}

/// The colorspaces of libwebp's `WEBP_CSP_MODE` the decoder writes.
pub const MODE_RGB: u32 = 0;
pub const MODE_RGBA: u32 = 1;

/// The color type of decoded pixels: RGBA when the image has alpha, RGB otherwise.
pub open spec fn color_of(alpha: bool) -> ColorType {
    if alpha { ColorType::Rgba8 } else { ColorType::Rgb8 }
}

/// Channels (bytes) per decoded pixel: 4 with alpha, 3 without.
pub open spec fn channels_of(alpha: bool) -> usize {
    if alpha { 4 } else { 3 }
}

/// Text of the error for an output buffer of the wrong length.
pub open spec fn output_length_text(len: nat, expected: nat) -> Seq<char> {
    "output buffer length "@ + decimal(len) + " does not match expected "@ + decimal(expected)
}

/// Everything libwebp needs to decode into a caller's buffer: the output
/// colorspace, bytes per row, the buffer's size and whether to use threads.
#[derive(Clone, Copy, Debug, PartialEq, Eq, Structural)]
pub struct DecodeJob {
    /// `WebPDecBuffer.colorspace` (`MODE_RGB` or `MODE_RGBA`).
    pub colorspace: u32,
    /// `WebPRGBABuffer.stride`.
    pub stride: i32,
    /// `WebPRGBABuffer.size`.
    pub size: usize,
    /// `WebPDecoderOptions.use_threads` (0 or 1).
    pub use_threads: i32,
}

/// What happened when libwebp decoded a frame.
pub enum DecodeOutcome {
    /// `WebPInitDecoderConfig` failed (ABI version mismatch).
    InitFailed,
    /// `WebPDecode` returned this status.
    Decoded(u32),
}

/// WebP decoder over the compressed bytes, with the header parsed eagerly so that
/// the dimensions and color type are known before the pixels are decoded.
pub struct WebpDecoder {
    data: Vec<u8>,
    config: DecoderConfig,
    width: u32,
    height: u32,
    alpha_present: bool,
}

impl WebpDecoder {
    pub closed spec fn spec_data(&self) -> Seq<u8> {
        self.data@
    }

    pub closed spec fn spec_config(&self) -> DecoderConfig {
        self.config
    }

    pub closed spec fn spec_width(&self) -> u32 {
        self.width
    }

    pub closed spec fn spec_height(&self) -> u32 {
        self.height
    }

    pub closed spec fn spec_alpha(&self) -> bool {
        self.alpha_present
    }

    /// A decoder over `data`, whose header libwebp described as `features`. Fails
    /// with the status message when the header could not be read.
    pub fn new(data: Vec<u8>, features: Features) -> (r: Result<WebpDecoder, WebpError>)
        ensures
            features.status != VP8_STATUS_OK ==> (r matches Err(WebpError::DecoderInit(m))
                && m@ == status_text(features.status)),
            features.status == VP8_STATUS_OK ==> (r matches Ok(d) && {
                &&& d.spec_data() == data@
                &&& d.spec_config() == (DecoderConfig { threads: false })
                &&& d.spec_width() == features.width as u32
                &&& d.spec_height() == features.height as u32
                &&& d.spec_alpha() == (features.has_alpha != 0)
            }),
    {
        if !is_ok(features.status) {
            return Err(WebpError::DecoderInit(status_message(features.status)));
        }
        let width: u32 = #[verifier::truncate] (features.width as u32);
        let height: u32 = #[verifier::truncate] (features.height as u32);
        Ok(WebpDecoder {
            data,
            config: DecoderConfig::default(),
            width,
            height,
            alpha_present: features.has_alpha != 0,
        })
    }

    /// Enables or disables multi-threaded decoding.
    pub fn with_threads(self, threads: bool) -> (r: Self)
        ensures
            r.spec_config() == (DecoderConfig { threads }),
            r.spec_data() == self.spec_data(),
            r.spec_width() == self.spec_width(),
            r.spec_height() == self.spec_height(),
            r.spec_alpha() == self.spec_alpha(),
    {
        let mut d = self;
        d.config.threads = threads;
        d
    }

    /// Channels in the decoded output: 3 without alpha, 4 with.
    pub fn channels(&self) -> (r: usize)
        ensures
            r == channels_of(self.spec_alpha()),
    {
        if self.alpha_present { 4 } else { 3 }
    }

    /// Width and height of the image.
    pub fn dimensions(&self) -> (r: (u32, u32))
        ensures
            r == (self.spec_width(), self.spec_height()),
    {
        (self.width, self.height)
    }

    /// Color type of the decoded pixels: RGBA8 with alpha, RGB8 otherwise.
    pub fn color_type(&self) -> (r: ColorType)
        ensures
            r == color_of(self.spec_alpha()),
    {
        if self.alpha_present { ColorType::Rgba8 } else { ColorType::Rgb8 }
    }

    /// The compressed bytes.
    pub fn data(&self) -> (r: &[u8])
        ensures
            r@ == self.spec_data(),
    {
        self.data.as_slice()
    }

    /// The decoder's configuration.
    pub fn config(&self) -> (r: DecoderConfig)
        ensures
            r == self.spec_config(),
    {
        self.config
    }

    /// Checks that an output buffer of `buf_len` bytes holds exactly the decoded
    /// image (`width * height * channels`) and prepares libwebp's output settings.
    pub fn prepare_read(&self, buf_len: usize) -> (r: Result<DecodeJob, WebpError>)
        ensures
            buf_len != self.spec_width() * self.spec_height() * channels_of(self.spec_alpha())
                ==> (r matches Err(WebpError::Decode(m)) && m@ == output_length_text(
                buf_len as nat,
                (self.spec_width() * self.spec_height() * channels_of(self.spec_alpha())) as nat,
            )),
            buf_len == self.spec_width() * self.spec_height() * channels_of(self.spec_alpha())
                ==> r == Ok::<DecodeJob, WebpError>(DecodeJob {
                colorspace: if self.spec_alpha() { MODE_RGBA } else { MODE_RGB },
                stride: (self.spec_width() * channels_of(self.spec_alpha())) as i32,
                size: buf_len,
                use_threads: if self.spec_config().threads { 1 } else { 0 },
            }),
    {
        let channels = self.channels();
        proof {
            let w = self.width;
            let h = self.height;
            assert(w * h <= 0xffff_ffffu64 * 0xffff_ffffu64) by (nonlinear_arith)
                requires w <= 0xffff_ffffu32, h <= 0xffff_ffffu32;
            assert(w * h * channels <= 0xffff_ffffu64 * 0xffff_ffffu64 * 4) by (nonlinear_arith)
                requires w * h <= 0xffff_ffffu64 * 0xffff_ffffu64, channels <= 4;
            assert(w * channels <= 0xffff_ffffu64 * 4) by (nonlinear_arith)
                requires w <= 0xffff_ffffu32, channels <= 4;
        }
        let expected: u128 = self.width as u128 * self.height as u128 * channels as u128;
        if buf_len as u128 != expected {
            let mut m = String::from_str("output buffer length ");
            push_decimal(&mut m, buf_len as u128);
            m.append(" does not match expected ");
            push_decimal(&mut m, expected);
            assert(m@ =~= output_length_text(buf_len as nat, expected as nat));
            return Err(WebpError::Decode(m));
        }
        let row_bytes: u64 = self.width as u64 * channels as u64;
        let stride: i32 = #[verifier::truncate] (row_bytes as i32);
        Ok(DecodeJob {
            colorspace: if self.alpha_present { MODE_RGBA } else { MODE_RGB },
            stride,
            size: buf_len,
            use_threads: if self.config.threads { 1 } else { 0 },
        })
    }
}

/// Turns what libwebp reported for a frame decode into the decoder's result.
pub fn finish_read(outcome: DecodeOutcome) -> (r: Result<(), WebpError>)
    ensures
        outcome matches DecodeOutcome::InitFailed ==> (r matches Err(WebpError::DecoderInit(m))
            && m@ == "WebPInitDecoderConfig failed (version mismatch)"@),
        outcome matches DecodeOutcome::Decoded(s) ==> (s == VP8_STATUS_OK ==> r is Ok),
        outcome matches DecodeOutcome::Decoded(s) ==> (s != VP8_STATUS_OK ==> (r matches Err(WebpError::Decode(m))
            && m@ == status_text(s))),
{
    match outcome {
        DecodeOutcome::InitFailed => Err(WebpError::DecoderInit(
            String::from_str("WebPInitDecoderConfig failed (version mismatch)"),
        )),
        DecodeOutcome::Decoded(status) => {
            if is_ok(status) {
                Ok(())
            } else {
                Err(WebpError::Decode(status_message(status)))
            }
        },
    }
}

} // verus!
