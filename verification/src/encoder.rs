//! WebP encoding: configuration, the encoder builder, the pixel layouts libwebp
//! accepts, grayscale expansion, input validation and the mapping of libwebp's
//! outcome to the encoded bytes or an error.
use vstd::prelude::*;

use crate::color::ExtendedColorType;
use crate::error::WebpError;
use crate::messages::{decimal, encode_error_message, encode_error_text, push_decimal};
use vstd::string::StringExecFns;

verus! {

/// How an input pixel buffer maps onto the RGB(A) image libwebp consumes. Every
/// sample is one byte.
#[derive(Clone, Copy, Debug, PartialEq, Eq, Structural)]
pub struct Layout {
    /// Channels per pixel in the input buffer (1 = L, 2 = La, 3 = Rgb, 4 = Rgba).
    pub src_channels: usize,
    /// Channels in the buffer handed to libwebp (3 = RGB, 4 = RGBA).
    pub rgb_channels: usize,
    /// Whether the input is grayscale and must be expanded to RGB/RGBA.
    pub gray: bool,
    /// Whether the input carries an alpha channel.
    pub alpha: bool,
}

/// The layout of each supported color type; `None` for every other one (libwebp is
/// 8-bit only, so 16-bit, float, packed and BGR inputs are unsupported).
pub open spec fn layout_of(color_type: ExtendedColorType) -> Option<Layout> {
    match color_type {
        ExtendedColorType::L8 => Some(Layout { src_channels: 1, rgb_channels: 3, gray: true, alpha: false }),
        ExtendedColorType::La8 => Some(Layout { src_channels: 2, rgb_channels: 4, gray: true, alpha: true }),
        ExtendedColorType::Rgb8 => Some(Layout { src_channels: 3, rgb_channels: 3, gray: false, alpha: false }),
        ExtendedColorType::Rgba8 => Some(Layout { src_channels: 4, rgb_channels: 4, gray: false, alpha: true }),
        _ => None,
    }
}

/// Maps a supported color type to its layout, or `None` if libwebp cannot take it.
pub fn layout_for(color_type: ExtendedColorType) -> (r: Option<Layout>)
    ensures
        r == layout_of(color_type),
{
    match color_type {
        ExtendedColorType::L8 => Some(Layout { src_channels: 1, rgb_channels: 3, gray: true, alpha: false }),
        ExtendedColorType::La8 => Some(Layout { src_channels: 2, rgb_channels: 4, gray: true, alpha: true }),
        ExtendedColorType::Rgb8 => Some(Layout { src_channels: 3, rgb_channels: 3, gray: false, alpha: false }),
        ExtendedColorType::Rgba8 => Some(Layout { src_channels: 4, rgb_channels: 4, gray: false, alpha: true }),
        _ => None,
    }
}

/// A grayscale buffer (L, or La when `alpha`) expanded to RGB (or RGBA): luma is
/// replicated into the three color channels and alpha is kept. A trailing partial
/// pixel is dropped.
pub open spec fn expanded_gray(buf: Seq<u8>, alpha: bool) -> Seq<u8> {
    if alpha {
        Seq::new(
            ((buf.len() / 2) * 4) as nat,
            |j: int| if j % 4 == 3 { buf[(j / 4) * 2 + 1] } else { buf[(j / 4) * 2] },
        )
    } else {
        Seq::new((buf.len() * 3) as nat, |j: int| buf[j / 3])
    }
}

/// Expands a grayscale buffer (L, or La when `alpha`) into RGB/RGBA by replicating
/// luma into the three color channels.
pub fn expand_gray(buf: &[u8], alpha: bool) -> (out: Vec<u8>)
    ensures
        out@ == expanded_gray(buf@, alpha),
{
    let in_ch: usize = if alpha { 2 } else { 1 };
    let pixels: usize = buf.len() / in_ch;
    let mut out: Vec<u8> = Vec::new();
    let ghost target = expanded_gray(buf@, alpha);
    let mut i: usize = 0;
    while i < pixels
        invariant
            in_ch == (if alpha { 2usize } else { 1usize }),
            pixels == buf.len() / in_ch,
            i <= pixels,
            target == expanded_gray(buf@, alpha),
            out.len() == i * (if alpha { 4int } else { 3int }),
            forall|j: int| 0 <= j < out.len() ==> #[trigger] out@[j] == target[j],
        decreases pixels - i,
    {
        let base: usize = if alpha { i * 2 } else { i };
        let luma = buf[base];
        out.push(luma);
        out.push(luma);
        out.push(luma);
        if alpha {
            out.push(buf[base + 1]);
        }
        i = i + 1;
    }
    assert(out@ =~= target);
    out
}


/// Tunable parameters for the libwebp encoder. Ranges and defaults follow libwebp
/// and the `cwebp` tool.
#[derive(Clone, Copy, Debug, PartialEq, Eq, Structural)]
pub struct EncoderConfig {
    /// Visual-quality target, 0-100 (higher = better-looking image, larger file);
    /// default 75. Ignored when `lossless` is set. Maps to `WebPConfig.quality`.
    pub quality: u8,
    /// Quality of the alpha channel, 0-100; default 100. Maps to
    /// `WebPConfig.alpha_quality`.
    pub quality_alpha: u8,
    /// Compression effort, 0-6 (higher = slower encode, smaller file); default 4.
    /// Maps to `WebPConfig.method`.
    pub compression: u8,
    /// Lossless encoding; default `false`. Maps to `WebPConfig.lossless`.
    pub lossless: bool,
    /// Multi-threaded encoding (on/off); default `false`. Maps to
    /// `WebPConfig.thread_level`.
    pub threads: bool,
}

/// The default configuration: quality 75, alpha quality 100, compression 4, lossy,
/// single-threaded.
pub open spec fn default_encoder_config() -> EncoderConfig {
    EncoderConfig { quality: 75, quality_alpha: 100, compression: 4, lossless: false, threads: false }
}

impl Default for EncoderConfig {
    fn default() -> (r: Self)
        ensures
            r == default_encoder_config(),
            r.quality == 75,
            r.quality_alpha == 100,
            r.compression == 4,
            !r.lossless,
            !r.threads,
    {
        EncoderConfig { quality: 75, quality_alpha: 100, compression: 4, lossless: false, threads: false }
    }
}

/// The integer fields of libwebp's `WebPConfig` that the encoder sets. The quality
/// target is kept as the 0-100 integer that becomes `WebPConfig.quality`.
#[derive(Clone, Copy, Debug, PartialEq, Eq, Structural)]
pub struct LibwebpSettings {
    /// `WebPConfig.quality` (and the quality the config is initialised with).
    pub quality: u8,
    /// `WebPConfig.alpha_quality`.
    pub alpha_quality: i32,
    /// `WebPConfig.method`.
    pub method: i32,
    /// `WebPConfig.lossless` (0 or 1).
    pub lossless: i32,
    /// `WebPConfig.thread_level` (0 or 1).
    pub thread_level: i32,
}

/// The libwebp settings of a configuration.
pub open spec fn settings_of(c: EncoderConfig) -> LibwebpSettings {
    LibwebpSettings {
        quality: c.quality,
        alpha_quality: c.quality_alpha as i32,
        method: c.compression as i32,
        lossless: if c.lossless { 1 } else { 0 },
        thread_level: if c.threads { 1 } else { 0 },
    }
}

/// The pixels handed to libwebp: the caller's RGB/RGBA buffer, or an expanded copy
/// of a grayscale one.
pub enum Pixels<'a> {
    Borrowed(&'a [u8]),
    Expanded(Vec<u8>),
}

impl<'a> Pixels<'a> {
    pub open spec fn view_bytes(&self) -> Seq<u8> {
        match self {
            Pixels::Borrowed(b) => b@,
            Pixels::Expanded(v) => v@,
        }
    }

    /// The pixel bytes.
    pub fn as_bytes(&self) -> (r: &[u8])
        ensures
            r@ == self.view_bytes(),
    {
        match self {
            Pixels::Borrowed(b) => b,
            Pixels::Expanded(v) => v.as_slice(),
        }
    }
}

/// Everything libwebp needs to encode one validated image: its settings, the
/// picture's size, the row stride of the RGB/RGBA pixels, and whether they are
/// imported as RGBA (`WebPPictureImportRGBA`) or RGB (`WebPPictureImportRGB`).
pub struct EncodeJob<'a> {
    pub settings: LibwebpSettings,
    /// `WebPPicture.width`.
    pub width: i32,
    /// `WebPPicture.height`.
    pub height: i32,
    /// Bytes per row of `pixels`.
    pub stride: i32,
    /// Import as RGBA (else RGB).
    pub alpha: bool,
    pub pixels: Pixels<'a>,
}

/// Text of the error for a buffer whose length does not fit the image.
pub open spec fn buffer_length_text(len: nat, width: u32, height: u32, channels: nat) -> Seq<char> {
    "buffer length "@ + decimal(len) + " does not match "@ + decimal(width as nat) + "x"@
        + decimal(height as nat) + " with "@ + decimal(channels) + " channels"@
}

/// The number of input bytes an image of this size and layout takes.
pub open spec fn input_len(width: u32, height: u32, layout: Layout) -> int {
    width * height * layout.src_channels
}

/// Why an encode did not produce bytes: an input the encoder does not support
/// (reported by the `image` crate as an unsupported color type), or a failure.
#[derive(Debug)]
pub enum EncodeError {
    Unsupported(ExtendedColorType),
    Webp(WebpError),
}

/// What happened when libwebp ran an [`EncodeJob`], step by step.
pub enum EncodeOutcome {
    /// `WebPConfigInit` failed (ABI version mismatch).
    ConfigInitFailed,
    /// `WebPValidateConfig` rejected the settings.
    InvalidConfig,
    /// `WebPPictureInit` failed (ABI version mismatch).
    PictureInitFailed,
    /// Importing the pixels into the picture failed.
    ImportFailed,
    /// `WebPEncode` succeeded and wrote these bytes (empty when nothing was written).
    Encoded(Vec<u8>),
    /// `WebPEncode` failed with this `WebPPicture.error_code`.
    EncodeFailed(u32),
}

/// The job for a valid input: the configuration's settings, the picture's size,
/// RGB/RGBA pixels (grayscale expanded) with `width * rgb_channels` bytes per row,
/// `width * height * rgb_channels` bytes in all.
pub open spec fn job_fits(job: EncodeJob, config: EncoderConfig, buf: Seq<u8>, width: u32, height: u32, layout: Layout) -> bool {
    &&& job.settings == settings_of(config)
    &&& job.width == width as i32
    &&& job.height == height as i32
    &&& job.stride == (width * layout.rgb_channels) as i32
    &&& job.alpha == layout.alpha
    &&& job.pixels.view_bytes() == (if layout.gray { expanded_gray(buf, layout.alpha) } else { buf })
    &&& job.pixels.view_bytes().len() == width * height * layout.rgb_channels
}

impl EncoderConfig {
    /// The libwebp settings of this configuration.
    pub fn libwebp_settings(&self) -> (r: LibwebpSettings)
        ensures
            r == settings_of(*self),
            r.quality == self.quality,
            r.alpha_quality == self.quality_alpha as int,
            r.method == self.compression as int,
            r.lossless == 1 <==> self.lossless,
            r.lossless == 0 <==> !self.lossless,
            r.thread_level == 1 <==> self.threads,
            r.thread_level == 0 <==> !self.threads,
    {
        LibwebpSettings {
            quality: self.quality,
            alpha_quality: self.quality_alpha as i32,
            method: self.compression as i32,
            lossless: if self.lossless { 1 } else { 0 },
            thread_level: if self.threads { 1 } else { 0 },
        }
    }

    /// Validates an input image and prepares the job libwebp runs on it: rejects a
    /// zero dimension, a color type libwebp cannot take, and a buffer whose length
    /// does not fit `width * height` pixels; expands grayscale to RGB/RGBA.
    pub fn prepare<'a>(
        &self,
        buf: &'a [u8],
        width: u32,
        height: u32,
        color_type: ExtendedColorType,
    ) -> (r: Result<EncodeJob<'a>, EncodeError>)
        ensures
            (width == 0 || height == 0) ==> (r matches Err(EncodeError::Webp(WebpError::InvalidDimensions { width: w, height: h }))
                && w == width && h == height),
            width != 0 && height != 0 && layout_of(color_type) is None
                ==> (r matches Err(EncodeError::Unsupported(c)) && c == color_type),
            width != 0 && height != 0 && layout_of(color_type) is Some
                && buf@.len() != input_len(width, height, layout_of(color_type).unwrap())
                ==> (r matches Err(EncodeError::Webp(WebpError::Encode(m)))
                && m@ == buffer_length_text(buf@.len(), width, height, layout_of(color_type).unwrap().src_channels as nat)),
            width != 0 && height != 0 && layout_of(color_type) is Some
                && buf@.len() == input_len(width, height, layout_of(color_type).unwrap())
                ==> (r matches Ok(job) && job_fits(job, *self, buf@, width, height, layout_of(color_type).unwrap())),
    {
        if width == 0 || height == 0 {
            return Err(EncodeError::Webp(WebpError::InvalidDimensions { width, height }));
        }
        let layout = match layout_for(color_type) {
            Some(l) => l,
            None => { return Err(EncodeError::Unsupported(color_type)); },
        };
        proof {
            assert(width * height <= 0xffff_ffffu64 * 0xffff_ffffu64) by (nonlinear_arith)
                requires width <= 0xffff_ffffu32, height <= 0xffff_ffffu32;
            assert(width * height * layout.src_channels <= 0xffff_ffffu64 * 0xffff_ffffu64 * 4) by (nonlinear_arith)
                requires width * height <= 0xffff_ffffu64 * 0xffff_ffffu64, layout.src_channels <= 4;
        }
        let expected: u128 = width as u128 * height as u128 * layout.src_channels as u128;
        if buf.len() as u128 != expected {
            let mut m = String::from_str("buffer length ");
            push_decimal(&mut m, buf.len() as u128);
            m.append(" does not match ");
            push_decimal(&mut m, width as u128);
            m.append("x");
            push_decimal(&mut m, height as u128);
            m.append(" with ");
            push_decimal(&mut m, layout.src_channels as u128);
            m.append(" channels");
            assert(m@ =~= buffer_length_text(buf@.len(), width, height, layout.src_channels as nat));
            return Err(EncodeError::Webp(WebpError::Encode(m)));
        }
        let pixels = if layout.gray {
            Pixels::Expanded(expand_gray(buf, layout.alpha))
        } else {
            Pixels::Borrowed(buf)
        };
        proof {
            let n = width * height;
            if layout.gray {
                if layout.alpha {
                    assert((n * 2) / 2 == n) by (nonlinear_arith);
                    assert(n * 2 / 2 * 4 == n * 4);
                } else {
                    assert(n * 1 * 3 == n * 3);
                }
            }
        }
        proof {
            assert(width * layout.rgb_channels <= 0xffff_ffffu64 * 4) by (nonlinear_arith)
                requires width <= 0xffff_ffffu32, layout.rgb_channels <= 4;
        }
        let row_bytes: u64 = width as u64 * layout.rgb_channels as u64;
        let stride: i32 = #[verifier::truncate] (row_bytes as i32);
        let picture_width: i32 = #[verifier::truncate] (width as i32);
        let picture_height: i32 = #[verifier::truncate] (height as i32);
        Ok(EncodeJob {
            settings: self.libwebp_settings(),
            width: picture_width,
            height: picture_height,
            stride,
            alpha: layout.alpha,
            pixels,
        })
    }
}

/// Turns what libwebp reported into the encoded bytes or the error the encoder
/// reports for it.
pub fn finish_encode(outcome: EncodeOutcome) -> (r: Result<Vec<u8>, EncodeError>)
    ensures
        outcome matches EncodeOutcome::ConfigInitFailed ==> r matches Err(EncodeError::Webp(WebpError::EncoderInit(m)))
            && m@ == "WebPConfigInit failed (version mismatch)"@,
        outcome matches EncodeOutcome::InvalidConfig ==> r matches Err(EncodeError::Webp(WebpError::EncoderInit(m)))
            && m@ == "invalid encoder configuration"@,
        outcome matches EncodeOutcome::PictureInitFailed ==> r matches Err(EncodeError::Webp(WebpError::EncoderInit(m)))
            && m@ == "WebPPictureInit failed (version mismatch)"@,
        outcome matches EncodeOutcome::ImportFailed ==> r matches Err(EncodeError::Webp(WebpError::Encode(m)))
            && m@ == "failed to import pixels (out of memory?)"@,
        outcome matches EncodeOutcome::Encoded(bytes) ==> r matches Ok(v) && v@ == bytes@,
        outcome matches EncodeOutcome::EncodeFailed(code) ==> r matches Err(EncodeError::Webp(WebpError::Encode(m)))
            && m@ == encode_error_text(code),
{
    match outcome {
        EncodeOutcome::ConfigInitFailed => Err(EncodeError::Webp(WebpError::EncoderInit(
            String::from_str("WebPConfigInit failed (version mismatch)"),
        ))),
        EncodeOutcome::InvalidConfig => Err(EncodeError::Webp(WebpError::EncoderInit(
            String::from_str("invalid encoder configuration"),
        ))),
        EncodeOutcome::PictureInitFailed => Err(EncodeError::Webp(WebpError::EncoderInit(
            String::from_str("WebPPictureInit failed (version mismatch)"),
        ))),
        EncodeOutcome::ImportFailed => Err(EncodeError::Webp(WebpError::Encode(
            String::from_str("failed to import pixels (out of memory?)"),
        ))),
        EncodeOutcome::Encoded(bytes) => Ok(bytes),
        EncodeOutcome::EncodeFailed(code) => Err(EncodeError::Webp(WebpError::Encode(encode_error_message(code)))),
    }
}

/// WebP encoder writing to `W`, with its libwebp configuration.
pub struct WebpEncoder<W> {
    writer: W,
    config: EncoderConfig,
}

impl<W> WebpEncoder<W> {
    /// The encoder's configuration.
    pub closed spec fn spec_config(&self) -> EncoderConfig {
        self.config
    }

    /// The sink the encoded bytes go to.
    pub closed spec fn spec_writer(&self) -> W {
        self.writer
    }

    /// An encoder writing to `w` with the default settings.
    pub fn new(w: W) -> (r: Self)
        ensures
            r.spec_config() == default_encoder_config(),
            r.spec_writer() == w,
    {
        WebpEncoder { writer: w, config: EncoderConfig::default() }
    }

    /// An encoder writing to `w` with an explicit configuration.
    pub fn new_with_config(w: W, config: EncoderConfig) -> (r: Self)
        ensures
            r.spec_config() == config,
            r.spec_writer() == w,
    {
        WebpEncoder { writer: w, config }
    }

    /// Sets the visual-quality target, 0-100 (ignored when lossless).
    pub fn with_quality(self, quality: u8) -> (r: Self)
        ensures
            r.spec_config() == (EncoderConfig { quality, ..self.spec_config() }),
            r.spec_writer() == self.spec_writer(),
    {
        let mut e = self;
        e.config.quality = quality;
        e
    }

    /// Sets the quality of the alpha channel, 0-100.
    pub fn with_quality_alpha(self, quality_alpha: u8) -> (r: Self)
        ensures
            r.spec_config() == (EncoderConfig { quality_alpha, ..self.spec_config() }),
            r.spec_writer() == self.spec_writer(),
    {
        let mut e = self;
        e.config.quality_alpha = quality_alpha;
        e
    }

    /// Sets the compression effort, 0-6. Does not change the quality target.
    pub fn with_compression(self, compression: u8) -> (r: Self)
        ensures
            r.spec_config() == (EncoderConfig { compression, ..self.spec_config() }),
            r.spec_writer() == self.spec_writer(),
    {
        let mut e = self;
        e.config.compression = compression;
        e
    }

    /// Enables or disables lossless encoding.
    pub fn with_lossless(self, lossless: bool) -> (r: Self)
        ensures
            r.spec_config() == (EncoderConfig { lossless, ..self.spec_config() }),
            r.spec_writer() == self.spec_writer(),
    {
        let mut e = self;
        e.config.lossless = lossless;
        e
    }

    /// Enables or disables multi-threaded encoding.
    pub fn with_threads(self, threads: bool) -> (r: Self)
        ensures
            r.spec_config() == (EncoderConfig { threads, ..self.spec_config() }),
            r.spec_writer() == self.spec_writer(),
    {
        let mut e = self;
        e.config.threads = threads;
        e
    }

    /// The encoder's configuration.
    pub fn config(&self) -> (r: &EncoderConfig)
        ensures
            *r == self.spec_config(),
    {
        &self.config
    }

    /// Splits the encoder into its sink and its configuration.
    pub fn into_parts(self) -> (r: (W, EncoderConfig))
        ensures
            r.0 == self.spec_writer(),
            r.1 == self.spec_config(),
    {
        (self.writer, self.config)
    }
}

} // verus!
