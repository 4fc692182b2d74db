//! Properties that hold across the library's functions.
use vstd::prelude::*;

use crate::color::{ColorType, ExtendedColorType};
use crate::decoder::{channels_of, color_of, Features};
use crate::encoder::{expanded_gray, layout_of, settings_of, EncoderConfig};
use crate::info::{info_of, ImageInfo};
use crate::messages::{
    decimal, digit_char, status_text, version_major, version_minor, version_patch, version_text,
    VP8_STATUS_OK,
};

verus! {

/// Bytes per pixel of each color type, as the `image` crate sizes the buffer it
/// hands a decoder.
pub open spec fn bytes_per_pixel(c: ColorType) -> nat {
    match c {
        ColorType::L8 => 1,
        ColorType::La8 => 2,
        ColorType::Rgb8 => 3,
        ColorType::Rgba8 => 4,
        ColorType::L16 => 2,
        ColorType::La16 => 4,
        ColorType::Rgb16 => 6,
        ColorType::Rgba16 => 8,
        ColorType::Rgb32F => 12,
        ColorType::Rgba32F => 16,
    }
}

/// The decoder's output channel count is the byte size of the color type it
/// reports, so a buffer of `width * height * bytes_per_pixel(color_type)` bytes
/// is exactly the one it decodes into.
pub proof fn lemma_channels_match_color_type(alpha: bool)
    ensures
        channels_of(alpha) as nat == bytes_per_pixel(color_of(alpha)),
        color_of(alpha) == ColorType::Rgba8 || color_of(alpha) == ColorType::Rgb8,
{
}

/// Probing a header gives the same width, height and color type as a decoder
/// built from that header reports.
pub proof fn lemma_probe_agrees_with_decoder(features: Features)
    requires
        features.status == VP8_STATUS_OK,
    ensures
        info_of(features) == (ImageInfo {
            width: features.width as u32,
            height: features.height as u32,
            color_type: color_of(features.has_alpha != 0),
        }),
{
}

/// 16-bit inputs are rejected as unsupported, and every supported input is 8-bit
/// RGB or RGBA after expansion: 3 channels without alpha, 4 with.
pub proof fn lemma_supported_layouts(c: ExtendedColorType)
    ensures
        c == ExtendedColorType::L16 || c == ExtendedColorType::La16 || c == ExtendedColorType::Rgb16
            || c == ExtendedColorType::Rgba16 || c == ExtendedColorType::Cmyk16 ==> layout_of(c) is None,
        layout_of(c) is Some <==> (c == ExtendedColorType::L8 || c == ExtendedColorType::La8
            || c == ExtendedColorType::Rgb8 || c == ExtendedColorType::Rgba8),
        layout_of(c) matches Some(l) ==> (l.rgb_channels == (if l.alpha { 4usize } else { 3usize })
            && l.src_channels == (if l.gray { 0usize } else { 2usize }) + (if l.alpha { 2usize } else { 1usize })),
{
}

/// The luma ("L") inputs are the grayscale ones, the inputs with "a" carry alpha,
/// and a decoded image is RGBA exactly when it has alpha.
pub proof fn lemma_layout_channels_by_name(c: ExtendedColorType, alpha: bool)
    ensures
        layout_of(c) matches Some(l) ==> (l.gray <==> (c == ExtendedColorType::L8 || c == ExtendedColorType::La8)),
        layout_of(c) matches Some(l) ==> (l.alpha <==> (c == ExtendedColorType::La8 || c == ExtendedColorType::Rgba8)),
        color_of(alpha) == ColorType::Rgba8 <==> alpha,
        color_of(alpha) == ColorType::Rgb8 <==> !alpha,
{
}

/// Grayscale expansion copies each pixel's luma into its red, green and blue
/// channels and keeps its alpha.
pub proof fn lemma_expanded_gray_pixels(buf: Seq<u8>, alpha: bool)
    ensures
        alpha ==> expanded_gray(buf, alpha).len() == (buf.len() / 2) * 4,
        !alpha ==> expanded_gray(buf, alpha).len() == buf.len() * 3,
        alpha ==> forall|p: int, k: int| 0 <= p < buf.len() / 2 && 0 <= k < 3
            ==> #[trigger] expanded_gray(buf, alpha)[p * 4 + k] == buf[p * 2],
        alpha ==> forall|p: int| 0 <= p < buf.len() / 2
            ==> #[trigger] expanded_gray(buf, alpha)[p * 4 + 3] == buf[p * 2 + 1],
        !alpha ==> forall|p: int, k: int| 0 <= p < buf.len() && 0 <= k < 3
            ==> #[trigger] expanded_gray(buf, alpha)[p * 3 + k] == buf[p],
{
    if alpha {
        assert forall|p: int, k: int| 0 <= p < buf.len() / 2 && 0 <= k < 3 implies
            #[trigger] expanded_gray(buf, alpha)[p * 4 + k] == buf[p * 2] by {
            assert((p * 4 + k) / 4 == p && (p * 4 + k) % 4 == k) by (nonlinear_arith)
                requires 0 <= k < 3, 0 <= p;
            assert(p * 4 + k < (buf.len() / 2) * 4) by (nonlinear_arith)
                requires 0 <= k < 3, 0 <= p < buf.len() / 2;
        }
        assert forall|p: int| 0 <= p < buf.len() / 2 implies
            #[trigger] expanded_gray(buf, alpha)[p * 4 + 3] == buf[p * 2 + 1] by {
            assert((p * 4 + 3) / 4 == p && (p * 4 + 3) % 4 == 3) by (nonlinear_arith)
                requires 0 <= p;
            assert(p * 4 + 3 < (buf.len() / 2) * 4) by (nonlinear_arith)
                requires 0 <= p < buf.len() / 2;
        }
    } else {
        assert forall|p: int, k: int| 0 <= p < buf.len() && 0 <= k < 3 implies
            #[trigger] expanded_gray(buf, alpha)[p * 3 + k] == buf[p] by {
            assert((p * 3 + k) / 3 == p) by (nonlinear_arith)
                requires 0 <= k < 3, 0 <= p;
            assert(p * 3 + k < buf.len() * 3) by (nonlinear_arith)
                requires 0 <= k < 3, 0 <= p < buf.len();
        }
    }
}

/// Decoding a packed version `(major << 16) | (minor << 8) | patch` gives back
/// "major.minor.patch".
pub proof fn lemma_version_roundtrip(major: u32, minor: u32, patch: u32)
    requires
        major < 256,
        minor < 256,
        patch < 256,
    ensures
        version_text((major << 16u32) | (minor << 8u32) | patch)
            == decimal(major as nat) + "."@ + decimal(minor as nat) + "."@ + decimal(patch as nat),
{
    let v = (major << 16u32) | (minor << 8u32) | patch;
    assert(version_major(v) == major && version_minor(v) == minor && version_patch(v) == patch) by (bit_vector)
        requires
            major < 256,
            minor < 256,
            patch < 256,
            v == (major << 16u32) | (minor << 8u32) | patch;
}

/// A decode status is reported as "ok" exactly when it is `VP8_STATUS_OK`.
pub proof fn lemma_ok_status_message(status: u32)
    ensures
        status_text(status) == "ok"@ <==> status == VP8_STATUS_OK,
{
    reveal_strlit("ok");
    reveal_strlit("out of memory");
    reveal_strlit("invalid parameter");
    reveal_strlit("bitstream error");
    reveal_strlit("unsupported feature");
    reveal_strlit("suspended");
    reveal_strlit("user abort");
    reveal_strlit("not enough data");
    reveal_strlit("unknown decode error");
    if status != VP8_STATUS_OK {
        assert(status_text(status).len() != "ok"@.len());
    }
}

/// Each encoder setting reaches libwebp unchanged and on its own: the quality
/// target is `WebPConfig.quality`, the alpha quality is `alpha_quality`, the
/// compression effort is `method`, and lossless and threads are 1 exactly when
/// enabled, whatever the other fields hold.
pub proof fn lemma_settings_follow_config(c: EncoderConfig)
    ensures
        settings_of(c).quality == c.quality,
        settings_of(c).alpha_quality as int == c.quality_alpha as int,
        settings_of(c).method as int == c.compression as int,
        settings_of(c).lossless == 1 <==> c.lossless,
        settings_of(c).lossless == 0 <==> !c.lossless,
        settings_of(c).thread_level == 1 <==> c.threads,
        settings_of(c).thread_level == 0 <==> !c.threads,
{
}

/// Changing one field of the configuration changes only the matching libwebp
/// setting.
pub proof fn lemma_settings_independent(c: EncoderConfig, q: u8, a: u8, m: u8, l: bool, t: bool)
    ensures
        settings_of(EncoderConfig { quality: q, ..c }) == (crate::encoder::LibwebpSettings { quality: q, ..settings_of(c) }),
        settings_of(EncoderConfig { quality_alpha: a, ..c }).alpha_quality as int == a as int,
        settings_of(EncoderConfig { quality_alpha: a, ..c }).quality == c.quality,
        settings_of(EncoderConfig { compression: m, ..c }).method as int == m as int,
        settings_of(EncoderConfig { compression: m, ..c }).quality == c.quality,
        settings_of(EncoderConfig { lossless: l, ..c }).lossless == (if l { 1i32 } else { 0i32 }),
        settings_of(EncoderConfig { lossless: l, ..c }).quality == c.quality,
        settings_of(EncoderConfig { lossless: l, ..c }).method == settings_of(c).method,
        settings_of(EncoderConfig { threads: t, ..c }).thread_level == (if t { 1i32 } else { 0i32 }),
        settings_of(EncoderConfig { threads: t, ..c }).lossless == settings_of(c).lossless,
{
}

/// Whether a character is an ASCII decimal digit.
pub open spec fn is_ascii_digit(ch: char) -> bool {
    48 <= ch as u32 <= 57
}

/// The number a string of ASCII decimal digits spells, most significant first.
pub open spec fn numeral_value(s: Seq<char>) -> int
    decreases s.len(),
{
    if s.len() == 0 {
        0
    } else {
        numeral_value(s.drop_last()) * 10 + (s.last() as u32 - 48)
    }
}

/// The digit characters are the ASCII characters `'0' + d`.
pub proof fn lemma_digit_char_is_ascii(d: nat)
    requires
        d < 10,
    ensures
        digit_char(d) as u32 == 48 + d,
        is_ascii_digit(digit_char(d)),
{
}

/// The decimal numeral of `n` is made of ASCII digits, has no leading zero (unless
/// it is "0"), and reads back as `n`.
pub proof fn lemma_decimal_reads_back(n: nat)
    ensures
        numeral_value(decimal(n)) == n,
        decimal(n).len() >= 1,
        forall|i: int| 0 <= i < decimal(n).len() ==> is_ascii_digit(#[trigger] decimal(n)[i]),
        n >= 10 ==> decimal(n)[0] != '0',
    decreases n,
{
    if n < 10 {
        lemma_digit_char_is_ascii(n);
        assert(decimal(n).drop_last() =~= Seq::<char>::empty());
        assert(numeral_value(Seq::<char>::empty()) == 0);
        assert(numeral_value(decimal(n)) == numeral_value(decimal(n).drop_last()) * 10
            + (decimal(n).last() as u32 - 48));
    } else {
        lemma_decimal_reads_back(n / 10);
        lemma_digit_char_is_ascii(n % 10);
        let s = decimal(n);
        assert(s.drop_last() =~= decimal(n / 10));
        assert(s.last() == digit_char(n % 10));
        if n / 10 < 10 {
            lemma_digit_char_is_ascii(n / 10);
            assert(decimal(n / 10)[0] == digit_char(n / 10));
            assert(n / 10 != 0);
        }
        assert(s[0] == decimal(n / 10)[0]);
        assert(numeral_value(s) == numeral_value(s.drop_last()) * 10 + (s.last() as u32 - 48));
        assert(n == (n / 10) * 10 + n % 10);
    }
}

/// The version string reads back as the three numbers packed into the version:
/// it is three decimal numerals, separated by the two dots (which are not
/// digits), that spell `(v >> 16) & 0xff`, `(v >> 8) & 0xff` and `v & 0xff`.
pub proof fn lemma_version_text_reads_back(v: u32)
    ensures
        version_text(v) == decimal(version_major(v) as nat) + "."@ + decimal(version_minor(v) as nat) + "."@
            + decimal(version_patch(v) as nat),
        numeral_value(decimal(version_major(v) as nat)) == (v >> 16u32) & 0xffu32,
        numeral_value(decimal(version_minor(v) as nat)) == (v >> 8u32) & 0xffu32,
        numeral_value(decimal(version_patch(v) as nat)) == v & 0xffu32,
        "."@ == seq!['.'],
        !is_ascii_digit('.'),
{
    reveal_strlit(".");
    lemma_decimal_reads_back(version_major(v) as nat);
    lemma_decimal_reads_back(version_minor(v) as nat);
    lemma_decimal_reads_back(version_patch(v) as nat);
}

} // verus!
