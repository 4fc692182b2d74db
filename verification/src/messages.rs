//! Human-readable messages: decimal numbers, libwebp's decode status codes
//! (`VP8StatusCode`) and encode error codes (`WebPEncodingError`), and the packed
//! libwebp version number.
use vstd::prelude::*;
use vstd::string::StringExecFns;

verus! {

/// The character of a decimal digit.
pub open spec fn digit_char(d: nat) -> char {
    if d == 0 { '0' }
    else if d == 1 { '1' }
    else if d == 2 { '2' }
    else if d == 3 { '3' }
    else if d == 4 { '4' }
    else if d == 5 { '5' }
    else if d == 6 { '6' }
    else if d == 7 { '7' }
    else if d == 8 { '8' }
    else { '9' }
}

/// The decimal representation of `n`, without leading zeros ("0" for zero).
pub open spec fn decimal(n: nat) -> Seq<char>
    decreases n,
{
    if n < 10 {
        seq![digit_char(n)]
    } else {
        decimal(n / 10).push(digit_char(n % 10))
    }
}

fn digit_str(d: u128) -> (s: &'static str)
    requires
        d < 10,
    ensures
        s@ == seq![digit_char(d as nat)],
{
    proof {
        reveal_strlit("0");
        reveal_strlit("1");
        reveal_strlit("2");
        reveal_strlit("3");
        reveal_strlit("4");
        reveal_strlit("5");
        reveal_strlit("6");
        reveal_strlit("7");
        reveal_strlit("8");
        reveal_strlit("9");
    }
    if d == 0 { "0" }
    else if d == 1 { "1" }
    else if d == 2 { "2" }
    else if d == 3 { "3" }
    else if d == 4 { "4" }
    else if d == 5 { "5" }
    else if d == 6 { "6" }
    else if d == 7 { "7" }
    else if d == 8 { "8" }
    else { "9" }
}

/// Appends the decimal representation of `n` to `s`.
pub fn push_decimal(s: &mut String, n: u128)
    ensures
        final(s)@ == old(s)@ + decimal(n as nat),
    decreases n,
{
    if n >= 10 {
        push_decimal(s, n / 10);
    }
    s.append(digit_str(n % 10));
    assert(decimal(n as nat) =~= if n < 10 {
        seq![digit_char(n as nat)]
    } else {
        decimal((n / 10) as nat).push(digit_char((n % 10) as nat))
    });
}


/// libwebp's decode status codes (`VP8StatusCode`).
pub const VP8_STATUS_OK: u32 = 0;
pub const VP8_STATUS_OUT_OF_MEMORY: u32 = 1;
pub const VP8_STATUS_INVALID_PARAM: u32 = 2;
pub const VP8_STATUS_BITSTREAM_ERROR: u32 = 3;
pub const VP8_STATUS_UNSUPPORTED_FEATURE: u32 = 4;
pub const VP8_STATUS_SUSPENDED: u32 = 5;
pub const VP8_STATUS_USER_ABORT: u32 = 6;
pub const VP8_STATUS_NOT_ENOUGH_DATA: u32 = 7;

/// libwebp's encode error codes (`WebPEncodingError`).
pub const VP8_ENC_OK: u32 = 0;
pub const VP8_ENC_ERROR_OUT_OF_MEMORY: u32 = 1;
pub const VP8_ENC_ERROR_BITSTREAM_OUT_OF_MEMORY: u32 = 2;
pub const VP8_ENC_ERROR_NULL_PARAMETER: u32 = 3;
pub const VP8_ENC_ERROR_INVALID_CONFIGURATION: u32 = 4;
pub const VP8_ENC_ERROR_BAD_DIMENSION: u32 = 5;
pub const VP8_ENC_ERROR_PARTITION0_OVERFLOW: u32 = 6;
pub const VP8_ENC_ERROR_PARTITION_OVERFLOW: u32 = 7;
pub const VP8_ENC_ERROR_BAD_WRITE: u32 = 8;
pub const VP8_ENC_ERROR_FILE_TOO_BIG: u32 = 9;
pub const VP8_ENC_ERROR_USER_ABORT: u32 = 10;

/// `true` when a decode status is `VP8_STATUS_OK`.
pub fn is_ok(status: u32) -> (r: bool)
    ensures
        r == (status == VP8_STATUS_OK),
{
    status == VP8_STATUS_OK
}

/// The message for a decode status; codes libwebp does not define get
/// "unknown decode error".
pub open spec fn status_text(status: u32) -> Seq<char> {
    if status == VP8_STATUS_OK { "ok"@ }
    else if status == VP8_STATUS_OUT_OF_MEMORY { "out of memory"@ }
    else if status == VP8_STATUS_INVALID_PARAM { "invalid parameter"@ }
    else if status == VP8_STATUS_BITSTREAM_ERROR { "bitstream error"@ }
    else if status == VP8_STATUS_UNSUPPORTED_FEATURE { "unsupported feature"@ }
    else if status == VP8_STATUS_SUSPENDED { "suspended"@ }
    else if status == VP8_STATUS_USER_ABORT { "user abort"@ }
    else if status == VP8_STATUS_NOT_ENOUGH_DATA { "not enough data"@ }
    else { "unknown decode error"@ }
}

/// Human-readable message for a libwebp decode status.
pub fn status_message(status: u32) -> (r: String)
    ensures
        r@ == status_text(status),
{
    let msg = if status == VP8_STATUS_OK { "ok" }
    else if status == VP8_STATUS_OUT_OF_MEMORY { "out of memory" }
    else if status == VP8_STATUS_INVALID_PARAM { "invalid parameter" }
    else if status == VP8_STATUS_BITSTREAM_ERROR { "bitstream error" }
    else if status == VP8_STATUS_UNSUPPORTED_FEATURE { "unsupported feature" }
    else if status == VP8_STATUS_SUSPENDED { "suspended" }
    else if status == VP8_STATUS_USER_ABORT { "user abort" }
    else if status == VP8_STATUS_NOT_ENOUGH_DATA { "not enough data" }
    else { "unknown decode error" };
    String::from_str(msg)
}

/// The message for an encode error code (`WebPPicture.error_code`); codes libwebp
/// does not define get "unknown encode error".
pub open spec fn encode_error_text(code: u32) -> Seq<char> {
    if code == VP8_ENC_OK { "ok"@ }
    else if code == VP8_ENC_ERROR_OUT_OF_MEMORY { "out of memory"@ }
    else if code == VP8_ENC_ERROR_BITSTREAM_OUT_OF_MEMORY { "bitstream out of memory"@ }
    else if code == VP8_ENC_ERROR_NULL_PARAMETER { "null parameter"@ }
    else if code == VP8_ENC_ERROR_INVALID_CONFIGURATION { "invalid configuration"@ }
    else if code == VP8_ENC_ERROR_BAD_DIMENSION { "bad dimension (max 16383x16383)"@ }
    else if code == VP8_ENC_ERROR_PARTITION0_OVERFLOW { "partition 0 overflow"@ }
    else if code == VP8_ENC_ERROR_PARTITION_OVERFLOW { "partition overflow"@ }
    else if code == VP8_ENC_ERROR_BAD_WRITE { "bad write"@ }
    else if code == VP8_ENC_ERROR_FILE_TOO_BIG { "file too big"@ }
    else if code == VP8_ENC_ERROR_USER_ABORT { "user abort"@ }
    else { "unknown encode error"@ }
}

/// Human-readable message for a libwebp encode error code.
pub fn encode_error_message(code: u32) -> (r: String)
    ensures
        r@ == encode_error_text(code),
{
    let msg = if code == VP8_ENC_OK { "ok" }
    else if code == VP8_ENC_ERROR_OUT_OF_MEMORY { "out of memory" }
    else if code == VP8_ENC_ERROR_BITSTREAM_OUT_OF_MEMORY { "bitstream out of memory" }
    else if code == VP8_ENC_ERROR_NULL_PARAMETER { "null parameter" }
    else if code == VP8_ENC_ERROR_INVALID_CONFIGURATION { "invalid configuration" }
    else if code == VP8_ENC_ERROR_BAD_DIMENSION { "bad dimension (max 16383x16383)" }
    else if code == VP8_ENC_ERROR_PARTITION0_OVERFLOW { "partition 0 overflow" }
    else if code == VP8_ENC_ERROR_PARTITION_OVERFLOW { "partition overflow" }
    else if code == VP8_ENC_ERROR_BAD_WRITE { "bad write" }
    else if code == VP8_ENC_ERROR_FILE_TOO_BIG { "file too big" }
    else if code == VP8_ENC_ERROR_USER_ABORT { "user abort" }
    else { "unknown encode error" };
    String::from_str(msg)
}

/// The major, minor and patch numbers of a packed libwebp version
/// `(major << 16) | (minor << 8) | patch`, as the three low bytes above each other.
pub open spec fn version_major(v: u32) -> u32 { (v >> 16u32) & 0xffu32 }
pub open spec fn version_minor(v: u32) -> u32 { (v >> 8u32) & 0xffu32 }
pub open spec fn version_patch(v: u32) -> u32 { v & 0xffu32 }

/// "major.minor.patch" of a packed version number.
pub open spec fn version_text(v: u32) -> Seq<char> {
    decimal(version_major(v) as nat) + "."@ + decimal(version_minor(v) as nat) + "."@
        + decimal(version_patch(v) as nat)
}

/// Decodes libwebp's packed version integer (as `WebPGetEncoderVersion` returns it)
/// into a dotted string such as "1.5.0".
pub fn version_string(packed: i32) -> (r: String)
    ensures
        r@ == version_text(packed as u32),
{
    let v = packed as u32;
    let major = (v >> 16u32) & 0xffu32;
    let minor = (v >> 8u32) & 0xffu32;
    let patch = v & 0xffu32;
    let mut s = String::new();
    push_decimal(&mut s, major as u128);
    s.append(".");
    push_decimal(&mut s, minor as u128);
    s.append(".");
    push_decimal(&mut s, patch as u128);
    assert(s@ =~= version_text(v));
    s
}

} // verus!
