//! Status and error messages, and the libwebp version string.

use webp::{encode_error_message, is_ok, status_message, version_string};

#[test]
fn decode_status_messages() {
    let expected = [
        "ok",
        "out of memory",
        "invalid parameter",
        "bitstream error",
        "unsupported feature",
        "suspended",
        "user abort",
        "not enough data",
        "unknown decode error",
    ];
    for (code, text) in expected.iter().enumerate() {
        assert_eq!(status_message(code as u32), *text);
    }
    assert_eq!(status_message(1000), "unknown decode error");
}

#[test]
fn encode_error_messages() {
    let expected = [
        "ok",
        "out of memory",
        "bitstream out of memory",
        "null parameter",
        "invalid configuration",
        "bad dimension (max 16383x16383)",
        "partition 0 overflow",
        "partition overflow",
        "bad write",
        "file too big",
        "user abort",
        "unknown encode error",
    ];
    for (code, text) in expected.iter().enumerate() {
        assert_eq!(encode_error_message(code as u32), *text);
    }
}

#[test]
fn only_status_zero_is_ok() {
    assert!(is_ok(0));
    for s in 1..10 {
        assert!(!is_ok(s));
        assert_ne!(status_message(s), "ok");
    }
}

#[test]
fn version_string_unpacks_the_version() {
    assert_eq!(version_string(0x010500), "1.5.0");
    assert_eq!(version_string((1 << 16) | (6 << 8) | 0), "1.6.0");
    assert_eq!(version_string(0x0a0b0c), "10.11.12");
    assert_eq!(version_string(0x00ff00ff), "255.0.255");
    assert_eq!(version_string(0), "0.0.0");
    // Bits above the three version bytes are ignored.
    assert_eq!(version_string(0x7f010203), "1.2.3");
    assert_eq!(version_string(-1), "255.255.255");
}
