//! Decoder construction from a header, output checks, decode status mapping and
//! probing.

use webp::{
    finish_read, probe, ColorType, DecodeJob, DecodeOutcome, DecoderConfig, Features, ImageInfo,
    WebpDecoder, WebpError,
};

fn header(status: u32, width: i32, height: i32, has_alpha: i32) -> Features {
    Features { status, width, height, has_alpha }
}

#[test]
fn decoder_reports_header_fields() {
    let d = match WebpDecoder::new(vec![1, 2, 3], header(0, 4, 3, 1)) {
        Ok(d) => d,
        Err(_) => panic!("ok header"),
    };
    assert_eq!(d.dimensions(), (4, 3));
    assert_eq!(d.color_type(), ColorType::Rgba8);
    assert_eq!(d.channels(), 4);
    assert_eq!(d.data(), &[1, 2, 3][..]);
    assert_eq!(d.config(), DecoderConfig { threads: false });

    let d = match WebpDecoder::new(Vec::new(), header(0, 5, 7, 0)) {
        Ok(d) => d,
        Err(_) => panic!("ok header"),
    };
    assert_eq!(d.color_type(), ColorType::Rgb8);
    assert_eq!(d.channels(), 3);
    let d = d.with_threads(true);
    assert_eq!(d.config(), DecoderConfig { threads: true });
    assert_eq!(d.dimensions(), (5, 7));
}

#[test]
fn decoder_rejects_a_bad_header() {
    match WebpDecoder::new(Vec::new(), header(7, 0, 0, 0)) {
        Err(WebpError::DecoderInit(m)) => assert_eq!(m, "not enough data"),
        _ => panic!("expected decoder init error"),
    }
    match WebpDecoder::new(Vec::new(), header(3, 0, 0, 0)) {
        Err(WebpError::DecoderInit(m)) => assert_eq!(m, "bitstream error"),
        _ => panic!("expected decoder init error"),
    }
}

#[test]
fn prepare_read_checks_the_output_length() {
    let d = match WebpDecoder::new(Vec::new(), header(0, 2, 2, 0)) {
        Ok(d) => d,
        Err(_) => panic!("ok header"),
    };
    match d.prepare_read(5) {
        Err(WebpError::Decode(m)) => assert_eq!(m, "output buffer length 5 does not match expected 12"),
        _ => panic!("expected decode error"),
    }
    match d.prepare_read(12) {
        Ok(job) => assert_eq!(job, DecodeJob { colorspace: 0, stride: 6, size: 12, use_threads: 0 }),
        Err(_) => panic!("expected a job"),
    }
    let d = d.with_threads(true);
    match d.prepare_read(12) {
        Ok(job) => assert_eq!(job.use_threads, 1),
        Err(_) => panic!("expected a job"),
    }
}

#[test]
fn prepare_read_rgba() {
    let d = match WebpDecoder::new(Vec::new(), header(0, 3, 1, 1)) {
        Ok(d) => d,
        Err(_) => panic!("ok header"),
    };
    match d.prepare_read(12) {
        Ok(job) => assert_eq!(job, DecodeJob { colorspace: 1, stride: 12, size: 12, use_threads: 0 }),
        Err(_) => panic!("expected a job"),
    }
}

#[test]
fn finish_read_maps_status() {
    assert!(finish_read(DecodeOutcome::Decoded(0)).is_ok());
    match finish_read(DecodeOutcome::Decoded(3)) {
        Err(WebpError::Decode(m)) => assert_eq!(m, "bitstream error"),
        _ => panic!("expected decode error"),
    }
    match finish_read(DecodeOutcome::InitFailed) {
        Err(WebpError::DecoderInit(m)) => assert_eq!(m, "WebPInitDecoderConfig failed (version mismatch)"),
        _ => panic!("expected init error"),
    }
}

#[test]
fn probe_reads_the_header() {
    match probe(&[0u8; 4], header(0, 640, 480, 0)) {
        Ok(info) => assert_eq!(info, ImageInfo { width: 640, height: 480, color_type: ColorType::Rgb8 }),
        Err(_) => panic!("ok header"),
    }
    match probe(&[0u8; 4], header(0, 1, 2, 1)) {
        Ok(info) => assert_eq!(info.color_type, ColorType::Rgba8),
        Err(_) => panic!("ok header"),
    }
    match probe(&[], header(7, 0, 0, 0)) {
        Err(WebpError::DecoderInit(m)) => assert_eq!(m, "not enough data"),
        _ => panic!("expected an error"),
    }
}

#[test]
fn probe_agrees_with_decoder() {
    let f = header(0, 33, 44, 1);
    let d = match WebpDecoder::new(vec![9], f) {
        Ok(d) => d,
        Err(_) => panic!("ok header"),
    };
    match probe(&[9], f) {
        Ok(info) => assert_eq!(info, ImageInfo::of_decoder(&d)),
        Err(_) => panic!("ok header"),
    }
}
