//! Encoder configuration, builder, layouts, grayscale expansion and the mapping of
//! libwebp's outcome.

use webp::{
    expand_gray, finish_encode, layout_for, EncodeError, EncodeOutcome, EncoderConfig,
    ExtendedColorType, Layout, LibwebpSettings, WebpEncoder, WebpError,
};

#[test]
fn default_config_matches_libwebp_defaults() {
    let c = EncoderConfig::default();
    assert_eq!(c.quality, 75);
    assert_eq!(c.quality_alpha, 100);
    assert_eq!(c.compression, 4);
    assert!(!c.lossless);
    assert!(!c.threads);
}

#[test]
fn builders_set_one_field_each() {
    let mut out: Vec<u8> = Vec::new();
    let e = WebpEncoder::new(&mut out).with_quality(20).with_compression(6);
    assert_eq!(
        *e.config(),
        EncoderConfig { quality: 20, quality_alpha: 100, compression: 6, lossless: false, threads: false }
    );
    let e = e.with_quality_alpha(30).with_lossless(true).with_threads(true);
    assert_eq!(
        *e.config(),
        EncoderConfig { quality: 20, quality_alpha: 30, compression: 6, lossless: true, threads: true }
    );
    let (w, c) = e.into_parts();
    w.push(7);
    assert_eq!(c.quality, 20);
    assert_eq!(out, vec![7]);
}

#[test]
fn new_with_config_keeps_the_config() {
    let cfg = EncoderConfig { quality: 1, quality_alpha: 2, compression: 3, lossless: true, threads: false };
    let e = WebpEncoder::new_with_config(Vec::<u8>::new(), cfg);
    assert_eq!(*e.config(), cfg);
}

#[test]
fn layouts_of_supported_types() {
    assert_eq!(
        layout_for(ExtendedColorType::L8),
        Some(Layout { src_channels: 1, rgb_channels: 3, gray: true, alpha: false })
    );
    assert_eq!(
        layout_for(ExtendedColorType::La8),
        Some(Layout { src_channels: 2, rgb_channels: 4, gray: true, alpha: true })
    );
    assert_eq!(
        layout_for(ExtendedColorType::Rgb8),
        Some(Layout { src_channels: 3, rgb_channels: 3, gray: false, alpha: false })
    );
    assert_eq!(
        layout_for(ExtendedColorType::Rgba8),
        Some(Layout { src_channels: 4, rgb_channels: 4, gray: false, alpha: true })
    );
    assert_eq!(layout_for(ExtendedColorType::Rgb16), None);
    assert_eq!(layout_for(ExtendedColorType::Bgra8), None);
}

#[test]
fn expand_gray_replicates_luma() {
    assert_eq!(expand_gray(&[10, 20], false), vec![10, 10, 10, 20, 20, 20]);
    assert_eq!(expand_gray(&[10, 200, 20, 100], true), vec![10, 10, 10, 200, 20, 20, 20, 100]);
    // A trailing partial pixel is dropped.
    assert_eq!(expand_gray(&[5, 6, 7], true), vec![5, 5, 5, 6]);
    assert_eq!(expand_gray(&[], false), Vec::<u8>::new());
}

#[test]
fn prepare_borrows_rgb_pixels() {
    let cfg = EncoderConfig { quality: 80, quality_alpha: 90, compression: 6, lossless: true, threads: true };
    let buf = [1u8, 2, 3, 4, 5, 6];
    let job = match cfg.prepare(&buf, 2, 1, ExtendedColorType::Rgb8) {
        Ok(j) => j,
        Err(_) => panic!("valid input"),
    };
    assert_eq!(job.pixels.as_bytes(), &buf[..]);
    assert_eq!((job.width, job.height, job.stride, job.alpha), (2, 1, 6, false));
    assert_eq!(
        job.settings,
        LibwebpSettings { quality: 80, alpha_quality: 90, method: 6, lossless: 1, thread_level: 1 }
    );
    assert_eq!(cfg.libwebp_settings(), job.settings);
}

#[test]
fn prepare_expands_grayscale() {
    let cfg = EncoderConfig::default();
    let job = match cfg.prepare(&[9, 8], 1, 2, ExtendedColorType::L8) {
        Ok(j) => j,
        Err(_) => panic!("valid input"),
    };
    assert_eq!(job.pixels.as_bytes(), &[9, 9, 9, 8, 8, 8][..]);
    assert_eq!((job.width, job.height, job.stride, job.alpha), (1, 2, 3, false));
    assert_eq!(
        job.settings,
        LibwebpSettings { quality: 75, alpha_quality: 100, method: 4, lossless: 0, thread_level: 0 }
    );

    let job = match cfg.prepare(&[9, 1, 8, 2], 2, 1, ExtendedColorType::La8) {
        Ok(j) => j,
        Err(_) => panic!("valid input"),
    };
    assert_eq!(job.pixels.as_bytes(), &[9, 9, 9, 1, 8, 8, 8, 2][..]);
    assert_eq!((job.width, job.height, job.stride, job.alpha), (2, 1, 8, true));
}

#[test]
fn prepare_rgba_job() {
    let cfg = EncoderConfig::default();
    let buf = [0u8; 16];
    let job = match cfg.prepare(&buf, 2, 2, ExtendedColorType::Rgba8) {
        Ok(j) => j,
        Err(_) => panic!("valid input"),
    };
    assert_eq!((job.width, job.height, job.stride, job.alpha), (2, 2, 8, true));
    assert_eq!(job.pixels.as_bytes().len(), 16);
}

fn encode_message(outcome: EncodeOutcome) -> String {
    match finish_encode(outcome) {
        Err(EncodeError::Webp(WebpError::EncoderInit(m))) => format!("init: {m}"),
        Err(EncodeError::Webp(WebpError::Encode(m))) => format!("encode: {m}"),
        _ => panic!("expected a failure"),
    }
}

#[test]
fn finish_encode_maps_each_outcome() {
    match finish_encode(EncodeOutcome::Encoded(vec![1, 2, 3])) {
        Ok(v) => assert_eq!(v, vec![1, 2, 3]),
        Err(_) => panic!("expected bytes"),
    }
    assert_eq!(encode_message(EncodeOutcome::ConfigInitFailed), "init: WebPConfigInit failed (version mismatch)");
    assert_eq!(encode_message(EncodeOutcome::InvalidConfig), "init: invalid encoder configuration");
    assert_eq!(encode_message(EncodeOutcome::PictureInitFailed), "init: WebPPictureInit failed (version mismatch)");
    assert_eq!(encode_message(EncodeOutcome::ImportFailed), "encode: failed to import pixels (out of memory?)");
    assert_eq!(encode_message(EncodeOutcome::EncodeFailed(5)), "encode: bad dimension (max 16383x16383)");
    assert_eq!(encode_message(EncodeOutcome::EncodeFailed(99)), "encode: unknown encode error");
}
