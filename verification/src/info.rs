//! Image metadata read from the bitstream header alone.
use vstd::prelude::*;

use crate::color::ColorType;
use crate::decoder::{color_of, Features, WebpDecoder};
use crate::error::WebpError;
use crate::messages::{status_text, VP8_STATUS_OK};

verus! {

/// Metadata describing a WebP image, without decoding its pixels. WebP is always
/// 8 bits per channel, so the color type alone describes the sample layout.
#[derive(Clone, Copy, Debug, PartialEq, Eq, Structural)]
pub struct ImageInfo {
    pub width: u32,
    pub height: u32,
    pub color_type: ColorType,
}

/// The metadata of a header that libwebp read successfully.
pub open spec fn info_of(features: Features) -> ImageInfo {
    ImageInfo {
        width: features.width as u32,
        height: features.height as u32,
        color_type: color_of(features.has_alpha != 0),
    }
}

impl ImageInfo {
    /// The metadata a decoder knows before decoding pixels.
    pub fn of_decoder(decoder: &WebpDecoder) -> (r: ImageInfo)
        ensures
            r == (ImageInfo {
                width: decoder.spec_width(),
                height: decoder.spec_height(),
                color_type: color_of(decoder.spec_alpha()),
            }),
    {
        let (width, height) = decoder.dimensions();
        ImageInfo { width, height, color_type: decoder.color_type() }
    }
}

/// Reads only the image header of `data`, which libwebp described as `features`:
/// fails with the status message when the header could not be read.
pub fn probe(data: &[u8], features: Features) -> (r: Result<ImageInfo, WebpError>)
    ensures
        features.status != VP8_STATUS_OK ==> (r matches Err(WebpError::DecoderInit(m))
            && m@ == status_text(features.status)),
        features.status == VP8_STATUS_OK ==> r == Ok::<ImageInfo, WebpError>(info_of(features)),
{
    let decoder = WebpDecoder::new(vstd::slice::slice_to_vec(data), features)?;
    Ok(ImageInfo::of_decoder(&decoder))
}

} // verus!
