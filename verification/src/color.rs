//! Pixel color types, as the `image` crate names them.
use vstd::prelude::*;

verus! {

/// Color type of a decoded image: 8-bit, 16-bit and float variants.
#[derive(Clone, Copy, Debug, PartialEq, Eq, Structural)]
pub enum ColorType {
    L8,
    La8,
    Rgb8,
    Rgba8,
    L16,
    La16,
    Rgb16,
    Rgba16,
    Rgb32F,
    Rgba32F,
}

/// Color type of a pixel buffer handed to an encoder.
#[derive(Clone, Copy, Debug, PartialEq, Eq, Structural)]
pub enum ExtendedColorType {
    A8,
    L1,
    La1,
    Rgb1,
    Rgba1,
    L2,
    La2,
    Rgb2,
    Rgba2,
    L4,
    La4,
    Rgb4,
    Rgba4,
    Rgb5x1,
    L8,
    La8,
    Rgb8,
    Rgba8,
    L16,
    La16,
    Rgb16,
    Rgba16,
    Bgr8,
    Bgra8,
    Rgb32F,
    Rgba32F,
    Cmyk8,
    Cmyk16,
    Unknown(u8),
}

} // verus!
