# webp

Encode and decode WebP images through libwebp.

- `src/` is the verified library (Verus). It holds every decision around the
  libwebp calls: the encoder and decoder configurations and builders, the pixel
  layouts libwebp accepts, grayscale expansion, input and output buffer checks,
  the settings and strides handed to libwebp, and the mapping of libwebp's status
  and error codes to results and messages. `src/laws.rs` states the properties
  that span functions.
- `app/` runs libwebp (through `libwebp-sys`; its API is `unsafe` C and takes an
  `f32` quality), reads and writes bytes, and implements the `image` crate's
  `ImageEncoder` / `ImageDecoder` traits on copies of the library's encoder and
  decoder, plus the `DynamicImage` conveniences `encode`, `encode_buffer`,
  `decode` and `probe`.
