//! The codec libraries, each behind one function with a stated contract.
//!
//! Nothing in this file is proved: the contracts say what the libraries are
//! taken to do. What a codec produces is far too long to write down, so each
//! result only gets a name; the engine's contracts are stated over those
//! names. A codec's answer depends on what it is handed and on nothing
//! else, so a name holds the whole of it: the value that the codec gives, or
//! nothing where the codec refuses.

use vstd::prelude::*;

verus! {

/// Codecs that the engine can read.
#[derive(Debug, Clone, Copy, PartialEq, Eq, Structural)]
pub enum SourceFormat {
    Png,
    Jpeg,
    WebP,
}

/// A decoded picture: 8-bit RGBA samples, row by row.
#[derive(Debug)]
pub struct Raster {
    pub pixels: Vec<u8>,
    pub width: u32,
    pub height: u32,
}

/// Upper bound of each side of a WebP picture.
pub const WEBP_MAX_DIMENSION: u32 = 16383;

/// The RGBA samples, width and height that decoding `data` as `format`
/// gives; nothing where the decoder refuses the data.
pub uninterp spec fn decoded_rgba(data: Seq<u8>, format: SourceFormat) -> Option<
    (Seq<u8>, nat, nat),
>;

/// The WebP file that encoding RGBA samples gives; nothing where the
/// encoder fails.
pub uninterp spec fn webp_encoded(
    pixels: Seq<u8>,
    width: nat,
    height: nat,
    lossless: bool,
    quality: nat,
) -> Option<Seq<u8>>;

/// The JPEG file that encoding RGB samples gives; nothing where the encoder
/// fails.
pub uninterp spec fn jpeg_encoded(rgb: Seq<u8>, width: nat, height: nat, quality: nat) -> Option<
    Seq<u8>,
>;

/// The PNG file that encoding RGBA samples gives; nothing where the encoder
/// fails.
pub uninterp spec fn png_encoded(rgba: Seq<u8>, width: nat, height: nat) -> Option<Seq<u8>>;

/// The PNG file that optimizing the PNG file `data` gives; nothing where the
/// optimizer refuses the file.
pub uninterp spec fn png_optimized(data: Seq<u8>, preset: nat, optimize_alpha: bool) -> Option<
    Seq<u8>,
>;

/// Calls `image::load_from_memory_with_format` and converts the picture to
/// 8-bit RGBA. Claims that the answer is the one named `decoded_rgba`: the
/// decoded picture, or a failure where the name holds nothing.
#[verifier::external_body]
pub(crate) fn decode_rgba(data: &[u8], format: SourceFormat) -> (r: Result<Raster, String>)
    ensures
        match r {
            Ok(img) => decoded_rgba(data@, format) == Some(
                (img.pixels@, img.width as nat, img.height as nat),
            ),
            Err(_) => decoded_rgba(data@, format) is None,
        },
{
    let kind = match format {
        SourceFormat::Png => ::image::ImageFormat::Png,
        SourceFormat::Jpeg => ::image::ImageFormat::Jpeg,
        SourceFormat::WebP => ::image::ImageFormat::WebP,
    };
    match ::image::load_from_memory_with_format(data, kind) {
        Ok(img) => {
            let rgba = img.to_rgba8();
            let (width, height) = rgba.dimensions();
            Ok(Raster { pixels: rgba.into_raw(), width, height })
        },
        Err(e) => Err(e.to_string()),
    }
}

/// Calls `webp::Encoder::from_rgba` and `encode_simple`. The encoder panics
/// on a buffer shorter than the picture, and computes the stride of a row in
/// 32 bits; so the caller is asked for a buffer that holds the picture and
/// for sides within what WebP allows. Claims that the answer is the one
/// named `webp_encoded`: the encoded file, or a failure where the name holds
/// nothing.
#[verifier::external_body]
pub(crate) fn encode_webp(
    pixels: &[u8],
    width: u32,
    height: u32,
    lossless: bool,
    quality: u8,
) -> (r: Result<Vec<u8>, String>)
    requires
        1 <= width <= WEBP_MAX_DIMENSION,
        1 <= height <= WEBP_MAX_DIMENSION,
        pixels@.len() >= width * height * 4,
    ensures
        match r {
            Ok(out) => webp_encoded(pixels@, width as nat, height as nat, lossless, quality as nat)
                == Some(out@),
            Err(_) => webp_encoded(pixels@, width as nat, height as nat, lossless, quality as nat)
                is None,
        },
{
    match ::webp::Encoder::from_rgba(pixels, width, height).encode_simple(lossless, quality.into()) {
        Ok(memory) => Ok(memory.to_vec()),
        Err(e) => Err(format!("{:?}", e)),
    }
}

/// Calls `JpegEncoder::new_with_quality` and `encode` of the `image` crate on
/// RGB samples. The encoder panics unless the buffer holds exactly the
/// picture: that is asked of the caller. Claims that the answer is the one
/// named `jpeg_encoded`: the encoded file, or a failure where the name holds
/// nothing.
#[verifier::external_body]
pub(crate) fn encode_jpeg(rgb: &[u8], width: u32, height: u32, quality: u8) -> (r: Result<
    Vec<u8>,
    String,
>)
    requires
        width >= 1,
        height >= 1,
        rgb@.len() == width * height * 3,
    ensures
        match r {
            Ok(out) => jpeg_encoded(rgb@, width as nat, height as nat, quality as nat) == Some(
                out@,
            ),
            Err(_) => jpeg_encoded(rgb@, width as nat, height as nat, quality as nat) is None,
        },
{
    let mut out = Vec::new();
    let mut encoder = ::image::codecs::jpeg::JpegEncoder::new_with_quality(&mut out, quality);
    match encoder.encode(rgb, width, height, ::image::ExtendedColorType::Rgb8) {
        Ok(()) => Ok(out),
        Err(e) => Err(e.to_string()),
    }
}

/// Calls `PngEncoder::new` and `write_image` of the `image` crate on RGBA
/// samples. The encoder panics unless the buffer holds exactly the picture:
/// that is asked of the caller. Claims that the answer is the one named
/// `png_encoded`: the encoded file, or a failure where the name holds
/// nothing.
#[verifier::external_body]
pub(crate) fn encode_png(rgba: &[u8], width: u32, height: u32) -> (r: Result<Vec<u8>, String>)
    requires
        width >= 1,
        height >= 1,
        rgba@.len() == width * height * 4,
    ensures
        match r {
            Ok(out) => png_encoded(rgba@, width as nat, height as nat) == Some(out@),
            Err(_) => png_encoded(rgba@, width as nat, height as nat) is None,
        },
{
    let mut out = Vec::new();
    let encoder = ::image::codecs::png::PngEncoder::new(&mut out);
    let color = ::image::ExtendedColorType::Rgba8;
    match ::image::ImageEncoder::write_image(encoder, rgba, width, height, color) {
        Ok(()) => Ok(out),
        Err(e) => Err(e.to_string()),
    }
}

/// Calls `oxipng::Options::from_preset` and `oxipng::optimize_from_memory`.
/// Claims that the answer is the one named `png_optimized`: the optimized
/// file, or a failure where the name holds nothing.
#[verifier::external_body]
pub(crate) fn optimize_png(data: &[u8], preset: u8, optimize_alpha: bool) -> (r: Result<
    Vec<u8>,
    String,
>)
    ensures
        match r {
            Ok(out) => png_optimized(data@, preset as nat, optimize_alpha) == Some(out@),
            Err(_) => png_optimized(data@, preset as nat, optimize_alpha) is None,
        },
{
    let mut options = ::oxipng::Options::from_preset(preset);
    options.optimize_alpha = optimize_alpha;
    match ::oxipng::optimize_from_memory(data, &options) {
        Ok(out) => Ok(out),
        Err(e) => Err(e.to_string()),
    }
}

} // verus!
