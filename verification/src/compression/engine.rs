//! The compression engine: validates settings, routes a request to the codec
//! of its target format, and reports sizes and savings.

use crate::compression::codecs::{
    decode_rgba, decoded_rgba, encode_jpeg, encode_png, encode_webp, jpeg_encoded, optimize_png,
    png_encoded, png_optimized, webp_encoded, Raster, SourceFormat, WEBP_MAX_DIMENSION,
};
use crate::compression::error::CompressionError;
use crate::compression::formats::OutputFormat;
use crate::compression::settings::CompressionSettings;
use crate::compression::stats::{create_stat, spec_size_range, CompressionStat};
use crate::file::path::{extension_of, path_extension};
use crate::fixed::{clamp_i64, savings_percent, savings_percent_micros};
use crate::text::{decimal, decimal_string, join2, lowercase, str_eq, to_lowercase};
use vstd::prelude::*;
use vstd::slice::slice_to_vec;
use vstd::string::*;

verus! {

/// Quality from which a WebP encode is lossless.
pub const LOSSLESS_THRESHOLD: u8 = 90;

/// Effort that the lossless WebP encode is run with.
pub const LOSSLESS_EFFORT: u8 = 75;

/// Optimization level of the PNG pass.
pub const PNG_PRESET: u8 = 3;

/// Result of a compression operation.
#[derive(Debug, Clone)]
pub struct CompressionOutput {
    pub output_path: String,
    pub original_size: u64,
    pub compressed_size: u64,
    pub format: OutputFormat,
    /// Saving in millionths of a percent.
    pub savings_percent: i128,
}

impl CompressionOutput {
    /// Records the sizes of one encode and derives the saving from them.
    pub fn new(
        output_path: String,
        original_size: u64,
        compressed_size: u64,
        format: OutputFormat,
    ) -> (out: CompressionOutput)
        ensures
            out.output_path == output_path,
            out.original_size == original_size,
            out.compressed_size == compressed_size,
            out.format == format,
            out.savings_percent == savings_percent_micros(
                original_size as int,
                compressed_size as int,
            ),
    {
        CompressionOutput {
            output_path,
            original_size,
            compressed_size,
            format,
            savings_percent: savings_percent(original_size, compressed_size),
        }
    }
}

impl SourceFormat {
    /// The codec that a lowercase token names, if the engine reads it.
    pub open spec fn spec_from_lowercase(token: Seq<char>) -> Option<SourceFormat> {
        if token == "png"@ {
            Some(SourceFormat::Png)
        } else if token == "jpg"@ || token == "jpeg"@ {
            Some(SourceFormat::Jpeg)
        } else if token == "webp"@ {
            Some(SourceFormat::WebP)
        } else {
            None
        }
    }

    /// Reads a lowercase token.
    pub fn from_lowercase(token: &str) -> (r: Option<SourceFormat>)
        ensures
            r == Self::spec_from_lowercase(token@),
    {
        if str_eq(token, "png") {
            Some(SourceFormat::Png)
        } else if str_eq(token, "jpg") || str_eq(token, "jpeg") {
            Some(SourceFormat::Jpeg)
        } else if str_eq(token, "webp") {
            Some(SourceFormat::WebP)
        } else {
            None
        }
    }
}

/// Fails with `InvalidSettings` exactly when the quality is outside 1..=100.
pub fn validate_settings(settings: &CompressionSettings) -> (r: Result<(), CompressionError>)
    ensures
        r is Ok <==> settings.spec_is_valid(),
        r matches Err(e) ==> e matches CompressionError::InvalidSettings(msg) && msg@
            == "Invalid quality setting: "@ + decimal(settings.quality as nat),
{
    if !settings.is_valid() {
        let number = decimal_string(settings.quality as u64);
        return Err(
            CompressionError::InvalidSettings(join2("Invalid quality setting: ", number.as_str())),
        );
    }
    Ok(())
}

/// The RGB samples left when the alpha sample of every pixel is dropped.
pub open spec fn without_alpha(rgba: Seq<u8>) -> Seq<u8> {
    Seq::new((rgba.len() / 4 * 3) as nat, |i: int| rgba[i / 3 * 4 + i % 3])
}

/// Flattens RGBA samples to RGB by dropping the alpha sample of every pixel.
pub fn drop_alpha(rgba: &[u8]) -> (rgb: Vec<u8>)
    ensures
        rgb@ == without_alpha(rgba@),
        rgb@.len() == rgba@.len() / 4 * 3,
{
    let len: usize = rgba.len();
    let count: usize = len / 4;
    let mut rgb: Vec<u8> = Vec::new();
    let mut p: usize = 0;
    while p < count
        invariant
            p <= count,
            len == rgba@.len(),
            count == len / 4,
            rgb@.len() == p * 3,
            forall|i: int| 0 <= i < rgb@.len() ==> rgb@[i] == rgba@[i / 3 * 4 + i % 3],
        decreases count - p,
    {
        let base: usize = p * 4;
        let ghost before = rgb@;
        rgb.push(rgba[base]);
        rgb.push(rgba[base + 1]);
        rgb.push(rgba[base + 2]);
        proof {
            assert forall|i: int| 0 <= i < rgb@.len() implies rgb@[i] == rgba@[i / 3 * 4 + i
                % 3] by {
                if i < before.len() {
                    assert(rgb@[i] == before[i]);
                } else {
                    assert(i / 3 == p as int);
                }
            }
        }
        p += 1;
    }
    assert(rgb@ =~= without_alpha(rgba@));
    rgb
}

/// Whether samples, width and height are a picture: the sides are of at
/// least one pixel, and there are exactly four samples to each pixel.
pub open spec fn is_picture(picture: (Seq<u8>, nat, nat)) -> bool {
    &&& picture.1 >= 1
    &&& picture.2 >= 1
    &&& picture.0.len() == picture.1 * picture.2 * 4
}

/// A raster as plain values: samples, width, height.
pub open spec fn picture_of(raster: Raster) -> (Seq<u8>, nat, nat) {
    (raster.pixels@, raster.width as nat, raster.height as nat)
}

/// Whether a raster holds exactly the samples of its picture, and has sides
/// of at least one pixel.
pub open spec fn raster_well_formed(raster: Raster) -> bool {
    is_picture(picture_of(raster))
}

/// Tests `raster_well_formed`.
pub fn is_well_formed(raster: &Raster) -> (b: bool)
    ensures
        b == raster_well_formed(*raster),
{
    if raster.width < 1 || raster.height < 1 {
        return false;
    }
    assert(raster.width * raster.height <= 0xffff_ffff * 0xffff_ffff) by (nonlinear_arith)
        requires
            raster.width <= 0xffff_ffff,
            raster.height <= 0xffff_ffff,
    ;
    let area: u128 = (raster.width as u128) * (raster.height as u128);
    raster.pixels.len() as u128 == area * 4
}

/// Wraps the failure of a codec into `ProcessingError`, with a word on what
/// was being done.
pub fn codec_outcome(result: Result<Vec<u8>, String>, stage: &str) -> (r: Result<
    Vec<u8>,
    CompressionError,
>)
    ensures
        match result {
            Ok(bytes) => r == Ok::<Vec<u8>, CompressionError>(bytes),
            Err(reason) => r matches Err(CompressionError::ProcessingError(msg)) && msg@ == stage@
                + reason@,
        },
{
    match result {
        Ok(bytes) => Ok(bytes),
        Err(reason) => Err(CompressionError::ProcessingError(join2(stage, reason.as_str()))),
    }
}

/// The result of the optimization pass: the optimized file, or the file as
/// it was when the optimizer failed.
pub fn optimized_or_original(original: Vec<u8>, optimized: Result<Vec<u8>, String>) -> (out: Vec<
    u8,
>)
    ensures
        out@ == (match optimized {
            Ok(better) => better@,
            Err(_) => original@,
        }),
{
    match optimized {
        Ok(better) => better,
        Err(_) => original,
    }
}

/// What the WebP policy hands to the encoder for a quality: lossless from
/// the threshold on, with the encoder's fixed effort; lossy below it, at the
/// quality itself.
pub open spec fn webp_mode(quality: u8) -> (bool, nat) {
    if quality >= LOSSLESS_THRESHOLD {
        (true, LOSSLESS_EFFORT as nat)
    } else {
        (false, quality as nat)
    }
}

/// The WebP file that the policy gives for a picture; nothing for what is
/// no picture, for a picture wider or higher than WebP allows, and where the
/// encoder fails.
pub open spec fn webp_of(picture: (Seq<u8>, nat, nat), quality: u8) -> Option<Seq<u8>> {
    if is_picture(picture) && picture.1 <= WEBP_MAX_DIMENSION && picture.2
        <= WEBP_MAX_DIMENSION {
        webp_encoded(picture.0, picture.1, picture.2, webp_mode(quality).0, webp_mode(quality).1)
    } else {
        None
    }
}

/// The JPEG file that the policy gives for a picture: alpha is dropped, then
/// the samples are encoded at the quality. Nothing for what is no picture,
/// and where the encoder fails.
pub open spec fn jpeg_of(picture: (Seq<u8>, nat, nat), quality: u8) -> Option<Seq<u8>> {
    if is_picture(picture) {
        jpeg_encoded(without_alpha(picture.0), picture.1, picture.2, quality as nat)
    } else {
        None
    }
}

/// What the optimization pass gives for a PNG file: the optimized file, or
/// the file itself where the optimizer refuses it.
pub open spec fn png_pass(file: Seq<u8>) -> Seq<u8> {
    match png_optimized(file, PNG_PRESET as nat, false) {
        Some(better) => better,
        None => file,
    }
}

/// The PNG file that the policy gives for a picture: the picture is
/// encoded, and the file goes through the optimization pass. Nothing for
/// what is no picture, and where the encoder fails.
pub open spec fn png_of(picture: (Seq<u8>, nat, nat)) -> Option<Seq<u8>> {
    if is_picture(picture) {
        match png_encoded(picture.0, picture.1, picture.2) {
            Some(file) => Some(png_pass(file)),
            None => None,
        }
    } else {
        None
    }
}

/// Encodes a raster as WebP: lossless for a quality of 90 or more, lossy at
/// the given quality below that. A raster that is not well formed, or wider
/// or higher than WebP allows, is a processing error, and so is a failure
/// of the encoder; every other raster gives its file.
pub fn encode_raster_webp(raster: &Raster, settings: &CompressionSettings) -> (r: Result<
    Vec<u8>,
    CompressionError,
>)
    ensures
        r is Ok <==> webp_of(picture_of(*raster), settings.quality) is Some,
        r matches Ok(out) ==> webp_of(picture_of(*raster), settings.quality) == Some(out@),
        r matches Err(e) ==> e is ProcessingError,
{
    if !is_well_formed(raster) {
        return Err(
            CompressionError::ProcessingError(
                String::from_str("Decoded picture has an unexpected size"),
            ),
        );
    }
    if raster.width > WEBP_MAX_DIMENSION || raster.height > WEBP_MAX_DIMENSION {
        return Err(
            CompressionError::ProcessingError(String::from_str("Picture too large for WebP")),
        );
    }
    let encoded = if settings.quality >= LOSSLESS_THRESHOLD {
        encode_webp(raster.pixels.as_slice(), raster.width, raster.height, true, LOSSLESS_EFFORT)
    } else {
        encode_webp(raster.pixels.as_slice(), raster.width, raster.height, false, settings.quality)
    };
    codec_outcome(encoded, "WebP encoding failed: ")
}

/// Encodes a raster as JPEG at the given quality, after dropping alpha. A
/// raster that is not well formed is a processing error, and so is a
/// failure of the encoder; every other raster gives its file.
pub fn encode_raster_jpeg(raster: &Raster, settings: &CompressionSettings) -> (r: Result<
    Vec<u8>,
    CompressionError,
>)
    ensures
        r is Ok <==> jpeg_of(picture_of(*raster), settings.quality) is Some,
        r matches Ok(out) ==> jpeg_of(picture_of(*raster), settings.quality) == Some(out@),
        r matches Err(e) ==> e is ProcessingError,
{
    if !is_well_formed(raster) {
        return Err(
            CompressionError::ProcessingError(
                String::from_str("Decoded picture has an unexpected size"),
            ),
        );
    }
    let rgb = drop_alpha(raster.pixels.as_slice());
    assert(rgb@.len() == raster.width * raster.height * 3) by (nonlinear_arith)
        requires
            rgb@.len() == raster.pixels@.len() / 4 * 3,
            raster.pixels@.len() == raster.width * raster.height * 4,
    ;
    let encoded = encode_jpeg(rgb.as_slice(), raster.width, raster.height, settings.quality);
    codec_outcome(encoded, "JPEG encoding failed: ")
}

/// Encodes a raster as PNG and runs the optimization pass over the file; a
/// failure of the pass leaves the file as encoded. A raster that is not
/// well formed is a processing error, and so is a failure of the encoder;
/// every other raster gives its file.
pub fn encode_raster_png(raster: &Raster) -> (r: Result<Vec<u8>, CompressionError>)
    ensures
        r is Ok <==> png_of(picture_of(*raster)) is Some,
        r matches Ok(out) ==> png_of(picture_of(*raster)) == Some(out@),
        r matches Err(e) ==> e is ProcessingError,
{
    if !is_well_formed(raster) {
        return Err(
            CompressionError::ProcessingError(
                String::from_str("Decoded picture has an unexpected size"),
            ),
        );
    }
    let encoded = encode_png(raster.pixels.as_slice(), raster.width, raster.height);
    match codec_outcome(encoded, "PNG encoding failed: ") {
        Ok(file) => {
            let optimized = optimize_png(file.as_slice(), PNG_PRESET, false);
            Ok(optimized_or_original(file, optimized))
        },
        Err(e) => Err(e),
    }
}

/// The WebP file that the policy gives for `data`, read as `source`:
/// nothing where the data cannot be decoded or the picture has no WebP file.
pub open spec fn webp_form(data: Seq<u8>, source: SourceFormat, quality: u8) -> Option<Seq<u8>> {
    match decoded_rgba(data, source) {
        Some(picture) => webp_of(picture, quality),
        None => None,
    }
}

/// The JPEG file that the policy gives for `data`, read as `source`:
/// nothing where the data cannot be decoded or the picture has no JPEG
/// file.
pub open spec fn jpeg_form(data: Seq<u8>, source: SourceFormat, quality: u8) -> Option<Seq<u8>> {
    match decoded_rgba(data, source) {
        Some(picture) => jpeg_of(picture, quality),
        None => None,
    }
}

/// The PNG file that the policy gives for `data`, read as `source`: a PNG
/// file goes through the optimization pass as it is, and always has a
/// result; other data is decoded and encoded first, and has none where
/// either fails.
pub open spec fn png_form(data: Seq<u8>, source: SourceFormat) -> Option<Seq<u8>> {
    if source == SourceFormat::Png {
        Some(png_pass(data))
    } else {
        match decoded_rgba(data, source) {
            Some(picture) => png_of(picture),
            None => None,
        }
    }
}

/// What the engine's policy gives for `data`, read as `source`, under
/// `settings`: the file in the target format, or nothing where a codec
/// fails on the way.
pub open spec fn compressed_form(
    data: Seq<u8>,
    source: SourceFormat,
    settings: CompressionSettings,
) -> Option<Seq<u8>> {
    match settings.format {
        OutputFormat::WebP => webp_form(data, source, settings.quality),
        OutputFormat::Jpeg => jpeg_form(data, source, settings.quality),
        OutputFormat::Png => png_form(data, source),
    }
}

/// Decodes a picture; a failure of the decoder is a processing error, and
/// nothing else is.
pub fn decode_source(data: &[u8], source: SourceFormat) -> (r: Result<Raster, CompressionError>)
    ensures
        r is Ok <==> decoded_rgba(data@, source) is Some,
        r matches Ok(raster) ==> decoded_rgba(data@, source) == Some(picture_of(raster)),
        r matches Err(e) ==> e is ProcessingError,
{
    match decode_rgba(data, source) {
        Ok(raster) => Ok(raster),
        Err(reason) => Err(
            CompressionError::ProcessingError(join2("Image decoding failed: ", reason.as_str())),
        ),
    }
}

/// Compresses to WebP: any supported input is decoded, then encoded without
/// loss for a quality of 90 or more, with loss at the given quality below.
pub fn compress_to_webp(data: &[u8], source: SourceFormat, settings: &CompressionSettings) -> (r:
    Result<Vec<u8>, CompressionError>)
    ensures
        r is Ok <==> webp_form(data@, source, settings.quality) is Some,
        r matches Ok(out) ==> webp_form(data@, source, settings.quality) == Some(out@),
        r matches Err(e) ==> e is ProcessingError,
{
    match decode_source(data, source) {
        Ok(raster) => encode_raster_webp(&raster, settings),
        Err(e) => Err(e),
    }
}

/// Compresses to JPEG: any supported input is decoded, alpha is dropped, and
/// the picture is encoded at the requested quality.
pub fn compress_to_jpeg(data: &[u8], source: SourceFormat, settings: &CompressionSettings) -> (r:
    Result<Vec<u8>, CompressionError>)
    ensures
        r is Ok <==> jpeg_form(data@, source, settings.quality) is Some,
        r matches Ok(out) ==> jpeg_form(data@, source, settings.quality) == Some(out@),
        r matches Err(e) ==> e is ProcessingError,
{
    match decode_source(data, source) {
        Ok(raster) => encode_raster_jpeg(&raster, settings),
        Err(e) => Err(e),
    }
}

/// Compresses to PNG. A PNG input goes through the optimization pass as it
/// is, and comes back unchanged when the pass fails: this never fails. Any
/// other input is decoded, encoded as PNG, and then optimized in the same
/// way.
pub fn compress_to_png(data: &[u8], source: SourceFormat) -> (r: Result<
    Vec<u8>,
    CompressionError,
>)
    ensures
        r is Ok <==> png_form(data@, source) is Some,
        r matches Ok(out) ==> png_form(data@, source) == Some(out@),
        r matches Err(e) ==> e is ProcessingError,
        source == SourceFormat::Png ==> r is Ok,
{
    match source {
        SourceFormat::Png => {
            let optimized = optimize_png(data, PNG_PRESET, false);
            let original = slice_to_vec(data);
            Ok(optimized_or_original(original, optimized))
        },
        _ => match decode_source(data, source) {
            Ok(raster) => encode_raster_png(&raster),
            Err(e) => Err(e),
        },
    }
}

/// Whether `r` is the file that the policy gives, or a processing error
/// where it gives none.
pub open spec fn is_codec_outcome(r: Result<Vec<u8>, CompressionError>, file: Option<Seq<u8>>)
    -> bool {
    match file {
        Some(bytes) => r matches Ok(out) && out@ == bytes,
        None => r matches Err(CompressionError::ProcessingError(_)),
    }
}

/// Whether `r` is what the engine makes of a request: invalid settings are
/// refused first; then an input format that the engine does not read,
/// ignoring letter case; every other request gives the file that the policy
/// of the target format gives, and a processing error exactly where a codec
/// fails, which cannot happen where a PNG file is only optimized.
pub open spec fn is_outcome(
    data: Seq<u8>,
    input_format: Seq<char>,
    settings: CompressionSettings,
    r: Result<Vec<u8>, CompressionError>,
) -> bool {
    if !settings.spec_is_valid() {
        r matches Err(CompressionError::InvalidSettings(_))
    } else {
        match SourceFormat::spec_from_lowercase(lowercase(input_format)) {
            None => r matches Err(CompressionError::UnsupportedFormat(_)),
            Some(source) => is_codec_outcome(r, compressed_form(data, source, settings)),
        }
    }
}

/// Compresses a picture held in memory.
///
/// Settings are validated first, then the input format is read from its
/// token, ignoring letter case; then the request goes to the codec of the
/// target format.
pub fn compress_bytes(data: &[u8], input_format: &str, settings: &CompressionSettings) -> (r:
    Result<Vec<u8>, CompressionError>)
    ensures
        is_outcome(data@, input_format@, *settings, r),
{
    match validate_settings(settings) {
        Ok(()) => {},
        Err(e) => {
            return Err(e);
        },
    }
    let lower = to_lowercase(input_format);
    let source = match SourceFormat::from_lowercase(lower.as_str()) {
        Some(source) => source,
        None => {
            return Err(
                CompressionError::UnsupportedFormat(join2("Unsupported input format: ", input_format)),
            );
        },
    };
    compress_supported(data, source, settings)
}

/// Compresses several pictures with the same settings, one after the
/// other in the order given; the failure of one does not keep the others
/// from being compressed.
pub fn compress_batch(pictures: &Vec<(Vec<u8>, String)>, settings: &CompressionSettings) -> (results:
    Vec<Result<Vec<u8>, CompressionError>>)
    ensures
        results@.len() == pictures@.len(),
        forall|i: int|
            0 <= i < pictures@.len() ==> is_outcome(
                pictures@[i].0@,
                pictures@[i].1@,
                *settings,
                #[trigger] results@[i],
            ),
{
    let mut results: Vec<Result<Vec<u8>, CompressionError>> = Vec::new();
    let mut k: usize = 0;
    while k < pictures.len()
        invariant
            k <= pictures@.len(),
            results@.len() == k,
            forall|i: int|
                0 <= i < k ==> is_outcome(
                    pictures@[i].0@,
                    pictures@[i].1@,
                    *settings,
                    #[trigger] results@[i],
                ),
        decreases pictures@.len() - k,
    {
        let picture = &pictures[k];
        let result = compress_bytes(picture.0.as_slice(), picture.1.as_str(), settings);
        results.push(result);
        k += 1;
    }
    results
}

/// Compresses a picture held in memory and reports on the outcome: the
/// bytes are those that `compress_bytes` gives, and the report holds the
/// place they are meant for, the sizes of input and output, the target
/// format, and the saving that follows from the sizes.
pub fn compress(
    data: &[u8],
    input_format: &str,
    settings: &CompressionSettings,
    output_path: String,
) -> (r: Result<(Vec<u8>, CompressionOutput), CompressionError>)
    ensures
        !settings.spec_is_valid() ==> r matches Err(CompressionError::InvalidSettings(_)),
        settings.spec_is_valid() ==> match SourceFormat::spec_from_lowercase(
            lowercase(input_format@),
        ) {
            None => r matches Err(CompressionError::UnsupportedFormat(_)),
            Some(source) => match compressed_form(data@, source, *settings) {
                Some(file) => r matches Ok((bytes, output)) && {
                    &&& bytes@ == file
                    &&& output.output_path == output_path
                    &&& output.original_size == data@.len()
                    &&& output.compressed_size == file.len()
                    &&& output.format == settings.format
                    &&& output.savings_percent == savings_percent_micros(
                        data@.len() as int,
                        file.len() as int,
                    )
                },
                None => r matches Err(CompressionError::ProcessingError(_)),
            },
        },
{
    match compress_bytes(data, input_format, settings) {
        Ok(bytes) => {
            let output = CompressionOutput::new(
                output_path,
                data.len() as u64,
                bytes.len() as u64,
                settings.format,
            );
            Ok((bytes, output))
        },
        Err(e) => Err(e),
    }
}

/// Compresses the content of a file: the input format is the extension of
/// the file's path. Settings are validated first; a path without an
/// extension is refused with `UnsupportedFormat`; everything else is as
/// `compress_bytes` says.
pub fn compress_file_content(data: &[u8], input_path: &str, settings: &CompressionSettings) -> (r:
    Result<Vec<u8>, CompressionError>)
    ensures
        !settings.spec_is_valid() ==> r matches Err(CompressionError::InvalidSettings(_)),
        settings.spec_is_valid() ==> match path_extension(input_path@) {
            None => r matches Err(CompressionError::UnsupportedFormat(_)),
            Some(extension) => match SourceFormat::spec_from_lowercase(lowercase(extension)) {
                None => r matches Err(CompressionError::UnsupportedFormat(_)),
                Some(source) => is_codec_outcome(r, compressed_form(data@, source, *settings)),
            },
        },
{
    match validate_settings(settings) {
        Ok(()) => {},
        Err(e) => {
            return Err(e);
        },
    }
    match extension_of(input_path) {
        Some(extension) => compress_bytes(data, extension.as_str(), settings),
        None => Err(CompressionError::UnsupportedFormat(String::from_str("No file extension"))),
    }
}

/// Routes a request whose input format is known to the codec of the target
/// format. The quality is not validated here.
pub fn compress_supported(
    data: &[u8],
    source: SourceFormat,
    settings: &CompressionSettings,
) -> (r: Result<Vec<u8>, CompressionError>)
    ensures
        is_codec_outcome(r, compressed_form(data@, source, *settings)),
        r is Ok <==> compressed_form(data@, source, *settings) is Some,
        source == SourceFormat::Png && settings.format == OutputFormat::Png ==> r is Ok,
{
    match settings.format {
        OutputFormat::WebP => compress_to_webp(data, source, settings),
        OutputFormat::Png => compress_to_png(data, source),
        OutputFormat::Jpeg => compress_to_jpeg(data, source, settings),
    }
}

/// Creates the observation that records the outcome of a compression: the
/// input format as given, the output format by its lowercase token, and
/// sizes, size range, quality and lossy flag as `records` says.
pub fn create_compression_stat(
    input_format: &str,
    output: &CompressionOutput,
    settings: &CompressionSettings,
) -> (stat: CompressionStat)
    ensures
        stat.input_format@ == input_format@,
        stat.output_format@ == output.format.spec_token(),
        stat.original_size == output.original_size,
        stat.compressed_size == output.compressed_size,
        stat.input_size_range@ == spec_size_range(output.original_size),
        stat.quality_setting == settings.quality,
        stat.lossy_mode == (settings.quality < LOSSLESS_THRESHOLD),
        stat.size_reduction_percent == clamp_i64(
            savings_percent_micros(output.original_size as int, output.compressed_size as int),
        ),
        stat.id is None,
        stat.compression_time_ms is None,
{
    create_stat(
        String::from_str(input_format),
        String::from_str(output.format.token()),
        output.original_size,
        output.compressed_size,
        settings,
    )
}

/// The saving of an output is zero for an empty original, and otherwise
/// the quotient of the saved bytes and the original size, times one
/// hundred, in millionths of a percent: no more than the quotient, and less
/// than one millionth below it.
pub proof fn lemma_savings_formula(original_size: u64, compressed_size: u64)
    ensures
        original_size == 0 ==> savings_percent_micros(
            original_size as int,
            compressed_size as int,
        ) == 0,
        original_size > 0 ==> savings_percent_micros(original_size as int, compressed_size as int)
            * original_size <= (original_size - compressed_size) * 100_000_000
            < (savings_percent_micros(original_size as int, compressed_size as int) + 1)
            * original_size,
        compressed_size == original_size ==> savings_percent_micros(
            original_size as int,
            compressed_size as int,
        ) == 0,
        compressed_size <= original_size ==> 0 <= savings_percent_micros(
            original_size as int,
            compressed_size as int,
        ) <= 100_000_000,
{
    if original_size > 0 {
        let o = original_size as int;
        let n = (original_size - compressed_size) * 100_000_000;
        assert((n / o) * o <= n < (n / o + 1) * o) by (nonlinear_arith)
            requires
                o > 0,
        ;
        if compressed_size <= original_size {
            assert(0 <= n / o <= 100_000_000) by (nonlinear_arith)
                requires
                    o > 0,
                    0 <= n <= o * 100_000_000,
            ;
        }
        if compressed_size == original_size {
            assert(0int / o == 0) by (nonlinear_arith)
                requires
                    o > 0,
            ;
        }
    }
}

/// The WebP policy reads the quality only to choose the mode: from the
/// threshold on, every quality gives the same lossless file, and fails on
/// the same data.
pub proof fn lemma_lossless_webp_ignores_quality(
    data: Seq<u8>,
    source: SourceFormat,
    first: CompressionSettings,
    second: CompressionSettings,
)
    requires
        first.format == OutputFormat::WebP,
        second.format == OutputFormat::WebP,
        first.quality >= LOSSLESS_THRESHOLD,
        second.quality >= LOSSLESS_THRESHOLD,
    ensures
        webp_mode(first.quality).0,
        compressed_form(data, source, first) == compressed_form(data, source, second),
{
}

/// A request succeeds exactly where the data can be decoded, the picture is
/// one that the target format can hold, and the encoder of that format does
/// not fail on it; a PNG file that is only optimized always succeeds.
pub proof fn lemma_when_compression_succeeds(
    data: Seq<u8>,
    source: SourceFormat,
    settings: CompressionSettings,
)
    ensures
        settings.format == OutputFormat::Png && source == SourceFormat::Png ==> compressed_form(
            data,
            source,
            settings,
        ) is Some,
        settings.format == OutputFormat::WebP ==> (compressed_form(data, source, settings) is Some
            <==> (decoded_rgba(data, source) matches Some(picture) && is_picture(picture)
            && picture.1 <= WEBP_MAX_DIMENSION && picture.2 <= WEBP_MAX_DIMENSION && webp_encoded(
            picture.0,
            picture.1,
            picture.2,
            webp_mode(settings.quality).0,
            webp_mode(settings.quality).1,
        ) is Some)),
        settings.format == OutputFormat::Jpeg ==> (compressed_form(data, source, settings) is Some
            <==> (decoded_rgba(data, source) matches Some(picture) && is_picture(picture)
            && jpeg_encoded(
            without_alpha(picture.0),
            picture.1,
            picture.2,
            settings.quality as nat,
        ) is Some)),
        settings.format == OutputFormat::Png && source != SourceFormat::Png ==> (compressed_form(
            data,
            source,
            settings,
        ) is Some <==> (decoded_rgba(data, source) matches Some(picture) && is_picture(picture)
            && png_encoded(picture.0, picture.1, picture.2) is Some)),
{
}

} // verus!
