//! Compressors behind one interface, and a registry that routes requests
//! to them by target format.

use crate::compression::codecs::SourceFormat;
use crate::compression::engine::{compress_supported, compressed_form};
use crate::compression::error::CompressionError;
use crate::compression::formats::OutputFormat;
use crate::compression::settings::{clamp_quality, CompressionSettings};
use crate::file::path::{
    directory_of, file_stem_of, join_paths, parent_of, path_file_stem, path_joined,
};
use crate::fixed::{savings_percent, savings_percent_micros};
use crate::text::join2;
use vstd::prelude::*;
use vstd::string::*;

verus! {

/// The outcome of compressing a picture held in memory.
#[derive(Debug, Clone)]
pub struct CompressionOutput {
    pub compressed_data: Vec<u8>,
    pub original_size: u64,
    pub compressed_size: u64,
    /// Saving in millionths of a percent.
    pub savings_percent: i128,
}

impl CompressionOutput {
    /// Whether the sizes and the saving are those of the data.
    pub open spec fn describes(self, original: Seq<u8>) -> bool {
        &&& self.original_size == original.len()
        &&& self.compressed_size == self.compressed_data@.len()
        &&& self.savings_percent == savings_percent_micros(
            original.len() as int,
            self.compressed_data@.len() as int,
        )
    }

    /// Measures compressed data against the data it came from.
    pub fn new(original_data: &[u8], compressed_data: Vec<u8>) -> (out: CompressionOutput)
        ensures
            out.compressed_data == compressed_data,
            out.describes(original_data@),
    {
        let original_size = original_data.len() as u64;
        let compressed_size = compressed_data.len() as u64;
        CompressionOutput {
            compressed_data,
            original_size,
            compressed_size,
            savings_percent: savings_percent(original_size, compressed_size),
        }
    }
}

/// Whether data begins with given bytes.
pub open spec fn begins_with(data: Seq<u8>, prefix: Seq<u8>) -> bool {
    prefix.len() <= data.len() && data.subrange(0, prefix.len() as int) == prefix
}

/// The codec whose signature the data begins with, if it is at least eight
/// bytes long and begins with one: the eight bytes of PNG, the three bytes
/// FF D8 FF of JPEG, or "RIFF", four bytes of length, and "WEBP".
pub open spec fn signature_of(data: Seq<u8>) -> Option<SourceFormat> {
    if data.len() < 8 {
        None
    } else if begins_with(
        data,
        seq![0x89u8, 0x50u8, 0x4Eu8, 0x47u8, 0x0Du8, 0x0Au8, 0x1Au8, 0x0Au8],
    ) {
        Some(SourceFormat::Png)
    } else if begins_with(data, seq![0xFFu8, 0xD8u8, 0xFFu8]) {
        Some(SourceFormat::Jpeg)
    } else if data.len() >= 12 && begins_with(data, seq![0x52u8, 0x49u8, 0x46u8, 0x46u8])
        && data.subrange(8, 12) == seq![0x57u8, 0x45u8, 0x42u8, 0x50u8] {
        Some(SourceFormat::WebP)
    } else {
        None
    }
}

/// Reads the codec of a picture from the signature it begins with.
pub fn detect_source(data: &[u8]) -> (r: Option<SourceFormat>)
    ensures
        r == signature_of(data@),
{
    if data.len() < 8 {
        return None;
    }
    let png = data[0] == 0x89 && data[1] == 0x50 && data[2] == 0x4E && data[3] == 0x47 && data[4]
        == 0x0D && data[5] == 0x0A && data[6] == 0x1A && data[7] == 0x0A;
    proof {
        let signature = seq![0x89u8, 0x50u8, 0x4Eu8, 0x47u8, 0x0Du8, 0x0Au8, 0x1Au8, 0x0Au8];
        let head = data@.subrange(0, 8);
        if png {
            assert(head =~= signature);
        } else {
            assert(head[0] == data@[0] && head[1] == data@[1] && head[2] == data@[2] && head[3]
                == data@[3] && head[4] == data@[4] && head[5] == data@[5] && head[6] == data@[6]
                && head[7] == data@[7]);
            assert(signature[0] == 0x89 && signature[1] == 0x50 && signature[2] == 0x4E
                && signature[3] == 0x47 && signature[4] == 0x0D && signature[5] == 0x0A
                && signature[6] == 0x1A && signature[7] == 0x0A);
        }
    }
    if png {
        return Some(SourceFormat::Png);
    }
    let jpeg = data[0] == 0xFF && data[1] == 0xD8 && data[2] == 0xFF;
    proof {
        let signature = seq![0xFFu8, 0xD8u8, 0xFFu8];
        let head = data@.subrange(0, 3);
        if jpeg {
            assert(head =~= signature);
        } else {
            assert(head[0] == data@[0] && head[1] == data@[1] && head[2] == data@[2]);
            assert(signature[0] == 0xFF && signature[1] == 0xD8 && signature[2] == 0xFF);
        }
    }
    if jpeg {
        return Some(SourceFormat::Jpeg);
    }
    if data.len() < 12 {
        return None;
    }
    let riff = data[0] == 0x52 && data[1] == 0x49 && data[2] == 0x46 && data[3] == 0x46;
    let webp = data[8] == 0x57 && data[9] == 0x45 && data[10] == 0x42 && data[11] == 0x50;
    proof {
        let first = seq![0x52u8, 0x49u8, 0x46u8, 0x46u8];
        let second = seq![0x57u8, 0x45u8, 0x42u8, 0x50u8];
        let head = data@.subrange(0, 4);
        let tail = data@.subrange(8, 12);
        if riff {
            assert(head =~= first);
        } else {
            assert(head[0] == data@[0] && head[1] == data@[1] && head[2] == data@[2] && head[3]
                == data@[3]);
            assert(first[0] == 0x52 && first[1] == 0x49 && first[2] == 0x46 && first[3] == 0x46);
        }
        if webp {
            assert(tail =~= second);
        } else {
            assert(tail[0] == data@[8] && tail[1] == data@[9] && tail[2] == data@[10] && tail[3]
                == data@[11]);
            assert(second[0] == 0x57 && second[1] == 0x45 && second[2] == 0x42 && second[3]
                == 0x50);
        }
    }
    if riff && webp {
        Some(SourceFormat::WebP)
    } else {
        None
    }
}

/// The name under which `detect_format` reports a codec.
pub open spec fn signature_name(source: SourceFormat) -> Seq<char> {
    match source {
        SourceFormat::Png => "PNG"@,
        SourceFormat::Jpeg => "JPEG"@,
        SourceFormat::WebP => "WEBP"@,
    }
}

/// What a compressor of a target format makes of a request: a request for
/// another format is refused as unsupported; data without a known signature
/// and settings with a quality outside 1..=100 are refused too; every other
/// request gives the file that the engine's policy gives, measured against
/// the input, and a processing error exactly where the policy gives none
/// because a codec fails.
pub open spec fn compressor_outcome(
    target: OutputFormat,
    data: Seq<u8>,
    settings: CompressionSettings,
    r: Result<CompressionOutput, CompressionError>,
) -> bool {
    if settings.format != target {
        r matches Err(CompressionError::UnsupportedFormat(_))
    } else if !settings.spec_is_valid() {
        r matches Err(CompressionError::InvalidSettings(_))
    } else {
        match signature_of(data) {
            None => r matches Err(CompressionError::ProcessingError(_)),
            Some(source) => match compressed_form(data, source, settings) {
                Some(file) => r matches Ok(out) && out.compressed_data@ == file && out.describes(
                    data,
                ),
                None => r matches Err(CompressionError::ProcessingError(_)),
            },
        }
    }
}

/// Something that compresses pictures to one target format.
pub trait ImageCompressor {
    /// Compresses a picture held in memory. An output is measured against
    /// the input.
    fn compress(&self, data: &[u8], settings: &CompressionSettings) -> (r: Result<
        CompressionOutput,
        CompressionError,
    >)
        ensures
            r matches Ok(out) ==> out.describes(data@),
    ;

    /// Whether the compressor produces a format.
    fn supports_format(&self, format: OutputFormat) -> (b: bool);
}

/// Compresses for a target format as the engine's policy says.
pub fn compress_for(target: OutputFormat, data: &[u8], settings: &CompressionSettings) -> (r:
    Result<CompressionOutput, CompressionError>)
    ensures
        compressor_outcome(target, data@, *settings, r),
{
    if settings.format != target {
        return Err(
            CompressionError::UnsupportedFormat(
                join2("This compressor only produces ", target.name()),
            ),
        );
    }
    if !settings.is_valid() {
        return Err(CompressionError::InvalidSettings(String::from_str("Invalid quality setting")));
    }
    let source = match detect_source(data) {
        Some(source) => source,
        None => {
            return Err(CompressionError::ProcessingError(String::from_str("Invalid image data")));
        },
    };
    match compress_supported(data, source, settings) {
        Ok(compressed) => Ok(CompressionOutput::new(data, compressed)),
        Err(e) => Err(e),
    }
}

/// Compressor that produces JPEG.
#[derive(Debug, Clone, Copy, Default)]
pub struct JpegCompressor;

/// Compressor that produces optimized PNG.
#[derive(Debug, Clone, Copy, Default)]
pub struct OxipngCompressor;

/// Compressor that produces WebP.
#[derive(Debug, Clone, Copy, Default)]
pub struct WebpCompressor;

impl ImageCompressor for JpegCompressor {
    /// Compresses to the compressor's format as the engine's policy says; a
    /// request for another format is refused as unsupported.
    fn compress(&self, data: &[u8], settings: &CompressionSettings) -> (r: Result<
        CompressionOutput,
        CompressionError,
    >)
        ensures
            compressor_outcome(OutputFormat::Jpeg, data@, *settings, r),
    {
        compress_for(OutputFormat::Jpeg, data, settings)
    }

    fn supports_format(&self, format: OutputFormat) -> (b: bool)
        ensures
            b == (format == OutputFormat::Jpeg),
    {
        format == OutputFormat::Jpeg
    }
}

impl ImageCompressor for OxipngCompressor {
    /// Compresses to the compressor's format as the engine's policy says; a
    /// request for another format is refused as unsupported.
    fn compress(&self, data: &[u8], settings: &CompressionSettings) -> (r: Result<
        CompressionOutput,
        CompressionError,
    >)
        ensures
            compressor_outcome(OutputFormat::Png, data@, *settings, r),
    {
        compress_for(OutputFormat::Png, data, settings)
    }

    fn supports_format(&self, format: OutputFormat) -> (b: bool)
        ensures
            b == (format == OutputFormat::Png),
    {
        format == OutputFormat::Png
    }
}

impl ImageCompressor for WebpCompressor {
    /// Compresses to the compressor's format as the engine's policy says; a
    /// request for another format is refused as unsupported.
    fn compress(&self, data: &[u8], settings: &CompressionSettings) -> (r: Result<
        CompressionOutput,
        CompressionError,
    >)
        ensures
            compressor_outcome(OutputFormat::WebP, data@, *settings, r),
    {
        compress_for(OutputFormat::WebP, data, settings)
    }

    fn supports_format(&self, format: OutputFormat) -> (b: bool)
        ensures
            b == (format == OutputFormat::WebP),
    {
        format == OutputFormat::WebP
    }
}

/// The compressors that come with the library, as one type.
#[derive(Debug, Clone, Copy)]
pub enum BuiltinCompressor {
    Png(OxipngCompressor),
    Jpeg(JpegCompressor),
    WebP(WebpCompressor),
}

impl BuiltinCompressor {
    /// The format that the compressor produces.
    pub open spec fn target_format(&self) -> OutputFormat {
        match self {
            BuiltinCompressor::Png(_) => OutputFormat::Png,
            BuiltinCompressor::Jpeg(_) => OutputFormat::Jpeg,
            BuiltinCompressor::WebP(_) => OutputFormat::WebP,
        }
    }
}

impl ImageCompressor for BuiltinCompressor {
    /// Compresses with the compressor held.
    fn compress(&self, data: &[u8], settings: &CompressionSettings) -> (r: Result<
        CompressionOutput,
        CompressionError,
    >)
        ensures
            compressor_outcome(self.target_format(), data@, *settings, r),
    {
        match self {
            BuiltinCompressor::Png(c) => c.compress(data, settings),
            BuiltinCompressor::Jpeg(c) => c.compress(data, settings),
            BuiltinCompressor::WebP(c) => c.compress(data, settings),
        }
    }

    fn supports_format(&self, format: OutputFormat) -> (b: bool)
        ensures
            b == (format == self.target_format()),
    {
        match self {
            BuiltinCompressor::Png(c) => c.supports_format(format),
            BuiltinCompressor::Jpeg(c) => c.supports_format(format),
            BuiltinCompressor::WebP(c) => c.supports_format(format),
        }
    }
}

/// A registry of compressors by the format they were registered for.
pub struct CompressionService<C> {
    pub compressors: Vec<(OutputFormat, C)>,
}

/// The position of the entry that answers for a format: the last one
/// registered for it.
pub open spec fn registered_at<C>(entries: Seq<(OutputFormat, C)>, format: OutputFormat) -> Option<
    int,
>
    decreases entries.len(),
{
    if entries.len() == 0 {
        None
    } else if entries.last().0 == format {
        Some(entries.len() - 1)
    } else {
        registered_at(entries.drop_last(), format)
    }
}

/// A position found by `registered_at` lies within the entries and holds
/// the format.
pub proof fn lemma_registered_at<C>(entries: Seq<(OutputFormat, C)>, format: OutputFormat)
    ensures
        registered_at(entries, format) matches Some(i) ==> 0 <= i < entries.len() && entries[i].0
            == format,
    decreases entries.len(),
{
    if entries.len() > 0 && entries.last().0 != format {
        lemma_registered_at(entries.drop_last(), format);
    }
}

impl<C: ImageCompressor> CompressionService<C> {
    /// Whether `r` is what the registry answers to a request: where no
    /// compressor answers for the format of the settings, or the one that
    /// does says that it does not produce the format, the request is
    /// refused as unsupported; else `r` is a result of that compressor on
    /// the request.
    pub open spec fn answers(
        &self,
        data: &[u8],
        settings: &CompressionSettings,
        r: Result<CompressionOutput, CompressionError>,
    ) -> bool {
        match registered_at(self.compressors@, settings.format) {
            None => r matches Err(CompressionError::UnsupportedFormat(_)),
            Some(i) => exists|supported: bool|
                #[trigger] call_ensures(
                    C::supports_format,
                    (&self.compressors@[i].1, settings.format),
                    supported,
                ) && if supported {
                    call_ensures(C::compress, (&self.compressors@[i].1, data, settings), r)
                } else {
                    r matches Err(CompressionError::UnsupportedFormat(_))
                },
        }
    }

    /// Creates a registry without compressors.
    pub fn new() -> (service: CompressionService<C>)
        ensures
            service.compressors@.len() == 0,
    {
        CompressionService { compressors: Vec::new() }
    }

    /// Registers a compressor for a format; it answers for the format from
    /// now on.
    pub fn register_compressor(&mut self, format: OutputFormat, compressor: C)
        ensures
            final(self).compressors@ == old(self).compressors@.push((format, compressor)),
            registered_at(final(self).compressors@, format) == Some(
                old(self).compressors@.len() as int,
            ),
    {
        self.compressors.push((format, compressor));
    }

    fn find(&self, format: OutputFormat) -> (r: Option<usize>)
        ensures
            match r {
                Some(i) => registered_at(self.compressors@, format) == Some(i as int),
                None => registered_at(self.compressors@, format) is None,
            },
    {
        let mut i: usize = self.compressors.len();
        assert(self.compressors@.subrange(0, i as int) =~= self.compressors@);
        while i > 0
            invariant
                i <= self.compressors@.len(),
                registered_at(self.compressors@, format) == registered_at(
                    self.compressors@.subrange(0, i as int),
                    format,
                ),
            decreases i,
        {
            let ghost part = self.compressors@.subrange(0, i as int);
            assert(part.last() == self.compressors@[i - 1]);
            assert(part.drop_last() =~= self.compressors@.subrange(0, i - 1));
            if self.compressors[i - 1].0 == format {
                return Some(i - 1);
            }
            i -= 1;
        }
        None
    }

    /// Compresses a picture with the compressor that answers for the
    /// format of the settings. Fails with `UnsupportedFormat` where none
    /// answers for it, or where the one that does says that it does not
    /// produce the format; else the result is that compressor's own.
    pub fn compress_image(&self, image_data: &[u8], settings: &CompressionSettings) -> (r: Result<
        CompressionOutput,
        CompressionError,
    >)
        ensures
            self.answers(image_data, settings, r),
            registered_at(self.compressors@, settings.format) is None ==> (r matches Err(
                CompressionError::UnsupportedFormat(_),
            )),
            r matches Ok(out) ==> out.describes(image_data@),
    {
        proof {
            lemma_registered_at(self.compressors@, settings.format);
        }
        match self.find(settings.format) {
            None => Err(CompressionError::UnsupportedFormat(String::from_str(settings.format.name()))),
            Some(i) => {
                let compressor = &self.compressors[i].1;
                if !compressor.supports_format(settings.format) {
                    return Err(
                        CompressionError::UnsupportedFormat(
                            String::from_str(settings.format.name()),
                        ),
                    );
                }
                compressor.compress(image_data, settings)
            },
        }
    }

    /// Compresses a picture to the format that suits its input format
    /// best, WebP, at the given quality, clamped to 1..=100: the registry
    /// answers as it does to a request with those settings.
    pub fn auto_compress(&self, image_data: &[u8], input_format: &str, quality: u8) -> (r: Result<
        CompressionOutput,
        CompressionError,
    >)
        ensures
            self.answers(
                image_data,
                &(CompressionSettings {
                    quality: clamp_quality(quality),
                    format: OutputFormat::WebP,
                    preserve_metadata: false,
                    optimize_alpha: true,
                }),
                r,
            ),
            registered_at(self.compressors@, OutputFormat::WebP) is None ==> (r matches Err(
                CompressionError::UnsupportedFormat(_),
            )),
            r matches Ok(out) ==> out.describes(image_data@),
    {
        let optimal_format = CompressionSettings::optimal_format_for_input(input_format);
        let settings = CompressionSettings::new(quality, optimal_format);
        self.compress_image(image_data, &settings)
    }

    /// Reads the format of a picture from the signature it begins with:
    /// "PNG", "JPEG" or "WEBP".
    pub fn detect_format(data: &[u8]) -> (r: Option<String>)
        ensures
            match signature_of(data@) {
                Some(source) => r matches Some(name) && name@ == signature_name(source),
                None => r is None,
            },
    {
        match detect_source(data) {
            Some(SourceFormat::Png) => Some(String::from_str("PNG")),
            Some(SourceFormat::Jpeg) => Some(String::from_str("JPEG")),
            Some(SourceFormat::WebP) => Some(String::from_str("WEBP")),
            None => None,
        }
    }

    /// The path beside an input under which its compressed form goes: the
    /// file stem, "_compressed", and the extension of the format.
    pub fn generate_output_path(input_path: &str, format: OutputFormat) -> (path: String)
        ensures
            path@ == path_joined(
                directory_of(input_path@),
                (match path_file_stem(input_path@) {
                    Some(stem) => stem,
                    None => Seq::<char>::empty(),
                }) + "_compressed."@ + format.spec_extension(),
            ),
    {
        let stem = match file_stem_of(input_path) {
            Some(stem) => stem,
            None => String::new(),
        };
        let parent = match parent_of(input_path) {
            Some(parent) => parent,
            None => String::from_str("."),
        };
        let name = stem.concat("_compressed.").concat(format.extension());
        join_paths(parent.as_str(), name.as_str())
    }
}

impl CompressionService<BuiltinCompressor> {
    /// What a registry of the library's own compressors makes of a request:
    /// where no compressor answers for the format of the settings, or the
    /// one that does produces another format, the request is refused as
    /// unsupported; else the result is what the engine's policy gives.
    pub open spec fn routes(
        &self,
        data: Seq<u8>,
        settings: CompressionSettings,
        r: Result<CompressionOutput, CompressionError>,
    ) -> bool {
        match registered_at(self.compressors@, settings.format) {
            None => r matches Err(CompressionError::UnsupportedFormat(_)),
            Some(i) => if self.compressors@[i].1.target_format() != settings.format {
                r matches Err(CompressionError::UnsupportedFormat(_))
            } else {
                compressor_outcome(settings.format, data, settings, r)
            },
        }
    }

    /// Compresses a picture with the library's own compressor that answers
    /// for the format of the settings.
    pub fn compress_with_builtin(&self, image_data: &[u8], settings: &CompressionSettings) -> (r:
        Result<CompressionOutput, CompressionError>)
        ensures
            self.routes(image_data@, *settings, r),
    {
        proof {
            lemma_registered_at(self.compressors@, settings.format);
        }
        self.compress_image(image_data, settings)
    }

    /// A registry that holds the library's own compressor for every format.
    pub fn with_builtin_compressors() -> (service: CompressionService<BuiltinCompressor>)
        ensures
            forall|format: OutputFormat|
                (#[trigger] registered_at(service.compressors@, format)) matches Some(i)
                    && service.compressors@[i].1.target_format() == format,
    {
        let mut service: CompressionService<BuiltinCompressor> = CompressionService::new();
        service.register_compressor(OutputFormat::Png, BuiltinCompressor::Png(OxipngCompressor));
        service.register_compressor(OutputFormat::Jpeg, BuiltinCompressor::Jpeg(JpegCompressor));
        service.register_compressor(OutputFormat::WebP, BuiltinCompressor::WebP(WebpCompressor));
        proof {
            reveal_with_fuel(registered_at, 4);
            let entries = service.compressors@;
            assert(entries.len() == 3);
            assert(entries.drop_last().len() == 2);
            assert(entries.drop_last().drop_last().len() == 1);
            assert(entries.last().0 == OutputFormat::WebP);
            assert(entries.drop_last().last().0 == OutputFormat::Jpeg);
            assert(entries.drop_last().drop_last().last().0 == OutputFormat::Png);
        }
        service
    }
}

/// Errors of the file service.
#[derive(Debug, Clone)]
pub enum FileServiceError {
    IoError(String),
    InvalidPath(String),
    UnsupportedFileType(String),
    DownloadsNotFound,
}

impl FileServiceError {
    /// The text that describes the error.
    pub open spec fn spec_to_string(self) -> Seq<char> {
        match self {
            FileServiceError::IoError(msg) => "IO error: "@ + msg@,
            FileServiceError::InvalidPath(path) => "Invalid file path: "@ + path@,
            FileServiceError::UnsupportedFileType(kind) => "Unsupported file type: "@ + kind@,
            FileServiceError::DownloadsNotFound => "Downloads directory not found"@,
        }
    }

    /// Describes the error in words.
    pub fn to_string(&self) -> (s: String)
        ensures
            s@ == self.spec_to_string(),
    {
        match self {
            FileServiceError::IoError(msg) => join2("IO error: ", msg.as_str()),
            FileServiceError::InvalidPath(path) => join2("Invalid file path: ", path.as_str()),
            FileServiceError::UnsupportedFileType(kind) => join2(
                "Unsupported file type: ",
                kind.as_str(),
            ),
            FileServiceError::DownloadsNotFound => String::from_str(
                "Downloads directory not found",
            ),
        }
    }
}

/// Decisions of the service that saves, previews and cleans up files.
pub struct FileService;

/// MIME type that a preview is labelled with, for a lowercase extension:
/// PNG for everything that is neither JPEG nor WebP.
pub open spec fn preview_mime(extension: Option<Seq<char>>) -> Seq<char> {
    match extension {
        Some(e) => if e == "jpg"@ || e == "jpeg"@ {
            "image/jpeg"@
        } else if e == "webp"@ {
            "image/webp"@
        } else {
            "image/png"@
        },
        None => "image/png"@,
    }
}

/// The `n`-th name that the file service tries for a file whose name is
/// taken: the file stem, an underscore and the number, and the extension,
/// if any, behind a dot and a space.
pub open spec fn service_candidate(path: Seq<char>, n: u32) -> Seq<char> {
    let stem = match path_file_stem(path) {
        Some(stem) => stem,
        None => Seq::<char>::empty(),
    };
    let numbered = stem + "_"@ + crate::text::decimal(n as nat);
    path_joined(
        directory_of(path),
        match crate::file::path::path_extension(path) {
            Some(extension) => if extension.len() == 0 {
                numbered
            } else {
                numbered + ". "@ + extension
            },
            None => numbered,
        },
    )
}

impl FileService {
    /// Whether a path has the extension of a supported picture, ignoring
    /// letter case.
    pub fn is_supported_image(path: &str) -> (b: bool)
        ensures
            b == crate::file::metadata::spec_is_supported_image_file(path@),
    {
        crate::file::metadata::is_supported_image_file(path)
    }

    /// The MIME type that a preview of a file is labelled with.
    pub fn get_mime_type(path: &str) -> (mime: &'static str)
        ensures
            mime@ == preview_mime(crate::file::metadata::spec_file_extension(path@)),
    {
        match crate::file::metadata::get_file_extension(path) {
            Some(extension) => {
                let e = extension.as_str();
                if crate::text::str_eq(e, "jpg") || crate::text::str_eq(e, "jpeg") {
                    "image/jpeg"
                } else if crate::text::str_eq(e, "webp") {
                    "image/webp"
                } else {
                    "image/png"
                }
            },
            None => "image/png",
        }
    }

    /// The text of a preview: a data URL of the MIME type with the content
    /// in base64.
    pub fn preview_url(mime_type: &str, base64_data: &str) -> (url: String)
        ensures
            url@ == "data:"@ + mime_type@ + ";base64,"@ + base64_data@,
    {
        String::from_str("data:").concat(mime_type).concat(";base64,").concat(base64_data)
    }

    /// The `n`-th name to try for a file whose name is taken.
    pub fn numbered_filename(base_path: &str, n: u32) -> (r: String)
        ensures
            r@ == service_candidate(base_path@, n),
    {
        let stem = match file_stem_of(base_path) {
            Some(stem) => stem,
            None => String::new(),
        };
        let parent = match parent_of(base_path) {
            Some(parent) => parent,
            None => String::from_str("."),
        };
        let number = crate::text::decimal_string(n as u64);
        let numbered = stem.concat("_").concat(number.as_str());
        let name = match crate::file::path::extension_of(base_path) {
            Some(extension) => {
                if extension.as_str().unicode_len() == 0 {
                    numbered
                } else {
                    numbered.concat(". ").concat(extension.as_str())
                }
            },
            None => numbered,
        };
        join_paths(parent.as_str(), name.as_str())
    }

    /// Generates a unique file name among paths that are taken: the path
    /// itself where it is free, else the first of its numbered names, from
    /// 1 to 999, that is free. Where all of them are taken there is none.
    pub fn generate_unique_filename(base_path: &str, taken: &Vec<String>) -> (r: Option<String>)
        ensures
            !crate::file::operations::is_taken(taken@, base_path@) ==> (r matches Some(chosen)
                && chosen@ == base_path@),
            r matches Some(chosen) ==> !crate::file::operations::is_taken(taken@, chosen@),
            r matches Some(chosen) ==> (crate::file::operations::is_taken(taken@, base_path@)
                ==> (exists|n: u32|
                #![auto]
                1 <= n < 1000 && chosen@ == service_candidate(base_path@, n) && (forall|m: u32|
                    #![auto]
                    1 <= m < n ==> crate::file::operations::is_taken(
                        taken@,
                        service_candidate(base_path@, m),
                    )))),
            r is None ==> (forall|m: u32|
                #![auto]
                1 <= m < 1000 ==> crate::file::operations::is_taken(
                    taken@,
                    service_candidate(base_path@, m),
                )),
    {
        if !crate::file::operations::taken_contains(taken, base_path) {
            return Some(String::from_str(base_path));
        }
        let mut n: u32 = 1;
        while n < 1000
            invariant
                1 <= n <= 1000,
                crate::file::operations::is_taken(taken@, base_path@),
                forall|m: u32|
                    #![auto]
                    1 <= m < n ==> crate::file::operations::is_taken(
                        taken@,
                        service_candidate(base_path@, m),
                    ),
            decreases 1000 - n,
        {
            let candidate = Self::numbered_filename(base_path, n);
            if !crate::file::operations::taken_contains(taken, candidate.as_str()) {
                return Some(candidate);
            }
            n += 1;
        }
        None
    }
}

} // verus!
