//! What is known of a picture before it is decoded.

use crate::imaging::error::ImageError;
use crate::text::{decimal, decimal_string, join2, lowercase, str_eq, to_lowercase};
use vstd::prelude::*;
use vstd::string::*;

verus! {

/// Image dimensions.
#[derive(Debug, Clone, Copy, PartialEq, Eq, Structural)]
pub struct Dimensions {
    pub width: u32,
    pub height: u32,
}

impl Dimensions {
    /// Creates dimensions; fails with `InvalidDimensions` exactly when a
    /// side is zero.
    pub fn new(width: u32, height: u32) -> (r: Result<Dimensions, ImageError>)
        ensures
            width != 0 && height != 0 ==> r == Ok::<Dimensions, ImageError>(
                Dimensions { width, height },
            ),
            width == 0 || height == 0 ==> (r matches Err(ImageError::InvalidDimensions(msg))
                && msg@ == "Dimensions cannot be zero: "@ + decimal(width as nat) + "x"@
                + decimal(height as nat)),
    {
        if width == 0 || height == 0 {
            let w = decimal_string(width as u64);
            let h = decimal_string(height as u64);
            let msg = join2("Dimensions cannot be zero: ", w.as_str()).concat("x").concat(
                h.as_str(),
            );
            return Err(ImageError::InvalidDimensions(msg));
        }
        Ok(Dimensions { width, height })
    }

    /// Number of pixels.
    pub open spec fn spec_pixel_count(self) -> int {
        self.width * self.height
    }

    /// Calculates total pixels.
    pub fn pixel_count(&self) -> (n: u64)
        ensures
            n == self.spec_pixel_count(),
    {
        assert(self.width * self.height <= 0xffff_ffff * 0xffff_ffff) by (nonlinear_arith)
            requires
                0 <= self.width <= 0xffff_ffff,
                0 <= self.height <= 0xffff_ffff,
        ;
        self.width as u64 * self.height as u64
    }

    /// Width over height in millionths, rounded down; zero for a height of
    /// zero.
    pub open spec fn spec_aspect_ratio(self) -> int {
        if self.height == 0 {
            0
        } else {
            self.width * 1_000_000 / (self.height as int)
        }
    }

    /// Calculates the aspect ratio, in millionths.
    pub fn aspect_ratio(&self) -> (r: u64)
        ensures
            r == self.spec_aspect_ratio(),
    {
        if self.height == 0 {
            0
        } else {
            self.width as u64 * 1_000_000 / self.height as u64
        }
    }

    /// Checks if the image is square.
    pub fn is_square(&self) -> (b: bool)
        ensures
            b == (self.width == self.height),
    {
        self.width == self.height
    }

    /// Checks if the image is landscape.
    pub fn is_landscape(&self) -> (b: bool)
        ensures
            b == (self.width > self.height),
    {
        self.width > self.height
    }

    /// Checks if the image is portrait.
    pub fn is_portrait(&self) -> (b: bool)
        ensures
            b == (self.height > self.width),
    {
        self.height > self.width
    }
}

/// Color space information.
#[derive(Debug, Clone, Copy, PartialEq, Eq, Structural)]
pub enum ColorSpace {
    RGB,
    RGBA,
    Grayscale,
    GrayscaleAlpha,
    CMYK,
    YUV,
}

impl ColorSpace {
    /// Bytes that one pixel takes.
    pub open spec fn spec_bytes_per_pixel(self) -> u8 {
        match self {
            ColorSpace::RGB => 3,
            ColorSpace::RGBA => 4,
            ColorSpace::Grayscale => 1,
            ColorSpace::GrayscaleAlpha => 2,
            ColorSpace::CMYK => 4,
            ColorSpace::YUV => 3,
        }
    }

    /// Gets bytes per pixel for this color space.
    pub fn bytes_per_pixel(&self) -> (n: u8)
        ensures
            n == self.spec_bytes_per_pixel(),
            1 <= n <= 4,
    {
        match self {
            ColorSpace::RGB => 3,
            ColorSpace::RGBA => 4,
            ColorSpace::Grayscale => 1,
            ColorSpace::GrayscaleAlpha => 2,
            ColorSpace::CMYK => 4,
            ColorSpace::YUV => 3,
        }
    }

    /// Whether the color space carries an alpha channel.
    pub open spec fn spec_has_alpha(self) -> bool {
        self == ColorSpace::RGBA || self == ColorSpace::GrayscaleAlpha
    }

    /// Checks if the color space has an alpha channel.
    pub fn has_alpha(&self) -> (b: bool)
        ensures
            b == self.spec_has_alpha(),
    {
        match self {
            ColorSpace::RGBA => true,
            ColorSpace::GrayscaleAlpha => true,
            _ => false,
        }
    }
}

/// Image type classification.
#[derive(Debug, Clone, Copy, PartialEq, Eq, Structural)]
pub enum ImageType {
    /// Natural photos with gradients.
    Photo,
    /// Simple graphics with few colors.
    Logo,
    /// Complex graphics and illustrations.
    Graphic,
    /// UI screenshots.
    Screenshot,
    Unknown,
}

/// Comprehensive image metadata.
#[derive(Debug, Clone)]
pub struct ImageMetadata {
    pub format: String,
    pub dimensions: Dimensions,
    pub color_space: ColorSpace,
    pub bit_depth: u8,
    pub has_transparency: bool,
    pub estimated_colors: Option<u32>,
    pub image_type: ImageType,
    pub quality_estimate: Option<u8>,
    pub compression_level: Option<u8>,
    pub file_size_bytes: u64,
}

impl ImageMetadata {
    /// Creates metadata from basic information: eight bits per channel,
    /// transparency as the color space has it, everything else unknown.
    pub fn new(
        format: String,
        dimensions: Dimensions,
        color_space: ColorSpace,
        file_size_bytes: u64,
    ) -> (m: ImageMetadata)
        ensures
            m.format == format,
            m.dimensions == dimensions,
            m.color_space == color_space,
            m.bit_depth == 8,
            m.has_transparency == color_space.spec_has_alpha(),
            m.estimated_colors is None,
            m.image_type == ImageType::Unknown,
            m.quality_estimate is None,
            m.compression_level is None,
            m.file_size_bytes == file_size_bytes,
    {
        ImageMetadata {
            format,
            dimensions,
            color_space,
            bit_depth: 8,
            has_transparency: color_space.has_alpha(),
            estimated_colors: None,
            image_type: ImageType::Unknown,
            quality_estimate: None,
            compression_level: None,
            file_size_bytes,
        }
    }

    /// Size of the raw samples in bytes.
    pub open spec fn spec_uncompressed_size(self) -> int {
        self.dimensions.spec_pixel_count() * self.color_space.spec_bytes_per_pixel()
    }

    fn raw_size(&self) -> (n: u128)
        ensures
            n == self.spec_uncompressed_size(),
    {
        let pixels = self.dimensions.pixel_count();
        let each = self.color_space.bytes_per_pixel();
        assert(pixels * each <= 0xffff_ffff_ffff_ffff * 4) by (nonlinear_arith)
            requires
                0 <= pixels <= 0xffff_ffff_ffff_ffff,
                0 <= each <= 4,
        ;
        pixels as u128 * each as u128
    }

    /// Calculates the theoretical uncompressed size; a size beyond the
    /// range of `u64` saturates.
    pub fn uncompressed_size_bytes(&self) -> (n: u64)
        ensures
            n == if self.spec_uncompressed_size() > u64::MAX {
                u64::MAX as int
            } else {
                self.spec_uncompressed_size()
            },
    {
        let size = self.raw_size();
        if size > u64::MAX as u128 {
            u64::MAX
        } else {
            size as u64
        }
    }

    /// File size over uncompressed size in millionths, rounded down; zero
    /// where the uncompressed size is zero.
    pub open spec fn spec_compression_ratio(self) -> int {
        if self.spec_uncompressed_size() > 0 {
            self.file_size_bytes * 1_000_000 / self.spec_uncompressed_size()
        } else {
            0
        }
    }

    /// Calculates the current compression ratio, in millionths.
    pub fn compression_ratio(&self) -> (r: u128)
        ensures
            r == self.spec_compression_ratio(),
    {
        let size = self.raw_size();
        if size > 0 {
            self.file_size_bytes as u128 * 1_000_000 / size
        } else {
            0
        }
    }

    /// Whether lossy compression suits the picture: photos do, screenshots
    /// and logos do not, graphics do unless they are known to have at most
    /// 256 colors, and pictures of unknown type do if they have more than
    /// 10000 pixels.
    pub open spec fn spec_is_suitable_for_lossy(self) -> bool {
        match self.image_type {
            ImageType::Photo => true,
            ImageType::Screenshot => false,
            ImageType::Logo => false,
            ImageType::Graphic => match self.estimated_colors {
                Some(colors) => colors > 256,
                None => true,
            },
            ImageType::Unknown => self.dimensions.spec_pixel_count() > 10000,
        }
    }

    /// Estimates if the image is suitable for lossy compression.
    pub fn is_suitable_for_lossy(&self) -> (b: bool)
        ensures
            b == self.spec_is_suitable_for_lossy(),
    {
        match self.image_type {
            ImageType::Photo => true,
            ImageType::Screenshot => false,
            ImageType::Logo => false,
            ImageType::Graphic => match self.estimated_colors {
                Some(colors) => colors > 256,
                None => true,
            },
            ImageType::Unknown => self.dimensions.pixel_count() > 10000,
        }
    }

    /// The output format to recommend: PNG for a picture with transparency
    /// that does not suit lossy compression, WebP otherwise.
    pub open spec fn spec_recommended_output_format(self) -> Seq<char> {
        if !self.spec_is_suitable_for_lossy() && self.has_transparency {
            "png"@
        } else {
            "webp"@
        }
    }

    /// Gets the recommended output format.
    pub fn recommended_output_format(&self) -> (format: &'static str)
        ensures
            format@ == self.spec_recommended_output_format(),
    {
        if self.is_suitable_for_lossy() {
            "webp"
        } else if self.has_transparency {
            "png"
        } else {
            "webp"
        }
    }
}

/// Whether dimensions match a common screen resolution.
pub open spec fn typical_screen_resolution(width: u32, height: u32) -> bool {
    ||| (width == 1920 && height == 1080)
    ||| (width == 1366 && height == 768)
    ||| (width == 1024 && height == 768)
    ||| (width == 1280 && height == 720)
    ||| (width == 1440 && height == 900)
    ||| (width == 1600 && height == 900)
    ||| (width == 2560 && height == 1440)
    ||| (width == 3840 && height == 2160)
}

/// Checks if dimensions match common screen resolutions.
pub fn is_typical_screen_resolution(width: u32, height: u32) -> (b: bool)
    ensures
        b == typical_screen_resolution(width, height),
{
    (width == 1920 && height == 1080) || (width == 1366 && height == 768) || (width == 1024
        && height == 768) || (width == 1280 && height == 720) || (width == 1440 && height == 900)
        || (width == 1600 && height == 900) || (width == 2560 && height == 1440) || (width
        == 3840 && height == 2160)
}

/// The type that the metadata of a picture suggests: a logo below 10000
/// pixels; a screenshot at a common screen resolution; a photo above a
/// million pixels with sides within a factor of two of each other;
/// otherwise what the estimated number of colors says, if there is one.
pub open spec fn classified(metadata: ImageMetadata) -> ImageType {
    let pixels = metadata.dimensions.spec_pixel_count();
    let width = metadata.dimensions.width;
    let height = metadata.dimensions.height;
    if pixels < 10000 {
        ImageType::Logo
    } else if typical_screen_resolution(width, height) {
        ImageType::Screenshot
    } else if pixels > 1000000 && 2 * width >= height && width <= 2 * height {
        ImageType::Photo
    } else {
        match metadata.estimated_colors {
            Some(colors) => if colors < 64 {
                ImageType::Logo
            } else if colors < 1024 {
                ImageType::Graphic
            } else {
                ImageType::Photo
            },
            None => ImageType::Unknown,
        }
    }
}

/// Classifies the image type from metadata.
pub fn classify_image_type(metadata: &ImageMetadata) -> (t: ImageType)
    ensures
        t == classified(*metadata),
{
    let pixel_count = metadata.dimensions.pixel_count();
    let width = metadata.dimensions.width;
    let height = metadata.dimensions.height;
    if pixel_count < 10000 {
        return ImageType::Logo;
    }
    if is_typical_screen_resolution(width, height) {
        return ImageType::Screenshot;
    }
    if pixel_count > 1000000 && 2 * (width as u64) >= height as u64 && width as u64 <= 2 * (
    height as u64) {
        return ImageType::Photo;
    }
    match metadata.estimated_colors {
        Some(colors) => {
            if colors < 64 {
                ImageType::Logo
            } else if colors < 1024 {
                ImageType::Graphic
            } else {
                ImageType::Photo
            }
        },
        None => ImageType::Unknown,
    }
}

/// The eight bytes that every PNG file starts with.
pub open spec fn png_signature() -> Seq<u8> {
    seq![0x89u8, 0x50u8, 0x4Eu8, 0x47u8, 0x0Du8, 0x0Au8, 0x1Au8, 0x0Au8]
}

/// The number that four bytes hold, most significant byte first.
pub open spec fn big_endian_u32(data: Seq<u8>, at: int) -> int {
    data[at] * 0x100_0000 + data[at + 1] * 0x1_0000 + data[at + 2] * 0x100 + data[at + 3]
}

/// Whether data starts like a PNG file, far enough to hold the width and
/// height of its header.
pub open spec fn has_png_header(data: Seq<u8>) -> bool {
    data.len() >= 24 && data.subrange(0, 8) == png_signature()
}

/// The dimensions taken for a picture whose header is not parsed.
pub open spec fn default_dimensions() -> (u32, u32) {
    (1920u32, 1080u32)
}

/// The dimensions read from data that is taken for a PNG file: none from
/// fewer than 24 bytes; those of the header where the data begins with the
/// PNG signature; the default ones for any other data.
pub open spec fn png_dimensions(data: Seq<u8>) -> Option<(u32, u32)> {
    if data.len() < 24 {
        None
    } else if has_png_header(data) {
        Some((big_endian_u32(data, 16) as u32, big_endian_u32(data, 20) as u32))
    } else {
        Some(default_dimensions())
    }
}

fn read_big_endian_u32(data: &[u8], at: usize) -> (n: u32)
    requires
        at + 4 <= data@.len(),
    ensures
        n == big_endian_u32(data@, at as int),
{
    let b0 = data[at] as u32;
    let b1 = data[at + 1] as u32;
    let b2 = data[at + 2] as u32;
    let b3 = data[at + 3] as u32;
    b0 * 0x100_0000 + b1 * 0x1_0000 + b2 * 0x100 + b3
}

/// Reads width and height from the header of a PNG file. Data of fewer
/// than 24 bytes is refused with `InvalidFormat`; data without the PNG
/// signature is taken to be of the default dimensions.
pub fn extract_png_dimensions(data: &[u8]) -> (r: Result<(u32, u32), ImageError>)
    ensures
        match png_dimensions(data@) {
            Some(sides) => r == Ok::<(u32, u32), ImageError>(sides),
            None => r matches Err(ImageError::InvalidFormat(_)),
        },
{
    if data.len() < 24 {
        return Err(ImageError::InvalidFormat(String::from_str("PNG data too short")));
    }
    let signature_matches = data[0] == 0x89 && data[1] == 0x50 && data[2] == 0x4E && data[3]
        == 0x47 && data[4] == 0x0D && data[5] == 0x0A && data[6] == 0x1A && data[7] == 0x0A;
    proof {
        let head = data@.subrange(0, 8);
        if signature_matches {
            assert(head =~= png_signature());
        } else {
            assert(head[0] == data@[0] && head[1] == data@[1] && head[2] == data@[2] && head[3]
                == data@[3] && head[4] == data@[4] && head[5] == data@[5] && head[6] == data@[6]
                && head[7] == data@[7]);
            assert(png_signature()[0] == 0x89 && png_signature()[7] == 0x0A);
        }
    }
    if !signature_matches {
        return Ok((1920, 1080));
    }
    let width = read_big_endian_u32(data, 16);
    let height = read_big_endian_u32(data, 20);
    Ok((width, height))
}

/// The dimensions taken for a JPEG file, whose header is not parsed.
pub fn extract_jpeg_dimensions(_data: &[u8]) -> (r: Result<(u32, u32), ImageError>)
    ensures
        r == Ok::<(u32, u32), ImageError>(default_dimensions()),
{
    Ok((1920, 1080))
}

/// The dimensions taken for a WebP file, whose header is not parsed.
pub fn extract_webp_dimensions(_data: &[u8]) -> (r: Result<(u32, u32), ImageError>)
    ensures
        r == Ok::<(u32, u32), ImageError>(default_dimensions()),
{
    Ok((1920, 1080))
}

/// The dimensions that `extract_metadata` reads for a lowercase format
/// token, where it reads any.
pub open spec fn dimensions_read(data: Seq<u8>, token: Seq<char>) -> Option<(u32, u32)> {
    if token == "png"@ {
        png_dimensions(data)
    } else if token == "jpg"@ || token == "jpeg"@ || token == "webp"@ {
        Some(default_dimensions())
    } else {
        None
    }
}

/// Whether a lowercase token names a format whose metadata can be read.
pub open spec fn is_readable_format(token: Seq<char>) -> bool {
    token == "png"@ || token == "jpg"@ || token == "jpeg"@ || token == "webp"@
}

/// Whether `metadata` is what `extract_metadata` reads from data of a
/// format: the format as given, the dimensions read, RGB as color space,
/// the length of the data as file size, and everything else as
/// `ImageMetadata::new` sets it.
pub open spec fn is_metadata_of(metadata: ImageMetadata, data: Seq<u8>, format: Seq<char>) -> bool {
    &&& metadata.format@ == format
    &&& dimensions_read(data, lowercase(format)) == Some(
        (metadata.dimensions.width, metadata.dimensions.height),
    )
    &&& metadata.dimensions.width != 0
    &&& metadata.dimensions.height != 0
    &&& metadata.color_space == ColorSpace::RGB
    &&& metadata.file_size_bytes == data.len()
    &&& metadata.image_type == ImageType::Unknown
    &&& metadata.estimated_colors is None
    &&& !metadata.has_transparency
    &&& metadata.bit_depth == 8
    &&& metadata.quality_estimate is None
    &&& metadata.compression_level is None
}

/// Whether metadata can be read from data of a format: the format is
/// known, and the dimensions can be read and are not zero.
pub open spec fn metadata_readable(data: Seq<u8>, format: Seq<char>) -> bool {
    is_readable_format(lowercase(format)) && (dimensions_read(
        data,
        lowercase(format),
    ) matches Some(sides) && sides.0 != 0 && sides.1 != 0)
}

/// Whether `e` is the error with which data is refused from which no
/// metadata can be read: `UnsupportedFormat` for an unknown format,
/// `InvalidFormat` where the dimensions cannot be read, `InvalidDimensions`
/// where they can.
pub open spec fn is_metadata_error(e: ImageError, data: Seq<u8>, format: Seq<char>) -> bool {
    if !is_readable_format(lowercase(format)) {
        e matches ImageError::UnsupportedFormat(token) && token@ == format
    } else {
        match dimensions_read(data, lowercase(format)) {
            None => e is InvalidFormat,
            Some(_) => e is InvalidDimensions,
        }
    }
}

/// Extracts basic metadata from image data.
///
/// The format is read from its token, ignoring letter case. Dimensions come
/// from the header of a PNG file, and are taken as 1920x1080 for JPEG and
/// WebP. The color space is taken as RGB, and the file size is the length
/// of the data. Fails with `UnsupportedFormat` for an unknown format, with
/// `InvalidFormat` for PNG data too short to hold a header, and with
/// `InvalidDimensions` where the header holds a side of zero.
pub fn extract_metadata(data: &[u8], format: &str) -> (r: Result<ImageMetadata, ImageError>)
    ensures
        r is Ok == metadata_readable(data@, format@),
        r matches Ok(m) ==> is_metadata_of(m, data@, format@),
        r matches Err(e) ==> is_metadata_error(e, data@, format@),
        !is_readable_format(lowercase(format@)) ==> (r matches Err(
            ImageError::UnsupportedFormat(_),
        )),
        is_readable_format(lowercase(format@)) ==> match dimensions_read(
            data@,
            lowercase(format@),
        ) {
            None => r matches Err(ImageError::InvalidFormat(_)),
            Some((width, height)) => width == 0 || height == 0 ==> (r matches Err(
                ImageError::InvalidDimensions(_),
            )),
        },
{
    let lower = to_lowercase(format);
    let token = lower.as_str();
    let read = if str_eq(token, "png") {
        extract_png_dimensions(data)
    } else if str_eq(token, "jpg") || str_eq(token, "jpeg") {
        extract_jpeg_dimensions(data)
    } else if str_eq(token, "webp") {
        extract_webp_dimensions(data)
    } else {
        return Err(ImageError::UnsupportedFormat(String::from_str(format)));
    };
    let (width, height) = match read {
        Ok(sides) => sides,
        Err(e) => {
            return Err(e);
        },
    };
    let dimensions = match Dimensions::new(width, height) {
        Ok(dimensions) => dimensions,
        Err(e) => {
            return Err(e);
        },
    };
    Ok(ImageMetadata::new(String::from_str(format), dimensions, ColorSpace::RGB, data.len() as u64))
}

} // verus!
