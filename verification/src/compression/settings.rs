//! The settings of an encode request, and ready-made ones.

use crate::compression::formats::OutputFormat;
use crate::text::lowercase;
use vstd::prelude::*;

verus! {

/// Parameters of one encode request.
#[derive(Debug, Clone, Copy, PartialEq, Eq, Structural)]
pub struct CompressionSettings {
    pub quality: u8,
    pub format: OutputFormat,
    pub preserve_metadata: bool,
    pub optimize_alpha: bool,
}

/// A quality value brought into the range 1..=100.
pub open spec fn clamp_quality(quality: u8) -> u8 {
    if quality < 1 {
        1
    } else if quality > 100 {
        100
    } else {
        quality
    }
}

/// Brings a quality value into the range 1..=100.
pub fn clamped_quality(quality: u8) -> (q: u8)
    ensures
        q == clamp_quality(quality),
        1 <= q <= 100,
{
    if quality < 1 {
        1
    } else if quality > 100 {
        100
    } else {
        quality
    }
}

/// Whatever the quality asked for, the quality of settings lies in 1..=100:
/// a quality below the range becomes 1, one above it becomes 100, and one
/// inside it stays as it is.
pub proof fn lemma_quality_clamped(quality: u8)
    ensures
        1 <= clamp_quality(quality) <= 100,
        quality < 1 ==> clamp_quality(quality) == 1,
        quality > 100 ==> clamp_quality(quality) == 100,
        1 <= quality <= 100 ==> clamp_quality(quality) == quality,
{
}

impl CompressionSettings {
    /// Quality lies in 1..=100.
    pub open spec fn spec_is_valid(self) -> bool {
        1 <= self.quality <= 100
    }

    /// Creates new compression settings with the specified quality and
    /// format; the quality is clamped to 1..=100.
    pub fn new(quality: u8, format: OutputFormat) -> (s: CompressionSettings)
        ensures
            s == (CompressionSettings {
                quality: clamp_quality(quality),
                format,
                preserve_metadata: false,
                optimize_alpha: true,
            }),
            s.spec_is_valid(),
    {
        CompressionSettings {
            quality: clamped_quality(quality),
            format,
            preserve_metadata: false,
            optimize_alpha: true,
        }
    }

    /// Returns a copy with the quality replaced, clamped to 1..=100.
    pub fn with_quality(self, quality: u8) -> (s: CompressionSettings)
        ensures
            s == (CompressionSettings { quality: clamp_quality(quality), ..self }),
            s.spec_is_valid(),
    {
        CompressionSettings { quality: clamped_quality(quality), ..self }
    }

    /// Returns a copy with metadata preservation switched on or off.
    pub fn with_metadata_preservation(self, preserve: bool) -> (s: CompressionSettings)
        ensures
            s == (CompressionSettings { preserve_metadata: preserve, ..self }),
    {
        CompressionSettings { preserve_metadata: preserve, ..self }
    }

    /// Returns a copy with alpha channel optimization switched on or off.
    pub fn with_alpha_optimization(self, optimize: bool) -> (s: CompressionSettings)
        ensures
            s == (CompressionSettings { optimize_alpha: optimize, ..self }),
    {
        CompressionSettings { optimize_alpha: optimize, ..self }
    }

    /// Validates the settings.
    pub fn is_valid(&self) -> (b: bool)
        ensures
            b == self.spec_is_valid(),
    {
        1 <= self.quality && self.quality <= 100
    }

    /// Whether these settings ask for a lossy encode: quality below 90.
    pub open spec fn spec_is_lossy(self) -> bool {
        self.quality < 90
    }

    /// Whether these settings ask for a lossy encode.
    pub fn is_lossy(&self) -> (b: bool)
        ensures
            b == self.spec_is_lossy(),
    {
        self.quality < 90
    }

    /// Determines the optimal output format for the given input format:
    /// WebP, whatever the input.
    pub fn optimal_format_for_input(input_format: &str) -> (f: OutputFormat)
        ensures
            f == OutputFormat::WebP,
    {
        OutputFormat::WebP
    }

    /// The format that keeps a lowercase input token's own codec; WebP for
    /// tokens that name none.
    pub open spec fn spec_preserve_lowercase(token: Seq<char>) -> OutputFormat {
        match OutputFormat::spec_from_lowercase(token) {
            Some(f) => f,
            None => OutputFormat::WebP,
        }
    }

    /// Returns the same format as the input, ignoring letter case; WebP for
    /// unknown inputs.
    pub fn preserve_input_format(input_format: &str) -> (f: OutputFormat)
        ensures
            f == Self::spec_preserve_lowercase(lowercase(input_format@)),
    {
        match OutputFormat::from_string(input_format) {
            Some(f) => f,
            None => OutputFormat::WebP,
        }
    }
}

impl Default for CompressionSettings {
    fn default() -> (s: CompressionSettings)
        ensures
            s == (CompressionSettings {
                quality: 80,
                format: OutputFormat::WebP,
                preserve_metadata: false,
                optimize_alpha: true,
            }),
    {
        CompressionSettings::new(80, OutputFormat::WebP)
    }
}

/// Settings for web optimization: WebP at quality 85.
pub fn web_optimized_settings() -> (s: CompressionSettings)
    ensures
        s == (CompressionSettings {
            quality: 85,
            format: OutputFormat::WebP,
            preserve_metadata: false,
            optimize_alpha: true,
        }),
{
    CompressionSettings::new(85, OutputFormat::WebP).with_alpha_optimization(true)
}

/// Settings for high quality: WebP at quality 95, keeping metadata.
pub fn high_quality_settings() -> (s: CompressionSettings)
    ensures
        s == (CompressionSettings {
            quality: 95,
            format: OutputFormat::WebP,
            preserve_metadata: true,
            optimize_alpha: true,
        }),
{
    CompressionSettings::new(95, OutputFormat::WebP).with_metadata_preservation(true)
}

/// Settings for maximum compression: WebP at quality 70.
pub fn max_compression_settings() -> (s: CompressionSettings)
    ensures
        s == (CompressionSettings {
            quality: 70,
            format: OutputFormat::WebP,
            preserve_metadata: false,
            optimize_alpha: true,
        }),
{
    CompressionSettings::new(70, OutputFormat::WebP).with_alpha_optimization(true)
}

} // verus!
