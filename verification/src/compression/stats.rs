//! Observations of finished compressions, and the estimates drawn from them.
//!
//! Percentages, ratios and confidence scores are integers counting
//! millionths: a confidence of 900_000 stands for 0.9, a percentage of
//! 85_000_000 for 85 %.

use crate::compression::settings::CompressionSettings;
use crate::fixed::{
    clamp_i64, floor_div, ratio_micros, saturate_i64, savings_percent, savings_percent_micros,
};
use crate::shared::time::current_timestamp;
use crate::text::{lowercase, str_eq, to_lowercase};
use vstd::prelude::*;
use vstd::string::*;

verus! {

/// Statistics about a compression operation.
#[derive(Debug, Clone)]
pub struct CompressionStat {
    pub id: Option<i64>,
    pub input_format: String,
    pub output_format: String,
    /// One of "small", "medium", "large".
    pub input_size_range: String,
    pub quality_setting: u8,
    pub lossy_mode: bool,
    /// Saving in millionths of a percent.
    pub size_reduction_percent: i64,
    pub original_size: u64,
    pub compressed_size: u64,
    pub compression_time_ms: Option<u64>,
    pub timestamp: String,
    pub image_type: Option<String>,
}

/// Query parameters for compression estimation.
#[derive(Debug, Clone)]
pub struct EstimationQuery {
    pub input_format: String,
    pub output_format: String,
    pub original_size: u64,
    pub quality_setting: u8,
    pub lossy_mode: bool,
}

/// Result of a compression estimation.
#[derive(Debug, Clone, Copy, PartialEq, Eq, Structural)]
pub struct EstimationResult {
    /// Expected saving in millionths of a percent.
    pub percent: i64,
    /// Expected share of the original that remains, in millionths.
    pub ratio: i64,
    /// Trust in the estimate, in millionths: 0 to 1_000_000.
    pub confidence: u32,
    pub sample_count: u32,
}

/// Largest size, in bytes, of the "small" range.
pub const SMALL_LIMIT: u64 = 1_000_000;

/// Largest size, in bytes, of the "medium" range.
pub const MEDIUM_LIMIT: u64 = 5_000_000;

/// Name of the size range of a size in bytes.
pub open spec fn spec_size_range(size_bytes: u64) -> Seq<char> {
    if size_bytes <= SMALL_LIMIT {
        "small"@
    } else if size_bytes <= MEDIUM_LIMIT {
        "medium"@
    } else {
        "large"@
    }
}

/// Determines the size range for a given file size in bytes.
pub fn get_size_range(size_bytes: u64) -> (range: String)
    ensures
        range@ == spec_size_range(size_bytes),
{
    if size_bytes <= SMALL_LIMIT {
        String::from_str("small")
    } else if size_bytes <= MEDIUM_LIMIT {
        String::from_str("medium")
    } else {
        String::from_str("large")
    }
}

/// Expected saving and confidence, both in millionths, for a pair of
/// lowercase format tokens when no observation is at hand.
pub open spec fn heuristic(input: Seq<char>, output: Seq<char>, quality: u8) -> (i64, u32) {
    let input_jpeg = input == "jpg"@ || input == "jpeg"@;
    let output_jpeg = output == "jpg"@ || output == "jpeg"@;
    if input == "png"@ && output == "webp"@ {
        if quality < 90 {
            (85_000_000i64, 900_000u32)
        } else {
            (43_000_000i64, 800_000u32)
        }
    } else if input_jpeg && output == "webp"@ {
        (25_000_000i64, 700_000u32)
    } else if input == "png"@ && output == "png"@ {
        (15_000_000i64, 900_000u32)
    } else if input_jpeg && output_jpeg {
        (20_000_000i64, 800_000u32)
    } else if input == "webp"@ && output == "webp"@ {
        (10_000_000i64, 600_000u32)
    } else {
        (5_000_000i64, 300_000u32)
    }
}

/// Looks a pair of lowercase format tokens up in the heuristic table.
pub fn heuristic_for(input: &str, output: &str, quality: u8) -> (r: (i64, u32))
    ensures
        r == heuristic(input@, output@, quality),
{
    let input_png = str_eq(input, "png");
    let input_jpeg = str_eq(input, "jpg") || str_eq(input, "jpeg");
    let input_webp = str_eq(input, "webp");
    let output_png = str_eq(output, "png");
    let output_jpeg = str_eq(output, "jpg") || str_eq(output, "jpeg");
    let output_webp = str_eq(output, "webp");
    if input_png && output_webp {
        if quality < 90 {
            (85_000_000, 900_000)
        } else {
            (43_000_000, 800_000)
        }
    } else if input_jpeg && output_webp {
        (25_000_000, 700_000)
    } else if input_png && output_png {
        (15_000_000, 900_000)
    } else if input_jpeg && output_jpeg {
        (20_000_000, 800_000)
    } else if input_webp && output_webp {
        (10_000_000, 600_000)
    } else {
        (5_000_000, 300_000)
    }
}

/// The estimate that the heuristic table gives: it rests on no observation,
/// so its sample count is zero.
pub open spec fn heuristic_estimate(
    input: Seq<char>,
    output: Seq<char>,
    quality: u8,
) -> EstimationResult {
    let (percent, confidence) = heuristic(input, output, quality);
    EstimationResult {
        percent,
        ratio: ratio_micros(percent as int) as i64,
        confidence,
        sample_count: 0,
    }
}

/// Estimates compression results from the formats and settings alone.
pub fn estimate_compression(
    input_format: &str,
    output_format: &str,
    _original_size: u64,
    settings: &CompressionSettings,
) -> (r: EstimationResult)
    ensures
        r == heuristic_estimate(
            lowercase(input_format@),
            lowercase(output_format@),
            settings.quality,
        ),
        r.ratio == ratio_micros(r.percent as int),
        r.sample_count == 0,
        0 < r.percent <= 85_000_000,
        r.confidence <= 1_000_000,
{
    let input = to_lowercase(input_format);
    let output = to_lowercase(output_format);
    let (percent, confidence) = heuristic_for(input.as_str(), output.as_str(), settings.quality);
    let ratio = floor_div(100_000_000 - percent as i128, 100);
    EstimationResult {
        percent,
        ratio: ratio as i64,
        confidence,
        sample_count: 0,
    }
}

/// Confidence, in millionths, that the number of samples alone warrants.
pub open spec fn base_confidence(sample_count: nat) -> nat {
    if sample_count == 0 {
        0
    } else if sample_count <= 5 {
        300_000
    } else if sample_count <= 20 {
        600_000
    } else if sample_count <= 50 {
        800_000
    } else {
        900_000
    }
}

/// Confidence in millionths: the base confidence of the sample count times
/// `1 / (1 + variance)`, rounded down and capped at one. The variance is in
/// millionths too.
pub open spec fn confidence_micros(sample_count: nat, variance: nat) -> nat {
    let scaled = base_confidence(sample_count) * 1_000_000 / (1_000_000 + variance);
    if scaled > 1_000_000 {
        1_000_000
    } else {
        scaled
    }
}

/// A variance from which the confidence is zero whatever the sample count.
pub const VARIANCE_CUTOFF: u128 = 1_000_000_000_000;

/// From the cutoff on, the confidence is zero.
pub proof fn lemma_confidence_vanishes(sample_count: nat, variance: nat)
    requires
        variance >= VARIANCE_CUTOFF,
    ensures
        confidence_micros(sample_count, variance) == 0,
{
    let base = base_confidence(sample_count);
    assert(base * 1_000_000 / (1_000_000 + variance) == 0) by (nonlinear_arith)
        requires
            0 <= base <= 900_000,
            variance >= 1_000_000_000_000,
    ;
}

/// Without samples there is no confidence, whatever the variance.
pub proof fn lemma_confidence_zero_without_samples(variance: nat)
    ensures
        confidence_micros(0, variance) == 0,
{
    assert(0 * 1_000_000 / (1_000_000 + variance) == 0) by (nonlinear_arith)
        requires
            variance >= 0,
    ;
}

/// The confidence never exceeds one, nor the base confidence of its sample
/// count.
pub proof fn lemma_confidence_bounded(sample_count: nat, variance: nat)
    ensures
        confidence_micros(sample_count, variance) <= base_confidence(sample_count),
        confidence_micros(sample_count, variance) <= 1_000_000,
{
    let base = base_confidence(sample_count);
    assert(base * 1_000_000 / (1_000_000 + variance) <= base) by (nonlinear_arith)
        requires
            0 <= base,
            variance >= 0,
    ;
}

/// For a fixed variance, more samples never lower the confidence.
pub proof fn lemma_confidence_monotonic_in_samples(fewer: nat, more: nat, variance: nat)
    requires
        fewer <= more,
    ensures
        confidence_micros(fewer, variance) <= confidence_micros(more, variance),
{
    let low = base_confidence(fewer);
    let high = base_confidence(more);
    assert(low <= high);
    assert(low * 1_000_000 / (1_000_000 + variance) <= high * 1_000_000 / (1_000_000
        + variance)) by (nonlinear_arith)
        requires
            0 <= low <= high,
            variance >= 0,
    ;
}

/// For a fixed sample count, a larger variance never raises the confidence.
pub proof fn lemma_confidence_antitonic_in_variance(sample_count: nat, lower: nat, higher: nat)
    requires
        lower <= higher,
    ensures
        confidence_micros(sample_count, higher) <= confidence_micros(sample_count, lower),
{
    let base = base_confidence(sample_count);
    assert(base * 1_000_000 / (1_000_000 + higher) <= base * 1_000_000 / (1_000_000 + lower))
        by (nonlinear_arith)
        requires
            0 <= base,
            0 <= lower <= higher,
    ;
}

/// Calculates the confidence level from the number of samples and the
/// variance of their savings (in millionths).
pub fn calculate_confidence(sample_count: u32, variance: u128) -> (c: u32)
    ensures
        c == confidence_micros(sample_count as nat, variance as nat),
        c <= 1_000_000,
        sample_count == 0 ==> c == 0,
{
    let base: u128 = if sample_count == 0 {
        0
    } else if sample_count <= 5 {
        300_000
    } else if sample_count <= 20 {
        600_000
    } else if sample_count <= 50 {
        800_000
    } else {
        900_000
    };
    proof {
        lemma_confidence_bounded(sample_count as nat, variance as nat);
        lemma_confidence_zero_without_samples(variance as nat);
    }
    if variance >= VARIANCE_CUTOFF {
        proof {
            lemma_confidence_vanishes(sample_count as nat, variance as nat);
        }
        0
    } else {
        let scaled: u128 = base * 1_000_000 / (1_000_000 + variance);
        scaled as u32
    }
}

/// Whether `stat` records a compression of the given formats and sizes under
/// `settings`: the size range is that of the original size, the lossy flag
/// says whether the quality is below 90, and the saving is derived from the
/// two sizes (an expansion beyond the range of `i64` saturates).
pub open spec fn records(
    stat: CompressionStat,
    input_format: String,
    output_format: String,
    original_size: u64,
    compressed_size: u64,
    settings: CompressionSettings,
) -> bool {
    &&& stat.id is None
    &&& stat.input_format == input_format
    &&& stat.output_format == output_format
    &&& stat.input_size_range@ == spec_size_range(original_size)
    &&& stat.quality_setting == settings.quality
    &&& stat.lossy_mode == (settings.quality < 90)
    &&& stat.size_reduction_percent == clamp_i64(
        savings_percent_micros(original_size as int, compressed_size as int),
    )
    &&& stat.original_size == original_size
    &&& stat.compressed_size == compressed_size
    &&& stat.image_type is None
}

/// Creates a compression statistic record with the given timestamp.
pub fn create_stat_at(
    input_format: String,
    output_format: String,
    original_size: u64,
    compressed_size: u64,
    settings: &CompressionSettings,
    timestamp: String,
) -> (stat: CompressionStat)
    ensures
        records(stat, input_format, output_format, original_size, compressed_size, *settings),
        stat.compression_time_ms is None,
        stat.timestamp == timestamp,
{
    CompressionStat {
        id: None,
        input_format,
        output_format,
        input_size_range: get_size_range(original_size),
        quality_setting: settings.quality,
        lossy_mode: settings.quality < 90,
        size_reduction_percent: saturate_i64(savings_percent(original_size, compressed_size)),
        original_size,
        compressed_size,
        compression_time_ms: None,
        timestamp,
        image_type: None,
    }
}

/// Creates a compression statistic record, stamped with the current time.
pub fn create_stat(
    input_format: String,
    output_format: String,
    original_size: u64,
    compressed_size: u64,
    settings: &CompressionSettings,
) -> (stat: CompressionStat)
    ensures
        records(stat, input_format, output_format, original_size, compressed_size, *settings),
        stat.compression_time_ms is None,
{
    let timestamp = current_timestamp();
    create_stat_at(
        input_format,
        output_format,
        original_size,
        compressed_size,
        settings,
        timestamp,
    )
}

/// Creates a compression statistic record with timing information.
pub fn create_stat_with_time(
    input_format: String,
    output_format: String,
    original_size: u64,
    compressed_size: u64,
    compression_time_ms: u64,
    settings: &CompressionSettings,
    _tool_version: String,
) -> (stat: CompressionStat)
    ensures
        records(stat, input_format, output_format, original_size, compressed_size, *settings),
        stat.compression_time_ms == Some(compression_time_ms),
{
    let mut stat = create_stat(
        input_format,
        output_format,
        original_size,
        compressed_size,
        settings,
    );
    stat.compression_time_ms = Some(compression_time_ms);
    stat
}

} // verus!
