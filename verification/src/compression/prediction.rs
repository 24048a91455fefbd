//! Prediction of savings from the historical average of a pair of formats,
//! adjusted for the size of the file.

use crate::compression::error::StatsError;
use crate::compression::settings::CompressionSettings;
use crate::compression::stats::{
    create_stat, EstimationQuery, EstimationResult, MEDIUM_LIMIT, SMALL_LIMIT,
};
use crate::compression::formats::OutputFormat;
use crate::compression::store::{Retention, SavingsHistory, StatsStore};
use crate::fixed::{floor_div, ratio_micros, saturate_i64, clamp_i64};
use crate::shared::error::DomainError;
use crate::text::str_eq;
use vstd::prelude::*;
use vstd::string::*;

verus! {

/// Confidence of a prediction that rests on defaults: 0.3.
pub const DEFAULT_CONFIDENCE: u32 = 300_000;

/// Confidence of a prediction that rests on a historical average: 0.8.
pub const HISTORICAL_CONFIDENCE: u32 = 800_000;

/// A saving adjusted for the size of the file: small files keep eight
/// tenths of it, medium files all of it, large files get a tenth more. The
/// result is rounded down.
pub open spec fn size_adjusted(base_reduction: i64, file_size: u64) -> int {
    if file_size <= SMALL_LIMIT {
        base_reduction * 8 / 10
    } else if file_size <= MEDIUM_LIMIT {
        base_reduction as int
    } else {
        base_reduction * 11 / 10
    }
}

/// Adjusts a predicted saving for the size of the file. A result beyond the
/// range of `i64` saturates.
pub fn adjust_for_size(base_reduction: i64, file_size: u64) -> (adjusted: i64)
    ensures
        adjusted == clamp_i64(size_adjusted(base_reduction, file_size)),
{
    if file_size <= SMALL_LIMIT {
        floor_div(base_reduction as i128 * 8, 10) as i64
    } else if file_size <= MEDIUM_LIMIT {
        base_reduction
    } else {
        saturate_i64(floor_div(base_reduction as i128 * 11, 10))
    }
}

/// The number of samples taken to stand behind a pair of formats, named as
/// "PNG", "JPEG" and "WebP".
pub open spec fn assumed_sample_count(input: Seq<char>, output: Seq<char>) -> u32 {
    if (input == "PNG"@ || input == "JPEG"@) && output == "WebP"@ {
        50
    } else if (input == "PNG"@ && output == "PNG"@) || (input == "JPEG"@ && output == "JPEG"@) {
        30
    } else {
        10
    }
}

/// Estimates the sample count for a pair of formats.
pub fn estimate_sample_count(input_format: &str, output_format: &str) -> (count: u32)
    ensures
        count == assumed_sample_count(input_format@, output_format@),
{
    let input_png = str_eq(input_format, "PNG");
    let input_jpeg = str_eq(input_format, "JPEG");
    if (input_png || input_jpeg) && str_eq(output_format, "WebP") {
        50
    } else if (input_png && str_eq(output_format, "PNG")) || (input_jpeg && str_eq(
        output_format,
        "JPEG",
    )) {
        30
    } else {
        10
    }
}

/// The share of a base confidence that a sample count lets stand, in
/// millionths.
pub open spec fn sample_factor(sample_count: u32) -> int {
    if sample_count <= 5 {
        300_000
    } else if sample_count <= 20 {
        600_000
    } else if sample_count <= 50 {
        800_000
    } else {
        1_000_000
    }
}

/// A base confidence weighed by the sample count, in millionths, rounded
/// down and capped at one.
pub open spec fn weighed_confidence(base_confidence: u32, sample_count: u32) -> int {
    let weighed = base_confidence * sample_factor(sample_count) / 1_000_000;
    if weighed > 1_000_000 {
        1_000_000
    } else {
        weighed
    }
}

/// Weighs a base confidence by the sample count.
pub fn weigh_confidence(base_confidence: u32, sample_count: u32) -> (c: u32)
    ensures
        c == weighed_confidence(base_confidence, sample_count),
        c <= 1_000_000,
{
    let factor: u64 = if sample_count <= 5 {
        300_000
    } else if sample_count <= 20 {
        600_000
    } else if sample_count <= 50 {
        800_000
    } else {
        1_000_000
    };
    assert(base_confidence * factor <= 0xffff_ffff * 1_000_000) by (nonlinear_arith)
        requires
            0 <= base_confidence <= 0xffff_ffff,
            0 <= factor <= 1_000_000,
    ;
    let weighed: u64 = base_confidence as u64 * factor / 1_000_000;
    if weighed > 1_000_000 {
        1_000_000
    } else {
        weighed as u32
    }
}

/// The saving assumed for a pair of formats of which nothing was observed,
/// in millionths of a percent. Formats are named as "PNG", "JPEG" and
/// "WebP".
pub open spec fn default_reduction(input: Seq<char>, output: Seq<char>) -> i64 {
    if input == "PNG"@ && output == "WebP"@ {
        70_000_000
    } else if input == "JPEG"@ && output == "WebP"@ {
        25_000_000
    } else if input == "PNG"@ && output == "PNG"@ {
        15_000_000
    } else if input == "JPEG"@ && output == "JPEG"@ {
        20_000_000
    } else {
        10_000_000
    }
}

/// Looks up the saving assumed for a pair of formats.
pub fn default_reduction_for(input_format: &str, output_format: &str) -> (r: i64)
    ensures
        r == default_reduction(input_format@, output_format@),
{
    let input_png = str_eq(input_format, "PNG");
    let input_jpeg = str_eq(input_format, "JPEG");
    let output_webp = str_eq(output_format, "WebP");
    if input_png && output_webp {
        70_000_000
    } else if input_jpeg && output_webp {
        25_000_000
    } else if input_png && str_eq(output_format, "PNG") {
        15_000_000
    } else if input_jpeg && str_eq(output_format, "JPEG") {
        20_000_000
    } else {
        10_000_000
    }
}

/// The saving to go by for a pair of formats, given the historical average
/// of the pair: the average, or the default for the pair where the average
/// is zero, which is how a store reports that it has observed nothing.
pub open spec fn base_reduction(historical_average: i64, input: Seq<char>, output: Seq<char>)
    -> i64 {
    if historical_average == 0 {
        default_reduction(input, output)
    } else {
        historical_average
    }
}

/// Chooses the saving to go by for a pair of formats.
pub fn reduction_or_default(historical_average: i64, input_format: &str, output_format: &str) -> (r:
    i64)
    ensures
        r == base_reduction(historical_average, input_format@, output_format@),
{
    if historical_average == 0 {
        default_reduction_for(input_format, output_format)
    } else {
        historical_average
    }
}

/// The size that a signed size stands for: a negative one reads as the
/// greatest size.
pub open spec fn size_of_signed(size: i64) -> u64 {
    if size < 0 {
        u64::MAX
    } else {
        size as u64
    }
}

/// The prediction for a pair of formats and a size, given the historical
/// average of the pair (zero where there is none): the average, or the
/// default for the pair, adjusted for the size; the ratio that goes with
/// it; the confidence of the source weighed by the assumed sample count.
pub open spec fn prediction(
    historical_average: i64,
    input: Seq<char>,
    output: Seq<char>,
    original_size: i64,
) -> EstimationResult {
    let base = base_reduction(historical_average, input, output);
    let confidence = if historical_average == 0 {
        DEFAULT_CONFIDENCE
    } else {
        HISTORICAL_CONFIDENCE
    };
    let percent = clamp_i64(size_adjusted(base, size_of_signed(original_size)));
    let sample_count = assumed_sample_count(input, output);
    EstimationResult {
        percent: percent as i64,
        ratio: ratio_micros(percent) as i64,
        confidence: weighed_confidence(confidence, sample_count) as u32,
        sample_count,
    }
}

/// Predicts the saving from the historical average of the pair.
pub fn predict_from_average(
    historical_average: i64,
    input_format: &str,
    output_format: &str,
    original_size: i64,
) -> (r: EstimationResult)
    ensures
        r == prediction(historical_average, input_format@, output_format@, original_size),
        r.confidence <= 1_000_000,
        r.ratio == ratio_micros(r.percent as int),
{
    let base = reduction_or_default(historical_average, input_format, output_format);
    let confidence = if historical_average == 0 {
        DEFAULT_CONFIDENCE
    } else {
        HISTORICAL_CONFIDENCE
    };
    let size: u64 = if original_size < 0 {
        u64::MAX
    } else {
        original_size as u64
    };
    let percent = adjust_for_size(base, size);
    let sample_count = estimate_sample_count(input_format, output_format);
    EstimationResult {
        percent,
        ratio: floor_div(100_000_000 - percent as i128, 100) as i64,
        confidence: weigh_confidence(confidence, sample_count),
        sample_count,
    }
}

/// Whether `r` is the prediction that goes with what a store answered when
/// asked for the average of the pair: the prediction from the average, or
/// an internal error that carries the words of the store's failure.
pub open spec fn is_prediction_from(
    answer: Result<i64, StatsError>,
    input: Seq<char>,
    output: Seq<char>,
    original_size: i64,
    r: Result<EstimationResult, DomainError>,
) -> bool {
    match answer {
        Ok(average) => r == Ok::<EstimationResult, DomainError>(
            prediction(average, input, output, original_size),
        ),
        Err(e) => r matches Err(DomainError::Internal(reason)) && reason@ == e.spec_to_string(),
    }
}

/// Predicts the saving from what a store answered when asked for the
/// average of the pair.
pub fn prediction_from_answer(
    answer: Result<i64, StatsError>,
    input_format: &str,
    output_format: &str,
    original_size: i64,
) -> (r: Result<EstimationResult, DomainError>)
    ensures
        is_prediction_from(answer, input_format@, output_format@, original_size, r),
{
    match answer {
        Ok(average) => Ok(
            predict_from_average(average, input_format, output_format, original_size),
        ),
        Err(e) => Err(DomainError::Internal(e.to_string())),
    }
}

/// Whether `r` holds the statistics that go with what a store answered when
/// asked for the average of the pair: the average and the assumed sample
/// count, or an internal error that carries the words of the store's
/// failure.
pub open spec fn is_stats_from(
    answer: Result<i64, StatsError>,
    input: Seq<char>,
    output: Seq<char>,
    r: Result<(i64, u32), DomainError>,
) -> bool {
    match answer {
        Ok(average) => r == Ok::<(i64, u32), DomainError>(
            (average, assumed_sample_count(input, output)),
        ),
        Err(e) => r matches Err(DomainError::Internal(reason)) && reason@ == e.spec_to_string(),
    }
}

/// Pairs what a store answered when asked for the average of the pair with
/// the assumed sample count.
pub fn stats_from_answer(answer: Result<i64, StatsError>, input_format: &str, output_format: &str)
    -> (r: Result<(i64, u32), DomainError>)
    ensures
        is_stats_from(answer, input_format@, output_format@, r),
{
    match answer {
        Ok(average) => Ok((average, estimate_sample_count(input_format, output_format))),
        Err(e) => Err(DomainError::Internal(e.to_string())),
    }
}

/// What recording answers, given what the store answered when asked to
/// save: the id of the row, or an internal error that carries the words of
/// the store's failure.
pub fn recording_outcome(saved: Result<i64, StatsError>) -> (r: Result<i64, DomainError>)
    ensures
        match saved {
            Ok(id) => r == Ok::<i64, DomainError>(id),
            Err(e) => r matches Err(DomainError::Internal(reason)) && reason@
                == e.spec_to_string(),
        },
{
    match saved {
        Ok(id) => Ok(id),
        Err(e) => Err(DomainError::Internal(e.to_string())),
    }
}

/// Predicts compression results from what a store has observed.
pub struct CompressionPredictionService<S> {
    pub store: S,
}

/// How many observations the prediction service keeps.
pub const MAX_RECORDS: u32 = 1000;

impl<S: StatsStore + SavingsHistory + Retention> CompressionPredictionService<S> {
    /// Creates a prediction service over a store.
    pub fn new(store: S) -> (service: CompressionPredictionService<S>)
        ensures
            service.store == store,
    {
        CompressionPredictionService { store }
    }

    /// Predicts compression results based on historical statistics: asks
    /// the store for the average of the pair and predicts from it as
    /// `predict_from_average` says. A failure of the store is an internal
    /// error.
    pub fn predict_compression(
        &self,
        input_format: &str,
        output_format: &str,
        original_size: i64,
    ) -> (r: Result<EstimationResult, DomainError>)
        ensures
            exists|answer: Result<i64, StatsError>|
                call_ensures(S::average_saving, (&self.store, input_format, output_format), answer)
                    && #[trigger] is_prediction_from(
                    answer,
                    input_format@,
                    output_format@,
                    original_size,
                    r,
                ),
            r matches Ok(estimate) ==> estimate.confidence <= 1_000_000 && estimate.ratio
                == ratio_micros(estimate.percent as int),
            r matches Err(e) ==> e is Internal,
    {
        let answer = self.store.average_saving(input_format, output_format);
        let r = prediction_from_answer(answer, input_format, output_format, original_size);
        assert(is_prediction_from(answer, input_format@, output_format@, original_size, r));
        r
    }

    /// Records a compression result for future predictions, and returns
    /// the id of its row; then prunes the store to its most recent
    /// observations. The observation is recorded under the default quality
    /// of 80. A negative size is refused as invalid input; a failure of the
    /// store to save is an internal error; a failure to prune is passed
    /// over.
    pub fn record_compression_result(
        &mut self,
        input_format: String,
        output_format: String,
        original_size: i64,
        compressed_size: i64,
        _tool_version: Option<String>,
    ) -> (r: Result<i64, DomainError>)
        ensures
            original_size < 0 || compressed_size < 0 <==> (r matches Err(
                DomainError::InvalidInput(_),
            )),
            original_size < 0 || compressed_size < 0 ==> final(self).store == old(self).store,
            r matches Err(e) ==> e is Internal || e is InvalidInput,
    {
        if original_size < 0 || compressed_size < 0 {
            return Err(DomainError::InvalidInput(String::from_str("Sizes cannot be negative")));
        }
        let settings = CompressionSettings::new(80, OutputFormat::WebP);
        let stat = create_stat(
            input_format,
            output_format,
            original_size as u64,
            compressed_size as u64,
            &settings,
        );
        let saved = self.store.save_stat(stat);
        if saved.is_ok() {
            let _ = self.store.cleanup_old_records(MAX_RECORDS);
        }
        recording_outcome(saved)
    }

    /// Gets the average saving and the assumed sample count for a pair of
    /// formats.
    pub fn get_compression_stats(&self, input_format: &str, output_format: &str) -> (r: Result<
        (i64, u32),
        DomainError,
    >)
        ensures
            exists|answer: Result<i64, StatsError>|
                call_ensures(S::average_saving, (&self.store, input_format, output_format), answer)
                    && #[trigger] is_stats_from(answer, input_format@, output_format@, r),
            r matches Ok(stats) ==> stats.1 == assumed_sample_count(
                input_format@,
                output_format@,
            ),
            r matches Err(e) ==> e is Internal,
    {
        let answer = self.store.average_saving(input_format, output_format);
        let r = stats_from_answer(answer, input_format, output_format);
        assert(is_stats_from(answer, input_format@, output_format@, r));
        r
    }
}

/// Creates a compression prediction query.
pub fn create_prediction_query(
    input_format: String,
    output_format: String,
    original_size: u64,
    quality_setting: u8,
    lossy_mode: bool,
) -> (query: EstimationQuery)
    ensures
        query == (EstimationQuery {
            input_format,
            output_format,
            original_size,
            quality_setting,
            lossy_mode,
        }),
{
    EstimationQuery { input_format, output_format, original_size, quality_setting, lossy_mode }
}

} // verus!
