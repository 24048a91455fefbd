//! Where observations are kept, and how an estimate is drawn from them.

use crate::compression::error::StatsError;
use crate::compression::progress::{ProgressEstimationQuery, TimingHistory};
use crate::compression::settings::{clamp_quality, clamped_quality};
use crate::compression::stats::{
    calculate_confidence, confidence_micros, heuristic, heuristic_for, lemma_confidence_vanishes,
    CompressionStat, EstimationQuery, EstimationResult, VARIANCE_CUTOFF,
};
use crate::fixed::{floor_div, ratio_micros};
use crate::text::{lowercase, str_eq, to_lowercase};
use vstd::prelude::*;
use vstd::string::*;

verus! {

/// How far the quality of an observation may lie from the quality asked
/// about.
pub const QUALITY_WINDOW: u8 = 10;

/// Lowest quality of an observation that counts for a query.
pub open spec fn window_floor(quality: u8) -> int {
    if quality - QUALITY_WINDOW < 1 {
        1
    } else {
        quality - QUALITY_WINDOW
    }
}

/// Highest quality of an observation that counts for a query.
pub open spec fn window_ceiling(quality: u8) -> int {
    if quality + QUALITY_WINDOW > 100 {
        100
    } else {
        quality + QUALITY_WINDOW
    }
}

/// The bounds of the quality window of a query.
pub fn quality_window(quality: u8) -> (w: (u8, u8))
    ensures
        w.0 == window_floor(quality),
        w.1 == window_ceiling(quality),
{
    let low: u8 = if quality <= QUALITY_WINDOW {
        1
    } else {
        quality - QUALITY_WINDOW
    };
    let high: u8 = if quality >= 100 - QUALITY_WINDOW {
        100
    } else {
        quality + QUALITY_WINDOW
    };
    (low, high)
}

/// Whether an observation counts for a query: same formats, letter for
/// letter, a quality inside the window, and the same lossy flag.
pub open spec fn matches_query(stat: CompressionStat, query: EstimationQuery) -> bool {
    &&& stat.input_format@ == query.input_format@
    &&& stat.output_format@ == query.output_format@
    &&& window_floor(query.quality_setting) <= stat.quality_setting <= window_ceiling(
        query.quality_setting,
    )
    &&& stat.lossy_mode == query.lossy_mode
}

/// Tests `matches_query`.
pub fn stat_matches(stat: &CompressionStat, query: &EstimationQuery) -> (b: bool)
    ensures
        b == matches_query(*stat, *query),
{
    let (low, high) = quality_window(query.quality_setting);
    stat.input_format == query.input_format && stat.output_format == query.output_format && low
        <= stat.quality_setting && stat.quality_setting <= high && stat.lossy_mode
        == query.lossy_mode
}

/// The savings of the observations that count for a query, in the order in
/// which they were recorded.
pub open spec fn matching_savings(rows: Seq<CompressionStat>, query: EstimationQuery) -> Seq<i64>
    decreases rows.len(),
{
    if rows.len() == 0 {
        Seq::<i64>::empty()
    } else {
        let earlier = matching_savings(rows.drop_last(), query);
        if matches_query(rows.last(), query) {
            earlier.push(rows.last().size_reduction_percent)
        } else {
            earlier
        }
    }
}

/// Sum of a sequence of numbers.
pub open spec fn sum(samples: Seq<i64>) -> int
    decreases samples.len(),
{
    if samples.len() == 0 {
        0
    } else {
        sum(samples.drop_last()) + samples.last()
    }
}

/// Mean of a sequence of numbers, rounded down.
pub open spec fn mean(samples: Seq<i64>) -> int {
    sum(samples) / (samples.len() as int)
}

/// Sum of the squared distances of the numbers from a center.
pub open spec fn squared_deviations(samples: Seq<i64>, center: int) -> int
    decreases samples.len(),
{
    if samples.len() == 0 {
        0
    } else {
        squared_deviations(samples.drop_last(), center) + (samples.last() - center) * (
        samples.last() - center)
    }
}

/// Variance of savings held in millionths, itself in millionths: the mean
/// squared distance from the mean, rounded down.
pub open spec fn variance_micros(samples: Seq<i64>) -> int {
    squared_deviations(samples, mean(samples)) / (samples.len() as int) / 1_000_000
}

/// The estimate that a non-empty sequence of observed savings gives: their
/// mean, the ratio that goes with it, and a confidence from their number
/// and variance.
pub open spec fn estimate_of(samples: Seq<i64>) -> EstimationResult {
    EstimationResult {
        percent: mean(samples) as i64,
        ratio: ratio_micros(mean(samples)) as i64,
        confidence: confidence_micros(samples.len(), variance_micros(samples) as nat) as u32,
        sample_count: samples.len() as u32,
    }
}

/// The estimate for a pair of formats of which nothing was observed: the
/// heuristic table's saving and confidence, and a sample count of zero.
pub open spec fn fallback_estimate(query: EstimationQuery) -> EstimationResult {
    let (percent, confidence) = heuristic(
        lowercase(query.input_format@),
        lowercase(query.output_format@),
        clamp_quality(query.quality_setting),
    );
    EstimationResult {
        percent,
        ratio: ratio_micros(percent as int) as i64,
        confidence,
        sample_count: 0,
    }
}

/// The estimate that a store holding `rows` gives for a query.
pub open spec fn estimation(rows: Seq<CompressionStat>, query: EstimationQuery) -> EstimationResult {
    let samples = matching_savings(rows, query);
    if samples.len() > 0 {
        estimate_of(samples)
    } else {
        fallback_estimate(query)
    }
}

/// Where no observation counts for a query, the estimate is the heuristic
/// one of the query's formats and quality, the same every time, with a
/// sample count of zero.
pub proof fn lemma_estimation_without_matches(rows: Seq<CompressionStat>, query: EstimationQuery)
    requires
        matching_savings(rows, query).len() == 0,
    ensures
        estimation(rows, query) == fallback_estimate(query),
        estimation(rows, query).sample_count == 0,
        estimation(rows, query).percent == heuristic(
            lowercase(query.input_format@),
            lowercase(query.output_format@),
            clamp_quality(query.quality_setting),
        ).0,
        estimation(rows, query).confidence == heuristic(
            lowercase(query.input_format@),
            lowercase(query.output_format@),
            clamp_quality(query.quality_setting),
        ).1,
{
}

/// An empty store has no observation that counts for any query.
pub proof fn lemma_empty_store_matches_nothing(query: EstimationQuery)
    ensures
        matching_savings(Seq::<CompressionStat>::empty(), query).len() == 0,
{
}

/// The heuristic for PNG to WebP: a saving of 85 percent at a confidence
/// of 0.9 for a lossy quality, of 43 percent at 0.8 from quality 90 on.
pub proof fn lemma_heuristic_png_to_webp(quality: u8)
    ensures
        quality < 90 ==> heuristic("png"@, "webp"@, quality) == (85_000_000i64, 900_000u32),
        quality >= 90 ==> heuristic("png"@, "webp"@, quality) == (43_000_000i64, 800_000u32),
{
}

/// Where observations count for a query, the estimate counts them all, and
/// its confidence is at most one.
pub proof fn lemma_estimation_with_matches(rows: Seq<CompressionStat>, query: EstimationQuery)
    requires
        0 < matching_savings(rows, query).len() <= u32::MAX,
    ensures
        estimation(rows, query).sample_count == matching_savings(rows, query).len(),
        estimation(rows, query).confidence <= 1_000_000,
        estimation(rows, query).percent == mean(matching_savings(rows, query)),
{
    let samples = matching_savings(rows, query);
    lemma_mean_bounds(samples);
    lemma_squared_deviations_nonnegative(samples, mean(samples));
    let variance = variance_micros(samples);
    assert(variance >= 0) by (nonlinear_arith)
        requires
            variance == squared_deviations(samples, mean(samples)) / (samples.len() as int)
                / 1_000_000,
            squared_deviations(samples, mean(samples)) >= 0,
            samples.len() > 0,
    ;
    crate::compression::stats::lemma_confidence_bounded(samples.len(), variance as nat);
}

/// Whatever a store holds, the ratio of its estimate is what the saving
/// leaves, `(100 - percent) / 100`, and its confidence is at most one.
pub proof fn lemma_estimation_is_consistent(rows: Seq<CompressionStat>, query: EstimationQuery)
    requires
        matching_savings(rows, query).len() <= u32::MAX,
    ensures
        estimation(rows, query).ratio == ratio_micros(estimation(rows, query).percent as int),
        estimation(rows, query).confidence <= 1_000_000,
{
    let samples = matching_savings(rows, query);
    if samples.len() > 0 {
        lemma_estimation_with_matches(rows, query);
        lemma_mean_bounds(samples);
    }
}

/// The sum of `n` numbers of `i64` lies between `n` times the least and `n`
/// times the greatest of them.
pub proof fn lemma_sum_bounds(samples: Seq<i64>)
    ensures
        samples.len() * i64::MIN <= sum(samples) <= samples.len() * i64::MAX,
    decreases samples.len(),
{
    if samples.len() > 0 {
        lemma_sum_bounds(samples.drop_last());
        assert((samples.len() - 1) * i64::MIN + i64::MIN == samples.len() * i64::MIN)
            by (nonlinear_arith);
        assert((samples.len() - 1) * i64::MAX + i64::MAX == samples.len() * i64::MAX)
            by (nonlinear_arith);
    }
}

/// The mean of numbers of `i64` is a number of `i64`.
pub proof fn lemma_mean_bounds(samples: Seq<i64>)
    requires
        samples.len() > 0,
    ensures
        i64::MIN <= mean(samples) <= i64::MAX,
{
    lemma_sum_bounds(samples);
    let n = samples.len() as int;
    let s = sum(samples);
    assert(i64::MIN <= s / n <= i64::MAX) by (nonlinear_arith)
        requires
            n > 0,
            n * i64::MIN <= s <= n * i64::MAX,
    ;
}

/// Squared deviations are never negative.
pub proof fn lemma_squared_deviations_nonnegative(samples: Seq<i64>, center: int)
    ensures
        squared_deviations(samples, center) >= 0,
    decreases samples.len(),
{
    if samples.len() > 0 {
        lemma_squared_deviations_nonnegative(samples.drop_last(), center);
        let d = samples.last() - center;
        assert(d * d >= 0) by (nonlinear_arith);
    }
}

/// Adds up a sequence of numbers.
pub fn sum_of(samples: &Vec<i64>) -> (total: i128)
    requires
        samples@.len() <= u32::MAX,
    ensures
        total == sum(samples@),
{
    let mut total: i128 = 0;
    let mut i: usize = 0;
    while i < samples.len()
        invariant
            i <= samples@.len(),
            samples@.len() <= u32::MAX,
            total == sum(samples@.subrange(0, i as int)),
        decreases samples@.len() - i,
    {
        proof {
            let next = samples@.subrange(0, i + 1);
            assert(next.drop_last() =~= samples@.subrange(0, i as int));
            lemma_sum_bounds(samples@.subrange(0, i as int));
            assert(i * i64::MIN >= u32::MAX * i64::MIN) by (nonlinear_arith)
                requires
                    0 <= i <= u32::MAX,
            ;
            assert(i * i64::MAX <= u32::MAX * i64::MAX) by (nonlinear_arith)
                requires
                    0 <= i <= u32::MAX,
            ;
        }
        total = total + samples[i] as i128;
        i += 1;
    }
    assert(samples@.subrange(0, samples@.len() as int) =~= samples@);
    total
}

/// Adds up the squared distances of the numbers from a center; a sum beyond
/// the range of `u128` comes back as `u128::MAX`.
pub fn squared_deviations_of(samples: &Vec<i64>, center: i64) -> (total: u128)
    ensures
        total == if squared_deviations(samples@, center as int) > u128::MAX {
            u128::MAX as int
        } else {
            squared_deviations(samples@, center as int)
        },
{
    let mut total: u128 = 0;
    let mut i: usize = 0;
    while i < samples.len()
        invariant
            i <= samples@.len(),
            total == if squared_deviations(samples@.subrange(0, i as int), center as int)
                > u128::MAX {
                u128::MAX as int
            } else {
                squared_deviations(samples@.subrange(0, i as int), center as int)
            },
        decreases samples@.len() - i,
    {
        let distance: i128 = samples[i] as i128 - center as i128;
        let magnitude: u128 = if distance < 0 {
            (-distance) as u128
        } else {
            distance as u128
        };
        assert(magnitude * magnitude == distance * distance) by (nonlinear_arith)
            requires
                magnitude == distance || magnitude == -distance,
        ;
        assert(magnitude * magnitude <= 0xffff_ffff_ffff_ffff * 0xffff_ffff_ffff_ffff)
            by (nonlinear_arith)
            requires
                0 <= magnitude <= 0xffff_ffff_ffff_ffff,
        ;
        let square: u128 = magnitude * magnitude;
        proof {
            let next = samples@.subrange(0, i + 1);
            assert(next.drop_last() =~= samples@.subrange(0, i as int));
            lemma_squared_deviations_nonnegative(samples@.subrange(0, i as int), center as int);
        }
        total = total.saturating_add(square);
        i += 1;
    }
    assert(samples@.subrange(0, samples@.len() as int) =~= samples@);
    total
}

/// Draws the estimate from the savings of the observations that count.
pub fn estimate_from_savings(samples: &Vec<i64>) -> (r: EstimationResult)
    requires
        0 < samples@.len() <= u32::MAX,
    ensures
        r == estimate_of(samples@),
        r.confidence <= 1_000_000,
{
    let count: u32 = samples.len() as u32;
    let total = sum_of(samples);
    proof {
        lemma_mean_bounds(samples@);
    }
    let center: i64 = floor_div(total, count as i128) as i64;
    let squares = squared_deviations_of(samples, center);
    let variance: u128 = squares / (count as u128) / 1_000_000;
    let confidence = calculate_confidence(count, variance);
    proof {
        let exact = squared_deviations(samples@, center as int);
        lemma_squared_deviations_nonnegative(samples@, center as int);
        if exact > u128::MAX {
            // The sum ran over: both the variance computed and the true one
            // are past the point where the confidence vanishes.
            let n = count as int;
            assert(squares / (count as u128) / 1_000_000 >= VARIANCE_CUTOFF) by (nonlinear_arith)
                requires
                    squares == u128::MAX,
                    0 < count <= u32::MAX,
            ;
            assert(exact / n / 1_000_000 >= VARIANCE_CUTOFF) by (nonlinear_arith)
                requires
                    exact > u128::MAX,
                    0 < n <= u32::MAX,
            ;
            lemma_confidence_vanishes(count as nat, variance as nat);
            lemma_confidence_vanishes(count as nat, (exact / n / 1_000_000) as nat);
        }
    }
    let ratio = floor_div(100_000_000 - center as i128, 100);
    EstimationResult {
        percent: center,
        ratio: ratio as i64,
        confidence,
        sample_count: count,
    }
}

/// Computes the estimate for a pair of formats of which nothing was
/// observed.
pub fn fallback_for(query: &EstimationQuery) -> (r: EstimationResult)
    ensures
        r == fallback_estimate(*query),
        r.sample_count == 0,
        r.confidence <= 1_000_000,
        r.ratio == ratio_micros(r.percent as int),
{
    let input = to_lowercase(query.input_format.as_str());
    let output = to_lowercase(query.output_format.as_str());
    let quality = clamped_quality(query.quality_setting);
    let (percent, confidence) = heuristic_for(input.as_str(), output.as_str(), quality);
    let ratio = floor_div(100_000_000 - percent as i128, 100);
    EstimationResult { percent, ratio: ratio as i64, confidence, sample_count: 0 }
}

/// The estimate for a query, given the savings of the observations that
/// count for it: drawn from them if there are any, from the heuristic table
/// if there are none.
pub fn estimation_from_samples(samples: &Vec<i64>, query: &EstimationQuery) -> (r:
    EstimationResult)
    requires
        samples@.len() <= u32::MAX,
    ensures
        r == if samples@.len() > 0 {
            estimate_of(samples@)
        } else {
            fallback_estimate(*query)
        },
        r.sample_count == samples@.len(),
        r.confidence <= 1_000_000,
        r.ratio == ratio_micros(r.percent as int),
{
    if samples.len() > 0 {
        proof {
            lemma_mean_bounds(samples@);
        }
        estimate_from_savings(samples)
    } else {
        fallback_for(query)
    }
}

/// Collects the savings of the observations that count for a query.
pub fn collect_matching(rows: &Vec<CompressionStat>, query: &EstimationQuery) -> (samples: Vec<
    i64,
>)
    ensures
        samples@ == matching_savings(rows@, *query),
        samples@.len() <= rows@.len(),
{
    let mut samples: Vec<i64> = Vec::new();
    let mut i: usize = 0;
    while i < rows.len()
        invariant
            i <= rows@.len(),
            samples@ == matching_savings(rows@.subrange(0, i as int), *query),
            samples@.len() <= i,
        decreases rows@.len() - i,
    {
        proof {
            let next = rows@.subrange(0, i + 1);
            assert(next.drop_last() =~= rows@.subrange(0, i as int));
        }
        if stat_matches(&rows[i], query) {
            samples.push(rows[i].size_reduction_percent);
        }
        i += 1;
    }
    assert(rows@.subrange(0, rows@.len() as int) =~= rows@);
    samples
}

/// The question about savings that asks for the same observations as a
/// question about durations.
pub open spec fn as_estimation_query(query: ProgressEstimationQuery) -> EstimationQuery {
    EstimationQuery {
        input_format: query.input_format,
        output_format: query.output_format,
        original_size: query.original_size,
        quality_setting: query.quality_setting,
        lossy_mode: query.lossy_mode,
    }
}

/// Rephrases a question about durations as the question about savings that
/// asks for the same observations.
pub fn estimation_query_of(query: &ProgressEstimationQuery) -> (r: EstimationQuery)
    ensures
        r == as_estimation_query(*query),
{
    EstimationQuery {
        input_format: query.input_format.clone(),
        output_format: query.output_format.clone(),
        original_size: query.original_size,
        quality_setting: query.quality_setting,
        lossy_mode: query.lossy_mode,
    }
}

/// The durations of the observations that count for a query and were
/// timed, in the order in which they were recorded.
pub open spec fn matching_timings(rows: Seq<CompressionStat>, query: EstimationQuery) -> Seq<u64>
    decreases rows.len(),
{
    if rows.len() == 0 {
        Seq::<u64>::empty()
    } else {
        let earlier = matching_timings(rows.drop_last(), query);
        match rows.last().compression_time_ms {
            Some(duration) => if matches_query(rows.last(), query) {
                earlier.push(duration)
            } else {
                earlier
            },
            None => earlier,
        }
    }
}

/// Sum of a sequence of durations.
pub open spec fn total_duration(timings: Seq<u64>) -> int
    decreases timings.len(),
{
    if timings.len() == 0 {
        0
    } else {
        total_duration(timings.drop_last()) + timings.last()
    }
}

/// What a sequence of durations says: nothing if it is empty, else the mean,
/// rounded down, and the count.
pub open spec fn history_of(timings: Seq<u64>) -> Option<TimingHistory> {
    if timings.len() == 0 {
        None
    } else {
        Some(
            TimingHistory {
                mean_duration_ms: (total_duration(timings) / (timings.len() as int)) as u64,
                sample_count: timings.len() as u32,
            },
        )
    }
}

/// The sum of `n` durations lies between zero and `n` times the greatest
/// value of `u64`.
pub proof fn lemma_total_duration_bounds(timings: Seq<u64>)
    ensures
        0 <= total_duration(timings) <= timings.len() * u64::MAX,
    decreases timings.len(),
{
    if timings.len() > 0 {
        lemma_total_duration_bounds(timings.drop_last());
        assert((timings.len() - 1) * u64::MAX + u64::MAX == timings.len() * u64::MAX)
            by (nonlinear_arith);
    }
}

/// Collects the durations of the observations that count for a query.
pub fn collect_timings(rows: &Vec<CompressionStat>, query: &EstimationQuery) -> (timings: Vec<u64>)
    ensures
        timings@ == matching_timings(rows@, *query),
        timings@.len() <= rows@.len(),
{
    let mut timings: Vec<u64> = Vec::new();
    let mut i: usize = 0;
    while i < rows.len()
        invariant
            i <= rows@.len(),
            timings@ == matching_timings(rows@.subrange(0, i as int), *query),
            timings@.len() <= i,
        decreases rows@.len() - i,
    {
        proof {
            let next = rows@.subrange(0, i + 1);
            assert(next.drop_last() =~= rows@.subrange(0, i as int));
        }
        match rows[i].compression_time_ms {
            Some(duration) => {
                if stat_matches(&rows[i], query) {
                    timings.push(duration);
                }
            },
            None => {},
        }
        i += 1;
    }
    assert(rows@.subrange(0, rows@.len() as int) =~= rows@);
    timings
}

/// Summarizes durations: their mean and count, or nothing if there are
/// none.
pub fn summarize_timings(timings: &Vec<u64>) -> (r: Option<TimingHistory>)
    requires
        timings@.len() <= u32::MAX,
    ensures
        r == history_of(timings@),
{
    if timings.len() == 0 {
        return None;
    }
    let mut total: u128 = 0;
    let mut i: usize = 0;
    while i < timings.len()
        invariant
            i <= timings@.len(),
            timings@.len() <= u32::MAX,
            total == total_duration(timings@.subrange(0, i as int)),
        decreases timings@.len() - i,
    {
        proof {
            let next = timings@.subrange(0, i + 1);
            assert(next.drop_last() =~= timings@.subrange(0, i as int));
            lemma_total_duration_bounds(timings@.subrange(0, i as int));
            assert(i * u64::MAX <= u32::MAX * u64::MAX) by (nonlinear_arith)
                requires
                    0 <= i <= u32::MAX,
            ;
        }
        total = total + timings[i] as u128;
        i += 1;
    }
    assert(timings@.subrange(0, timings@.len() as int) =~= timings@);
    let count: u32 = timings.len() as u32;
    proof {
        lemma_total_duration_bounds(timings@);
        let n = count as int;
        let t = total as int;
        assert(t / n <= u64::MAX) by (nonlinear_arith)
            requires
                0 < n,
                0 <= t <= n * u64::MAX,
        ;
    }
    Some(TimingHistory { mean_duration_ms: (total / count as u128) as u64, sample_count: count })
}

/// Whether an observation is of a pair of formats, letter for letter.
pub open spec fn is_of_pair(stat: CompressionStat, input: Seq<char>, output: Seq<char>) -> bool {
    stat.input_format@ == input && stat.output_format@ == output
}

/// The savings of the observations of a pair of formats, in the order in
/// which they were recorded.
pub open spec fn savings_of_pair(rows: Seq<CompressionStat>, input: Seq<char>, output: Seq<char>)
    -> Seq<i64>
    decreases rows.len(),
{
    if rows.len() == 0 {
        Seq::<i64>::empty()
    } else {
        let earlier = savings_of_pair(rows.drop_last(), input, output);
        if is_of_pair(rows.last(), input, output) {
            earlier.push(rows.last().size_reduction_percent)
        } else {
            earlier
        }
    }
}

/// The mean of savings, rounded down; zero where there are none.
pub open spec fn average_of(samples: Seq<i64>) -> int {
    if samples.len() == 0 {
        0
    } else {
        mean(samples)
    }
}

/// Computes the mean of savings; zero where there are none.
pub fn average_saving_of(samples: &Vec<i64>) -> (average: i64)
    requires
        samples@.len() <= u32::MAX,
    ensures
        average == average_of(samples@),
{
    if samples.len() == 0 {
        0
    } else {
        let total = sum_of(samples);
        proof {
            lemma_mean_bounds(samples@);
        }
        floor_div(total, samples.len() as i128) as i64
    }
}

/// A place that can say what compressions of a pair of formats have saved
/// on average.
pub trait SavingsHistory {
    /// The mean saving observed for a pair of formats, in millionths of a
    /// percent; zero where nothing was observed.
    fn average_saving(&self, input_format: &str, output_format: &str) -> (r: Result<
        i64,
        StatsError,
    >);
}

/// The last `limit` observations, or all of them where there are fewer.
pub open spec fn latest(rows: Seq<CompressionStat>, limit: nat) -> Seq<CompressionStat> {
    if rows.len() > limit {
        rows.subrange(rows.len() - limit, rows.len() as int)
    } else {
        rows
    }
}

/// A place whose observations can be pruned to the most recent ones.
pub trait Retention {
    /// Drops all but the most recent observations, up to a maximum number,
    /// and returns how many were dropped.
    fn cleanup_old_records(&mut self, max_records: u32) -> (r: Result<u32, StatsError>);
}

/// A place that can say how long compressions like a given one have taken.
pub trait TimingStore {
    /// The mean duration and the number of the observations that count for
    /// a query, or nothing if none was timed.
    fn get_timing(&self, query: &ProgressEstimationQuery) -> (r: Result<
        Option<TimingHistory>,
        StatsError,
    >)
        ensures
            r matches Ok(Some(history)) ==> history.sample_count > 0,
    ;
}

/// A place that keeps observations and estimates from them.
pub trait StatsStore {
    /// Saves a compression statistic and returns the id of its row.
    fn save_stat(&mut self, stat: CompressionStat) -> (r: Result<i64, StatsError>);

    /// Estimates the saving for a query from what the store holds.
    fn get_estimation(&self, query: &EstimationQuery) -> (r: Result<EstimationResult, StatsError>)
        ensures
            r matches Ok(estimate) ==> estimate.confidence <= 1_000_000 && estimate.ratio
                == ratio_micros(estimate.percent as int),
    ;

    /// Removes every observation.
    fn clear_all(&mut self) -> (r: Result<(), StatsError>);

    /// Counts the observations.
    fn count_stats(&self) -> (r: Result<u32, StatsError>);
}

/// The estimate for a query, given what a store answered when asked for
/// one: the store's estimate, or the heuristic one where the store failed.
pub open spec fn estimate_or_fallback(
    answer: Result<EstimationResult, StatsError>,
    query: EstimationQuery,
) -> EstimationResult {
    match answer {
        Ok(estimate) => estimate,
        Err(_) => fallback_estimate(query),
    }
}

/// Settles the estimate for a query on what a store answered: a failure of
/// the store counts as no observation, and gives the heuristic estimate of
/// the query's formats, with a sample count of zero.
pub fn estimation_or_fallback(
    answer: Result<EstimationResult, StatsError>,
    query: &EstimationQuery,
) -> (r: EstimationResult)
    ensures
        r == estimate_or_fallback(answer, *query),
        answer is Err ==> r == fallback_estimate(*query) && r.sample_count == 0,
{
    match answer {
        Ok(estimate) => estimate,
        Err(_) => fallback_for(query),
    }
}

/// Looks the estimate for a query up in a store. Never fails: where the
/// store does, the estimate is the heuristic one, as if nothing had been
/// observed.
pub fn estimate_from_store<S: StatsStore>(store: &S, query: &EstimationQuery) -> (r:
    EstimationResult)
    ensures
        exists|answer: Result<EstimationResult, StatsError>|
            call_ensures(S::get_estimation, (store, query), answer) && r
                == #[trigger] estimate_or_fallback(answer, *query),
        r.confidence <= 1_000_000,
        r.ratio == ratio_micros(r.percent as int),
{
    let answer = store.get_estimation(query);
    let r = estimation_or_fallback(answer, query);
    assert(r == estimate_or_fallback(answer, *query));
    r
}

/// A store that keeps its observations in memory.
pub struct MemoryStatsStore {
    rows: Vec<CompressionStat>,
    next_id: i64,
}

impl MemoryStatsStore {
    /// The observations held, oldest first.
    pub closed spec fn rows(&self) -> Seq<CompressionStat> {
        self.rows@
    }

    /// The id that the next observation saved will get.
    pub closed spec fn next_id(&self) -> i64 {
        self.next_id
    }

    /// What every store keeps true of itself: ids start at one, and the
    /// count of rows fits the counter that `count_stats` returns.
    #[verifier::type_invariant]
    closed spec fn well_formed(&self) -> bool {
        &&& self.next_id >= 1
        &&& self.rows@.len() <= u32::MAX
    }

    /// Whether the store can take one more observation.
    pub open spec fn has_room(&self) -> bool {
        self.rows().len() < u32::MAX && self.next_id() < i64::MAX
    }

    /// Creates an empty store.
    pub fn new() -> (store: MemoryStatsStore)
        ensures
            store.rows() == Seq::<CompressionStat>::empty(),
            store.next_id() == 1,
    {
        MemoryStatsStore { rows: Vec::new(), next_id: 1 }
    }

    /// Creates an empty store.
    pub fn in_memory() -> (r: Result<MemoryStatsStore, StatsError>)
        ensures
            r is Ok,
            r matches Ok(store) ==> store.rows() == Seq::<CompressionStat>::empty()
                && store.next_id() == 1,
    {
        Ok(Self::new())
    }
}

/// The row that saving `stat` under `id` adds.
pub open spec fn stored(stat: CompressionStat, id: i64) -> CompressionStat {
    CompressionStat { id: Some(id), ..stat }
}

impl StatsStore for MemoryStatsStore {
    /// Appends the observation under the next id. Fails, and changes
    /// nothing, only when the store has no room left.
    fn save_stat(&mut self, stat: CompressionStat) -> (r: Result<i64, StatsError>)
        ensures
            r matches Ok(id) ==> id > 0,
            old(self).has_room() ==> r == Ok::<i64, StatsError>(old(self).next_id())
                && final(self).rows() == old(self).rows().push(stored(stat, old(self).next_id()))
                && final(self).next_id() == old(self).next_id() + 1,
            !old(self).has_room() ==> (r matches Err(StatsError::DatabaseError(_))),
            !old(self).has_room() ==> final(self).rows() == old(self).rows() && final(
                self
            ).next_id() == old(self).next_id(),
    {
        proof {
            use_type_invariant(&*self);
        }
        if self.rows.len() >= u32::MAX as usize || self.next_id == i64::MAX {
            return Err(StatsError::DatabaseError(String::from_str("statistics store is full")));
        }
        let id = self.next_id;
        let mut row = stat;
        row.id = Some(id);
        let mut held = MemoryStatsStore::new();
        core::mem::swap(self, &mut held);
        let MemoryStatsStore { rows, next_id } = held;
        let mut rows = rows;
        rows.push(row);
        *self = MemoryStatsStore { rows, next_id: id + 1 };
        Ok(id)
    }

    /// The estimate drawn from the observations that count for the query,
    /// or the heuristic one when none does. Never fails.
    fn get_estimation(&self, query: &EstimationQuery) -> (r: Result<EstimationResult, StatsError>)
        ensures
            r == Ok::<EstimationResult, StatsError>(estimation(self.rows(), *query)),
    {
        proof {
            use_type_invariant(self);
        }
        let samples = collect_matching(&self.rows, query);
        Ok(estimation_from_samples(&samples, query))
    }

    /// Removes every observation; ids are not handed out again.
    fn clear_all(&mut self) -> (r: Result<(), StatsError>)
        ensures
            r is Ok,
            final(self).rows() == Seq::<CompressionStat>::empty(),
            final(self).next_id() == old(self).next_id(),
    {
        proof {
            use_type_invariant(&*self);
        }
        *self = MemoryStatsStore { rows: Vec::new(), next_id: self.next_id };
        Ok(())
    }

    /// The number of observations held. Never fails.
    fn count_stats(&self) -> (r: Result<u32, StatsError>)
        ensures
            r == Ok::<u32, StatsError>(self.rows().len() as u32),
            self.rows().len() <= u32::MAX,
    {
        proof {
            use_type_invariant(self);
        }
        Ok(self.rows.len() as u32)
    }
}

impl Retention for MemoryStatsStore {
    /// Keeps the most recent observations, up to the maximum, in their
    /// order. Never fails.
    fn cleanup_old_records(&mut self, max_records: u32) -> (r: Result<u32, StatsError>)
        ensures
            final(self).rows() == latest(old(self).rows(), max_records as nat),
            final(self).next_id() == old(self).next_id(),
            r == Ok::<u32, StatsError>(
                (old(self).rows().len() - final(self).rows().len()) as u32,
            ),
    {
        proof {
            use_type_invariant(&*self);
        }
        let length = self.rows.len();
        if length <= max_records as usize {
            return Ok(0);
        }
        let excess = length - max_records as usize;
        let mut held = MemoryStatsStore::new();
        core::mem::swap(self, &mut held);
        let MemoryStatsStore { rows, next_id } = held;
        let mut rows = rows;
        let kept = rows.split_off(excess);
        *self = MemoryStatsStore { rows: kept, next_id };
        Ok(excess as u32)
    }
}

impl SavingsHistory for MemoryStatsStore {
    /// The mean saving of the observations of the pair. Never fails.
    fn average_saving(&self, input_format: &str, output_format: &str) -> (r: Result<
        i64,
        StatsError,
    >)
        ensures
            r == Ok::<i64, StatsError>(
                average_of(savings_of_pair(self.rows(), input_format@, output_format@)) as i64,
            ),
    {
        proof {
            use_type_invariant(self);
        }
        let mut samples: Vec<i64> = Vec::new();
        let mut i: usize = 0;
        while i < self.rows.len()
            invariant
                i <= self.rows@.len(),
                samples@ == savings_of_pair(
                    self.rows@.subrange(0, i as int),
                    input_format@,
                    output_format@,
                ),
                samples@.len() <= i,
            decreases self.rows@.len() - i,
        {
            proof {
                let next = self.rows@.subrange(0, i + 1);
                assert(next.drop_last() =~= self.rows@.subrange(0, i as int));
            }
            let row = &self.rows[i];
            if str_eq(row.input_format.as_str(), input_format) && str_eq(
                row.output_format.as_str(),
                output_format,
            ) {
                samples.push(row.size_reduction_percent);
            }
            i += 1;
        }
        assert(self.rows@.subrange(0, self.rows@.len() as int) =~= self.rows@);
        Ok(average_saving_of(&samples))
    }
}

impl TimingStore for MemoryStatsStore {
    /// What the timed observations that count for the query say. Never
    /// fails.
    fn get_timing(&self, query: &ProgressEstimationQuery) -> (r: Result<
        Option<TimingHistory>,
        StatsError,
    >)
        ensures
            r == Ok::<Option<TimingHistory>, StatsError>(
                history_of(matching_timings(self.rows(), as_estimation_query(*query))),
            ),
    {
        proof {
            use_type_invariant(self);
        }
        let key = estimation_query_of(query);
        let timings = collect_timings(&self.rows, &key);
        Ok(summarize_timings(&timings))
    }
}

} // verus!
