use plume::compression::formats::OutputFormat;
use plume::compression::progress::{ProgressEstimationQuery, TimingHistory};
use plume::compression::settings::CompressionSettings;
use plume::compression::sqlite::SqliteStatsStore;
use plume::compression::stats::{
    create_stat, create_stat_with_time, CompressionStat, EstimationQuery,
};
use plume::compression::error::StatsError;
use plume::compression::stats::EstimationResult;
use plume::compression::store::{
    estimate_from_savings, estimate_from_store, estimation_from_samples, estimation_or_fallback,
    fallback_for, quality_window, MemoryStatsStore, Retention, SavingsHistory, StatsStore,
    TimingStore,
};

fn query(input: &str, output: &str, quality: u8, lossy: bool) -> EstimationQuery {
    EstimationQuery {
        input_format: input.to_string(),
        output_format: output.to_string(),
        original_size: 1_000_000,
        quality_setting: quality,
        lossy_mode: lossy,
    }
}

fn stat(input: &str, output: &str, quality: u8, original: u64, compressed: u64) -> CompressionStat {
    create_stat(
        input.to_string(),
        output.to_string(),
        original,
        compressed,
        &CompressionSettings::new(quality, OutputFormat::WebP),
    )
}

fn check_store<S: StatsStore>(store: &mut S) {
    assert_eq!(store.count_stats().unwrap(), 0);
    let fallback = store.get_estimation(&query("png", "webp", 80, true)).unwrap();
    assert_eq!(fallback.percent, 85_000_000);
    assert_eq!(fallback.ratio, 150_000);
    assert_eq!(fallback.confidence, 900_000);
    assert_eq!(fallback.sample_count, 0);
    let again = store.get_estimation(&query("png", "webp", 80, true)).unwrap();
    assert_eq!(fallback, again);

    let first = store.save_stat(stat("png", "webp", 80, 1000, 400)).unwrap();
    let second = store.save_stat(stat("png", "webp", 75, 1000, 600)).unwrap();
    let third = store.save_stat(stat("png", "webp", 95, 1000, 900)).unwrap();
    store.save_stat(stat("jpg", "webp", 80, 1000, 100)).unwrap();
    store.save_stat(stat("png", "webp", 50, 1000, 100)).unwrap();
    assert!(first > 0 && second > first && third > second);
    assert_eq!(store.count_stats().unwrap(), 5);

    let estimate = store.get_estimation(&query("png", "webp", 80, true)).unwrap();
    assert_eq!(estimate.sample_count, 2);
    assert_eq!(estimate.percent, 50_000_000);
    assert_eq!(estimate.ratio, 500_000);
    assert_eq!(estimate.confidence, 2_970);

    let lossless = store.get_estimation(&query("png", "webp", 95, false)).unwrap();
    assert_eq!(lossless.sample_count, 1);
    assert_eq!(lossless.percent, 10_000_000);
    assert_eq!(lossless.confidence, 300_000);

    let wrong_flag = store.get_estimation(&query("png", "webp", 95, true)).unwrap();
    assert_eq!(wrong_flag.sample_count, 0);
    assert_eq!(wrong_flag.percent, 43_000_000);
    assert_eq!(wrong_flag.confidence, 800_000);

    let case_matters = store.get_estimation(&query("PNG", "webp", 80, true)).unwrap();
    assert_eq!(case_matters.sample_count, 0);
    assert_eq!(case_matters.percent, 85_000_000);

    store.clear_all().unwrap();
    assert_eq!(store.count_stats().unwrap(), 0);
    let cleared = store.get_estimation(&query("png", "webp", 80, true)).unwrap();
    assert_eq!(cleared, fallback);
    let next = store.save_stat(stat("png", "webp", 80, 1000, 400)).unwrap();
    assert!(next > third);
}

#[test]
fn memory_store_semantics() {
    check_store(&mut MemoryStatsStore::new());
}

#[test]
fn sqlite_store_semantics() {
    check_store(&mut SqliteStatsStore::in_memory().unwrap());
}

#[test]
fn test_sqlite_store_creation() {
    let store = SqliteStatsStore::in_memory();
    assert!(store.is_ok());
}

#[test]
fn test_save_and_retrieve_stat() {
    let mut store = SqliteStatsStore::in_memory().unwrap();

    let stat = create_stat(
        "png".to_string(),
        "webp".to_string(),
        1000000,
        400000,
        &CompressionSettings::new(80, OutputFormat::WebP),
    );

    let id = store.save_stat(stat).unwrap();
    assert!(id > 0);

    let count = store.count_stats().unwrap();
    assert_eq!(count, 1);
}

#[test]
fn test_store_integration() {
    let mut store = SqliteStatsStore::in_memory().unwrap();

    let settings = CompressionSettings::new(80, OutputFormat::WebP);
    let stat = create_stat(
        "png".to_string(),
        "webp".to_string(),
        1000000,
        400000,
        &settings,
    );

    let id = store.save_stat(stat).unwrap();
    assert!(id > 0);

    let query = EstimationQuery {
        input_format: "png".to_string(),
        output_format: "webp".to_string(),
        original_size: 1000000,
        quality_setting: 80,
        lossy_mode: true,
    };

    let estimation = store.get_estimation(&query).unwrap();
    assert!(estimation.sample_count > 0);
}

#[test]
fn memory_store_constructor_like_the_database() {
    let store = MemoryStatsStore::in_memory().unwrap();
    assert_eq!(store.count_stats().unwrap(), 0);
}

#[test]
fn sqlite_store_opened_by_path() {
    let mut store = SqliteStatsStore::new(":memory:").unwrap();
    store.save_stat(stat("png", "webp", 80, 1000, 400)).unwrap();
    assert_eq!(store.count_stats().unwrap(), 1);
    assert!(SqliteStatsStore::new("/nonexistent-directory/x/y.db").is_err());
}

#[test]
fn quality_window_bounds() {
    assert_eq!(quality_window(80), (70, 90));
    assert_eq!(quality_window(5), (1, 15));
    assert_eq!(quality_window(10), (1, 20));
    assert_eq!(quality_window(11), (1, 21));
    assert_eq!(quality_window(95), (85, 100));
    assert_eq!(quality_window(90), (80, 100));
    assert_eq!(quality_window(0), (1, 10));
    assert_eq!(quality_window(255), (245, 100));
}

#[test]
fn estimates_from_samples() {
    let q = query("png", "webp", 80, true);
    let one = estimation_from_samples(&vec![60_000_000], &q);
    assert_eq!(one.percent, 60_000_000);
    assert_eq!(one.ratio, 400_000);
    assert_eq!(one.confidence, 300_000);
    assert_eq!(one.sample_count, 1);

    let equal = estimate_from_savings(&vec![40_000_000; 60]);
    assert_eq!(equal.percent, 40_000_000);
    assert_eq!(equal.confidence, 900_000);
    assert_eq!(equal.sample_count, 60);

    let negative = estimate_from_savings(&vec![-3, -4]);
    assert_eq!(negative.percent, -4);
    assert_eq!(negative.ratio, 1_000_000);

    let spread = estimate_from_savings(&vec![i64::MIN, i64::MAX, 0, 5, 6, 7]);
    assert_eq!(spread.confidence, 0);
    assert_eq!(spread.sample_count, 6);

    let small_spread = estimate_from_savings(&vec![10_000_000, 11_000_000, 12_000_000]);
    assert_eq!(small_spread.percent, 11_000_000);
    assert_eq!(small_spread.confidence, 180_000);

    let fallback = estimation_from_samples(&vec![], &q);
    assert_eq!(fallback.sample_count, 0);
    assert_eq!(fallback.percent, 85_000_000);
}

#[test]
fn fallback_uses_the_clamped_quality() {
    let store = MemoryStatsStore::new();
    let low = store.get_estimation(&query("png", "webp", 0, true)).unwrap();
    assert_eq!(low.percent, 85_000_000);
    let high = store.get_estimation(&query("png", "webp", 200, true)).unwrap();
    assert_eq!(high.percent, 43_000_000);
    let other = store.get_estimation(&query("gif", "tiff", 80, true)).unwrap();
    assert_eq!((other.percent, other.confidence, other.sample_count), (5_000_000, 300_000, 0));
}

fn check_timing<S: StatsStore + TimingStore + SavingsHistory>(store: &mut S) {
    let settings = CompressionSettings::new(80, OutputFormat::WebP);
    let q = ProgressEstimationQuery {
        input_format: "png".to_string(),
        output_format: "webp".to_string(),
        original_size: 10,
        quality_setting: 80,
        lossy_mode: true,
    };
    assert_eq!(store.get_timing(&q).unwrap(), None);
    assert_eq!(store.average_saving("png", "webp").unwrap(), 0);
    store.save_stat(stat("png", "webp", 80, 1000, 400)).unwrap();
    assert_eq!(store.get_timing(&q).unwrap(), None);
    for (time, compressed) in [(100u64, 500u64), (201, 700)] {
        store
            .save_stat(create_stat_with_time(
                "png".to_string(),
                "webp".to_string(),
                1000,
                compressed,
                time,
                &settings,
                "v".to_string(),
            ))
            .unwrap();
    }
    store
        .save_stat(create_stat_with_time(
            "png".to_string(),
            "webp".to_string(),
            1000,
            1000,
            9999,
            &CompressionSettings::new(95, OutputFormat::WebP),
            "v".to_string(),
        ))
        .unwrap();
    assert_eq!(
        store.get_timing(&q).unwrap(),
        Some(TimingHistory { mean_duration_ms: 150, sample_count: 2 })
    );
    assert_eq!(store.average_saving("png", "webp").unwrap(), 35_000_000);
    assert_eq!(store.average_saving("png", "png").unwrap(), 0);
}

fn check_retention<S: StatsStore + Retention>(store: &mut S) {
    assert_eq!(store.cleanup_old_records(3).unwrap(), 0);
    for compressed in [100u64, 200, 300, 400, 500] {
        store.save_stat(stat("png", "webp", 80, 1000, compressed)).unwrap();
    }
    assert_eq!(store.cleanup_old_records(5).unwrap(), 0);
    assert_eq!(store.cleanup_old_records(2).unwrap(), 3);
    assert_eq!(store.count_stats().unwrap(), 2);
    let estimate = store.get_estimation(&query("png", "webp", 80, true)).unwrap();
    assert_eq!(estimate.percent, 55_000_000);
    assert_eq!(store.cleanup_old_records(0).unwrap(), 2);
    assert_eq!(store.count_stats().unwrap(), 0);
}

#[test]
fn memory_store_retention() {
    check_retention(&mut MemoryStatsStore::new());
}

#[test]
fn sqlite_store_retention() {
    check_retention(&mut SqliteStatsStore::in_memory().unwrap());
}

#[test]
fn memory_store_timings_and_averages() {
    check_timing(&mut MemoryStatsStore::new());
}

#[test]
fn sqlite_store_timings_and_averages() {
    check_timing(&mut SqliteStatsStore::in_memory().unwrap());
}

struct BrokenStore;

impl StatsStore for BrokenStore {
    fn save_stat(&mut self, _stat: CompressionStat) -> Result<i64, StatsError> {
        Err(StatsError::NotAvailable)
    }

    fn get_estimation(&self, _query: &EstimationQuery) -> Result<EstimationResult, StatsError> {
        Err(StatsError::DatabaseError("disk full".to_string()))
    }

    fn clear_all(&mut self) -> Result<(), StatsError> {
        Err(StatsError::NotAvailable)
    }

    fn count_stats(&self) -> Result<u32, StatsError> {
        Err(StatsError::NotAvailable)
    }
}

#[test]
fn a_failing_store_counts_as_no_observation() {
    let lossy = query("png", "webp", 80, true);
    let expected = EstimationResult {
        percent: 85_000_000,
        ratio: 150_000,
        confidence: 900_000,
        sample_count: 0,
    };
    assert_eq!(estimate_from_store(&BrokenStore, &lossy), expected);
    assert_eq!(fallback_for(&lossy), expected);
    assert_eq!(
        estimation_or_fallback(Err(StatsError::DatabaseError("locked".to_string())), &lossy),
        expected
    );
    let unknown = query("gif", "bmp", 80, true);
    assert_eq!(
        estimate_from_store(&BrokenStore, &unknown),
        EstimationResult { percent: 5_000_000, ratio: 950_000, confidence: 300_000, sample_count: 0 }
    );
    let given = EstimationResult { percent: 1, ratio: 999_999, confidence: 2, sample_count: 3 };
    assert_eq!(estimation_or_fallback(Ok(given), &lossy), given);
}

fn check_lookup<S: StatsStore>(store: &mut S) {
    let lossy = query("png", "webp", 80, true);
    assert_eq!(estimate_from_store(store, &lossy), fallback_for(&lossy));
    store.save_stat(stat("png", "webp", 80, 1000, 400)).unwrap();
    store.save_stat(stat("png", "webp", 85, 1000, 200)).unwrap();
    let estimate = estimate_from_store(store, &lossy);
    assert_eq!(estimate, store.get_estimation(&lossy).unwrap());
    assert_eq!(estimate.percent, 70_000_000);
    assert_eq!(estimate.ratio, 300_000);
    assert_eq!(estimate.sample_count, 2);
}

#[test]
fn lookups_go_by_the_store_where_it_answers() {
    check_lookup(&mut MemoryStatsStore::new());
    check_lookup(&mut SqliteStatsStore::in_memory().unwrap());
}
