use plume::compression::calculator::{
    apply_easing, fraction_elapsed, EasingFunction, ProgressCalculator, ProgressConfig,
    ProgressState,
};
use plume::compression::error::StatsError;
use plume::compression::progress::{
    default_compression_times, default_duration_for, lookup_duration, normalize_format,
    ProgressEstimationQuery, ProgressEstimationService, TimingHistory,
};
use plume::compression::store::MemoryStatsStore;

fn query(input: &str, output: &str, size: u64, lossy: bool) -> ProgressEstimationQuery {
    ProgressEstimationQuery {
        input_format: input.to_string(),
        output_format: output.to_string(),
        original_size: size,
        quality_setting: 80,
        lossy_mode: lossy,
    }
}

#[test]
fn fallback_for_png_to_webp_small() {
    let service = ProgressEstimationService::new();
    let store = MemoryStatsStore::new();
    let estimate = service.estimate_duration_with(&query("png", "webp", 500_000, true), &store);
    assert_eq!(estimate.estimated_duration_ms, 300);
    assert!(estimate.confidence < 500_000);
    assert_eq!(estimate.confidence, 400_000);
    assert_eq!(estimate.sample_count, 0);
    let again = service.estimate_duration_with(&query("png", "webp", 500_000, true), &store);
    assert_eq!(estimate, again);
}

#[test]
fn default_table_entries() {
    let table = default_compression_times();
    assert_eq!(table.len(), 15);
    let cases: Vec<(&str, &str, &str, u64)> = vec![
        ("png", "webp", "small", 300),
        ("png", "webp", "medium", 1200),
        ("png", "webp", "large", 3000),
        ("png", "png", "small", 800),
        ("png", "png", "medium", 2500),
        ("png", "png", "large", 6000),
        ("jpeg", "webp", "small", 200),
        ("jpeg", "webp", "medium", 800),
        ("jpeg", "webp", "large", 2000),
        ("jpeg", "jpeg", "small", 150),
        ("jpeg", "jpeg", "medium", 500),
        ("jpeg", "jpeg", "large", 1200),
        ("webp", "webp", "small", 250),
        ("webp", "webp", "medium", 900),
        ("webp", "webp", "large", 2200),
    ];
    for (input, output, range, duration) in cases {
        assert_eq!(lookup_duration(&table, input, output, range), Some(duration));
    }
    assert_eq!(lookup_duration(&table, "jpg", "webp", "small"), None);
    assert_eq!(lookup_duration(&table, "webp", "png", "small"), None);
    assert_eq!(lookup_duration(&table, "png", "webp", "tiny"), None);
    assert!(lookup_duration(&table, "png", "png", "small") > lookup_duration(&table, "png", "webp", "small"));
}

#[test]
fn formats_are_normalized() {
    assert_eq!(normalize_format("JPG"), "jpeg");
    assert_eq!(normalize_format("jpg"), "jpeg");
    assert_eq!(normalize_format("JPEG"), "jpeg");
    assert_eq!(normalize_format("PnG"), "png");
    assert_eq!(normalize_format("gif"), "gif");
    let service = ProgressEstimationService::new();
    let estimate = service.estimate_from_defaults(&query("JPG", "WebP", 2_000_000, true));
    assert_eq!(estimate.estimated_duration_ms, 800);
}

#[test]
fn lossless_penalty_and_size_only_fallback() {
    assert_eq!(default_duration_for("png", "webp", 500_000, false), 375);
    assert_eq!(default_duration_for("png", "webp", 500_000, true), 300);
    assert_eq!(default_duration_for("jpeg", "webp", 6_000_000, false), 2500);
    assert_eq!(default_duration_for("webp", "webp", 500_000, false), 250);
    assert_eq!(default_duration_for("png", "png", 500_000, false), 800);
    assert_eq!(default_duration_for("gif", "png", 1_000_000, true), 300);
    assert_eq!(default_duration_for("gif", "png", 1_000_001, true), 1000);
    assert_eq!(default_duration_for("gif", "webp", 5_000_000, false), 1000);
    assert_eq!(default_duration_for("gif", "webp", 5_000_001, false), 2500);
}

#[test]
fn history_wins_over_defaults_and_errors_count_as_no_data() {
    let service = ProgressEstimationService::new();
    let q = query("png", "webp", 500_000, true);
    let with_data = service.estimate_duration(
        &q,
        Ok(Some(TimingHistory { mean_duration_ms: 777, sample_count: 4 })),
    );
    assert_eq!(with_data.estimated_duration_ms, 777);
    assert_eq!(with_data.sample_count, 4);
    assert_eq!(with_data.confidence, 800_000);
    let failed = service.estimate_duration(&q, Err(StatsError::DatabaseError("down".to_string())));
    let unavailable = service.estimate_duration(&q, Err(StatsError::NotAvailable));
    let none = service.estimate_duration(&q, Ok(None));
    let empty = service.estimate_duration(
        &q,
        Ok(Some(TimingHistory { mean_duration_ms: 777, sample_count: 0 })),
    );
    for estimate in [failed, unavailable, none, empty] {
        assert_eq!(estimate.estimated_duration_ms, 300);
        assert_eq!(estimate.confidence, 400_000);
        assert_eq!(estimate.sample_count, 0);
        assert!(estimate.confidence < with_data.confidence);
    }
}

#[test]
fn default_config() {
    let config = ProgressConfig::default();
    assert_eq!(config.estimated_duration_ms, 1000);
    assert_eq!(config.update_interval_ms, 50);
    assert_eq!(config.easing_function, EasingFunction::EaseOut);
    assert_eq!(config.completion_threshold, 95_000_000);
    assert!(config.completion_threshold < 100_000_000);
    assert!(config.is_valid());
    assert!(!ProgressConfig { completion_threshold: 100_000_000, ..config }.is_valid());
}

#[test]
fn progress_is_monotonic_and_capped() {
    for easing in [
        EasingFunction::Linear,
        EasingFunction::EaseOut,
        EasingFunction::Bezier(250_000, 100_000, 250_000, 1_000_000),
    ] {
        for duration in [0u64, 1, 7, 1000, 123_456] {
            let config = ProgressConfig {
                estimated_duration_ms: duration,
                update_interval_ms: 50,
                easing_function: easing,
                completion_threshold: 95_000_000,
            };
            let mut last = 0;
            for step in 0..=220u64 {
                let elapsed = duration / 200 * step + step;
                let p = config.progress_at(elapsed);
                assert!(p >= last);
                assert!(p <= config.completion_threshold);
                last = p;
                let expected = if p < config.completion_threshold {
                    ProgressState::Running
                } else {
                    ProgressState::Capped
                };
                assert_eq!(config.state_at(elapsed), expected);
            }
            assert_eq!(config.progress_at(duration), 95_000_000);
            assert_eq!(config.progress_at(u64::MAX), 95_000_000);
            assert_eq!(config.state_at(duration), ProgressState::Capped);
        }
    }
}

#[test]
fn easing_formulas() {
    assert_eq!(fraction_elapsed(250, 1000), 250_000);
    assert_eq!(fraction_elapsed(1, 3), 333_333);
    assert_eq!(fraction_elapsed(5, 0), 1_000_000);
    assert_eq!(fraction_elapsed(2000, 1000), 1_000_000);
    assert_eq!(apply_easing(EasingFunction::Linear, 500_000), 500_000);
    assert_eq!(apply_easing(EasingFunction::EaseOut, 500_000), 875_000);
    assert_eq!(apply_easing(EasingFunction::Bezier(0, 0, 0, 0), 500_000), 750_000);
    assert_eq!(apply_easing(EasingFunction::EaseOut, 0), 0);
    assert_eq!(apply_easing(EasingFunction::EaseOut, 1_000_000), 1_000_000);
    assert_eq!(apply_easing(EasingFunction::Bezier(0, 0, 0, 0), 0), 0);
    let config = ProgressConfig::default();
    assert_eq!(config.progress_at(0), 0);
    assert_eq!(config.progress_at(500), 83_125_000);
    assert_eq!(config.progress_at(1000), 95_000_000);
    let linear = ProgressConfig { easing_function: EasingFunction::Linear, ..config };
    assert_eq!(linear.progress_at(500), 47_500_000);
    assert_eq!(linear.state_at(999), ProgressState::Running);
}

#[test]
fn calculator_follows_the_clock() {
    let config = ProgressConfig {
        estimated_duration_ms: 3_600_000,
        update_interval_ms: 50,
        easing_function: EasingFunction::Linear,
        completion_threshold: 95_000_000,
    };
    let calculator = ProgressCalculator::new(config);
    assert_eq!(calculator.get_config(), config);
    let first = calculator.current_progress();
    assert!(calculator.should_continue_updates());
    let second = calculator.current_progress();
    assert!(second >= first);
    assert!(second < config.completion_threshold);

    let done = ProgressCalculator::new(ProgressConfig { estimated_duration_ms: 0, ..config });
    assert_eq!(done.current_progress(), 95_000_000);
    assert!(!done.should_continue_updates());
}
