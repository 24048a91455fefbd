use plume::compression::formats::OutputFormat;
use plume::compression::settings::CompressionSettings;
use plume::compression::stats::{
    calculate_confidence, create_stat, create_stat_at, create_stat_with_time,
    estimate_compression, get_size_range,
};

#[test]
fn test_size_range() {
    assert_eq!(get_size_range(500_000), "small");
    assert_eq!(get_size_range(3_000_000), "medium");
    assert_eq!(get_size_range(10_000_000), "large");
}

#[test]
fn size_range_boundaries() {
    assert_eq!(get_size_range(0), "small");
    assert_eq!(get_size_range(1_000_000), "small");
    assert_eq!(get_size_range(1_000_001), "medium");
    assert_eq!(get_size_range(5_000_000), "medium");
    assert_eq!(get_size_range(5_000_001), "large");
    assert_eq!(get_size_range(u64::MAX), "large");
}

#[test]
fn test_estimate_compression() {
    let settings = CompressionSettings::new(80, OutputFormat::WebP);
    let result = estimate_compression("png", "webp", 1000000, &settings);

    assert!(result.percent > 50_000_000);
    assert!(result.confidence > 500_000);
    assert_eq!(result.ratio, (100_000_000 - result.percent) / 100);
}

#[test]
fn test_estimation_workflow() {
    let settings = CompressionSettings::new(80, OutputFormat::WebP);
    let estimate = estimate_compression("png", "webp", 1000000, &settings);

    assert!(estimate.percent > 0);
    assert!(estimate.ratio < 1_000_000);
    assert!(estimate.confidence <= 1_000_000);
}

#[test]
fn test_calculate_confidence() {
    assert_eq!(calculate_confidence(0, 0), 0);
    assert!(calculate_confidence(100, 100_000) > 800_000);
    assert!(calculate_confidence(3, 0) < 500_000);
}

#[test]
fn heuristic_table() {
    let lossy = CompressionSettings::new(80, OutputFormat::WebP);
    let lossless = CompressionSettings::new(95, OutputFormat::WebP);
    let cases: Vec<(&str, &str, &CompressionSettings, i64, u32, u32)> = vec![
        ("png", "webp", &lossy, 85_000_000, 900_000, 0),
        ("PNG", "WebP", &lossless, 43_000_000, 800_000, 0),
        ("jpg", "webp", &lossy, 25_000_000, 700_000, 0),
        ("jpeg", "webp", &lossless, 25_000_000, 700_000, 0),
        ("png", "png", &lossy, 15_000_000, 900_000, 0),
        ("jpg", "jpeg", &lossy, 20_000_000, 800_000, 0),
        ("webp", "webp", &lossy, 10_000_000, 600_000, 0),
        ("gif", "webp", &lossy, 5_000_000, 300_000, 0),
        ("webp", "png", &lossy, 5_000_000, 300_000, 0),
    ];
    for (input, output, settings, percent, confidence, samples) in cases {
        let result = estimate_compression(input, output, 1, settings);
        assert_eq!(result.percent, percent);
        assert_eq!(result.confidence, confidence);
        assert_eq!(result.sample_count, samples);
        assert_eq!(result.ratio, (100_000_000 - percent) / 100);
    }
}

#[test]
fn confidence_exact_values() {
    assert_eq!(calculate_confidence(1, 0), 300_000);
    assert_eq!(calculate_confidence(5, 0), 300_000);
    assert_eq!(calculate_confidence(6, 0), 600_000);
    assert_eq!(calculate_confidence(20, 0), 600_000);
    assert_eq!(calculate_confidence(21, 0), 800_000);
    assert_eq!(calculate_confidence(50, 0), 800_000);
    assert_eq!(calculate_confidence(51, 0), 900_000);
    assert_eq!(calculate_confidence(100, 1_000_000), 450_000);
    assert_eq!(calculate_confidence(100, 100_000), 818_181);
    assert_eq!(calculate_confidence(0, 12345), 0);
    assert_eq!(calculate_confidence(u32::MAX, u128::MAX), 0);
}

#[test]
fn confidence_grows_with_samples_and_stays_below_one() {
    for variance in [0u128, 1, 500_000, 1_000_000, 123_456_789, 2_000_000_000_000] {
        let mut last = 0;
        for count in 0..200u32 {
            let c = calculate_confidence(count, variance);
            assert!(c >= last);
            assert!(c <= 1_000_000);
            last = c;
        }
    }
}

#[test]
fn stats_are_derived_from_sizes_and_quality() {
    let settings = CompressionSettings::new(80, OutputFormat::WebP);
    let stat = create_stat("png".to_string(), "webp".to_string(), 2_000_000, 500_000, &settings);
    assert_eq!(stat.input_size_range, "medium");
    assert!(stat.lossy_mode);
    assert_eq!(stat.size_reduction_percent, 75_000_000);
    assert_eq!(stat.quality_setting, 80);
    assert_eq!(stat.id, None);
    assert_eq!(stat.compression_time_ms, None);
    assert!(!stat.timestamp.is_empty());

    let high = CompressionSettings::new(95, OutputFormat::WebP);
    let stat = create_stat_with_time(
        "png".to_string(),
        "webp".to_string(),
        100,
        150,
        42,
        &high,
        "v1".to_string(),
    );
    assert!(!stat.lossy_mode);
    assert_eq!(stat.size_reduction_percent, -50_000_000);
    assert_eq!(stat.compression_time_ms, Some(42));
    assert_eq!(stat.input_size_range, "small");

    let stat = create_stat_at(
        "png".to_string(),
        "png".to_string(),
        0,
        10,
        &settings,
        "2024-01-01T00:00:00+00:00".to_string(),
    );
    assert_eq!(stat.size_reduction_percent, 0);
    assert_eq!(stat.timestamp, "2024-01-01T00:00:00+00:00");

    let stat = create_stat("a".to_string(), "b".to_string(), 1, u64::MAX, &settings);
    assert_eq!(stat.size_reduction_percent, i64::MIN);
}
