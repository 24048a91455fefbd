use plume::commands::{
    count_save, outcome_for_count, plan_output_path, request_settings, resolve_output_format,
    seed_compression_database, seed_records, shown_name_of, BatchProgress, CompressionRecord,
    SeedData, SeedOutcome, CompressBatchResponse,
    CompressImageResponse, CompressionProgressEvent, CompressionStage, GetEstimationRequest,
    GetProgressEstimationRequest, RecordStatRequest,
};
use plume::compression::engine::CompressionOutput;
use plume::compression::formats::OutputFormat;
use plume::compression::prediction::{
    adjust_for_size, create_prediction_query, estimate_sample_count, predict_from_average,
    prediction_from_answer, recording_outcome, reduction_or_default, stats_from_answer,
    weigh_confidence, CompressionPredictionService,
};
use plume::shared::error::DomainError;
use plume::compression::settings::CompressionSettings;
use plume::compression::error::StatsError;
use plume::compression::sqlite::{statement_outcome, SqliteStatsStore};
use plume::compression::stats::{CompressionStat, EstimationQuery, EstimationResult};
use plume::compression::store::{MemoryStatsStore, StatsStore};
use plume::entities::{DroppedFile, ImageInfo};
use plume::file::metadata::{validate_image_metadata, FileMetadata};
use plume::file::operations::{
    backup_path_at, copy_target, first_free_name, generate_backup_path, matches_cleanup_pattern,
    stamped_name, FileOperation, OperationType,
};
use plume::file::path::PathUtils;
use plume::services::{
    BuiltinCompressor, CompressionService, FileService, FileServiceError, ImageCompressor,
    JpegCompressor, OxipngCompressor, WebpCompressor,
};
use plume::shared::hash::{content_equal, content_id, content_id_of, simple_hash};
use plume::shared::strings::{
    generate_temp_filename, sanitize_filename, temp_filename_at, truncate_with_ellipsis,
};
use plume::shared::time::{current_timestamp, format_duration_ms};
use plume::shared::version::{cleanup, format_file_size, get_version_info, VersionInfo};

#[test]
fn test_sanitize_filename() {
    assert_eq!(sanitize_filename("safe_file.jpg"), "safe_file.jpg");
    assert_eq!(sanitize_filename("unsafe<>file.jpg"), "unsafe__file.jpg");
    assert_eq!(sanitize_filename("file:with|bad?chars"), "file_with_bad_chars");
}

#[test]
fn test_truncate_with_ellipsis() {
    assert_eq!(truncate_with_ellipsis("short", 10), "short");
    assert_eq!(truncate_with_ellipsis("this is a long string", 10), "this is...");
    assert_eq!(truncate_with_ellipsis("abc", 2), "...");
}

#[test]
fn test_generate_temp_filename() {
    let filename = generate_temp_filename("test", "jpg");
    assert!(filename.starts_with("test_"));
    assert!(filename.ends_with(".jpg"));
}

#[test]
fn test_format_duration_ms() {
    assert_eq!(format_duration_ms(500), "500ms");
    assert_eq!(format_duration_ms(1500), "1.5s");
    assert_eq!(format_duration_ms(65000), "1m 5s");
    assert_eq!(format_duration_ms(3661000), "1h 1m");
}

#[test]
fn test_content_hash() {
    let data1 = b"hello world";
    let data2 = b"hello world";
    let data3 = b"different data";

    assert_eq!(simple_hash(data1), simple_hash(data2));
    assert_ne!(simple_hash(data1), simple_hash(data3));

    assert!(content_equal(data1, data2));
    assert!(!content_equal(data1, data3));

    let id1 = content_id(data1);
    let id2 = content_id(data2);
    assert_eq!(id1, id2);
    assert!(id1.starts_with("content_"));
}

#[test]
fn test_version_info() {
    let version = get_version_info();
    assert!(!version.version.is_empty());

    let display = version.to_string();
    assert!(display.starts_with("v"));
    assert!(display.contains("built"));
    assert!(display.contains("from"));
}

#[test]
fn test_shared_utilities_integration() {
    assert!(plume::shared::paths::is_safe_path("safe/path/file.jpg"));
    assert!(!plume::shared::paths::is_safe_path("../unsafe/path"));

    assert_eq!(plume::shared::size::format_bytes(1024), "1.0 KB");
    assert_eq!(plume::shared::size::calculate_savings_percent(1000, 500), 50_000_000);

    assert_eq!(sanitize_filename("file<>name.jpg"), "file__name.jpg");

    assert!(plume::shared::validation::validate_quality(80).is_ok());
    assert!(plume::shared::validation::validate_quality(0).is_err());
}

#[test]
fn test_size_adjustment() {
    let small_result = adjust_for_size(70_000_000, 500_000);
    assert!(small_result < 70_000_000);

    let medium_result = adjust_for_size(70_000_000, 2_000_000);
    assert_eq!(medium_result, 70_000_000);

    let large_result = adjust_for_size(70_000_000, 8_000_000);
    assert!(large_result > 70_000_000);
}

#[test]
fn test_confidence_calculation() {
    let low_confidence = weigh_confidence(800_000, 3);
    assert!(low_confidence < 800_000);

    let high_confidence = weigh_confidence(800_000, 100);
    assert!(high_confidence >= 800_000);
}

#[test]
fn test_validate_safe_path() {
    let roots: Vec<String> = vec![];
    assert!(PathUtils::validate_safe_path("safe/path.jpg", &roots).is_ok());
    assert!(PathUtils::validate_safe_path("../unsafe/path.jpg", &roots).is_err());
    assert!(PathUtils::validate_safe_path("/absolute/path.jpg", &roots).is_err());
}

#[test]
fn test_make_unique_filename() {
    let test_path = "dir/test.txt";
    let mut taken: Vec<String> = vec![];
    assert_eq!(PathUtils::make_unique_filename(test_path, &taken), test_path);

    taken.push(test_path.to_string());
    let unique_path = PathUtils::make_unique_filename(test_path, &taken);
    assert_ne!(unique_path, test_path);
    assert!(unique_path.contains("test (1).txt"));
}

#[test]
fn sanitize_trims_and_replaces_control_codes() {
    assert_eq!(sanitize_filename("  a b  "), "a b");
    assert_eq!(sanitize_filename("a\tb\u{7f}c\u{9f}d\u{a0}e"), "a_b_c_d\u{a0}e");
    assert_eq!(sanitize_filename("\"/\\*"), "____");
    assert_eq!(sanitize_filename(""), "");
    assert_eq!(sanitize_filename("\n"), "_");
    assert_eq!(temp_filename_at("a<b", "20240101", ".JPG"), "a_b_20240101.jpg");
}

#[test]
fn truncation_edge_cases() {
    assert_eq!(truncate_with_ellipsis("abcd", 4), "abcd");
    assert_eq!(truncate_with_ellipsis("abcde", 4), "a...");
    assert_eq!(truncate_with_ellipsis("abcd", 3), "...");
    assert_eq!(truncate_with_ellipsis("abcd", 0), "...");
    assert_eq!(truncate_with_ellipsis("", 0), "");
    assert_eq!(truncate_with_ellipsis("h\u{e9}llo w\u{f6}rld", 8), "h\u{e9}ll...");
}

#[test]
fn durations_in_words() {
    assert_eq!(format_duration_ms(0), "0ms");
    assert_eq!(format_duration_ms(999), "999ms");
    assert_eq!(format_duration_ms(1000), "1.0s");
    assert_eq!(format_duration_ms(1250), "1.2s");
    assert_eq!(format_duration_ms(1350), "1.4s");
    assert_eq!(format_duration_ms(1251), "1.3s");
    assert_eq!(format_duration_ms(59_999), "60.0s");
    assert_eq!(format_duration_ms(60_000), "1m 0s");
    assert_eq!(format_duration_ms(3_599_999), "59m 59s");
    assert_eq!(format_duration_ms(3_600_000), "1h 0m");
    assert!(!current_timestamp().is_empty());
}

#[test]
fn content_ids_and_versions() {
    assert_eq!(content_id_of(0), "content_0");
    assert_eq!(content_id_of(255), "content_ff");
    assert_eq!(content_id_of(0xdead_beef), "content_deadbeef");
    assert_eq!(content_id_of(u64::MAX), "content_ffffffffffffffff");
    assert!(content_equal(&[], &[]));
    assert!(!content_equal(&[1], &[1, 2]));
    assert!(!content_equal(&[1, 2], &[1, 3]));
    let info = VersionInfo {
        version: "1.2.3".to_string(),
        build_date: "today".to_string(),
        git_commit: "0123456789abcdef".to_string(),
    };
    assert_eq!(info.to_string(), "v1.2.3 (built today from 01234567)");
    assert_eq!(get_version_info().to_string(), "v0.1.0 (built unknown from unknown)");
    assert_eq!(format_file_size(1024), "1.0 KB");
    assert!(cleanup().is_ok());
}

#[test]
fn predictions() {
    let default = predict_from_average(0, "PNG", "WebP", 2_000_000);
    assert_eq!(default.percent, 70_000_000);
    assert_eq!(default.ratio, 300_000);
    assert_eq!(default.sample_count, 50);
    assert_eq!(default.confidence, 240_000);
    let small = predict_from_average(0, "PNG", "WebP", 500_000);
    assert_eq!(small.percent, 56_000_000);
    let large = predict_from_average(0, "JPEG", "JPEG", 8_000_000);
    assert_eq!(large.percent, 22_000_000);
    assert_eq!(large.sample_count, 30);
    let historical = predict_from_average(40_000_000, "png", "webp", 2_000_000);
    assert_eq!(historical.percent, 40_000_000);
    assert_eq!(historical.sample_count, 10);
    assert_eq!(historical.confidence, 480_000);
    let negative_size = predict_from_average(0, "GIF", "PNG", -1);
    assert_eq!(negative_size.percent, 11_000_000);
    assert_eq!(adjust_for_size(i64::MAX, 10_000_000), i64::MAX);
    assert_eq!(adjust_for_size(-5, 1), -4);
    assert_eq!(adjust_for_size(-5, 10_000_000), -6);
    assert_eq!(estimate_sample_count("JPEG", "WebP"), 50);
    assert_eq!(estimate_sample_count("PNG", "PNG"), 30);
    assert_eq!(estimate_sample_count("png", "webp"), 10);
    assert_eq!(weigh_confidence(1_000_000, 5), 300_000);
    assert_eq!(weigh_confidence(1_000_000, 6), 600_000);
    assert_eq!(weigh_confidence(1_000_000, 21), 800_000);
    assert_eq!(weigh_confidence(u32::MAX, 51), 1_000_000);
    let query = create_prediction_query("png".to_string(), "webp".to_string(), 5, 80, true);
    assert_eq!(query.original_size, 5);
    assert!(query.lossy_mode);
}

fn check_service<
    S: plume::compression::store::StatsStore
        + plume::compression::store::SavingsHistory
        + plume::compression::store::Retention,
>(
    store: S,
) {
    let mut service = CompressionPredictionService::new(store);
    let before = service.predict_compression("PNG", "WebP", 2_000_000).unwrap();
    assert_eq!(before.percent, 70_000_000);
    assert_eq!(service.get_compression_stats("PNG", "WebP").unwrap(), (0, 50));
    let id = service
        .record_compression_result("PNG".to_string(), "WebP".to_string(), 1000, 500, None)
        .unwrap();
    assert!(id > 0);
    assert!(service
        .record_compression_result("PNG".to_string(), "WebP".to_string(), -1, 500, None)
        .is_err());
    let after = service.predict_compression("PNG", "WebP", 2_000_000).unwrap();
    assert_eq!(after.percent, 50_000_000);
    assert_eq!(after.confidence, 640_000);
    assert_eq!(service.get_compression_stats("PNG", "WebP").unwrap(), (50_000_000, 50));
}

#[test]
fn prediction_service_over_both_stores() {
    check_service(MemoryStatsStore::new());
    check_service(SqliteStatsStore::in_memory().unwrap());
}

#[test]
fn entities() {
    let info = ImageInfo::new("a.png".to_string(), "png".to_string(), 1000);
    assert_eq!(info.compressed_size, 0);
    assert_eq!(info.savings_percent(), 100_000_000);
    let info = info.with_compressed_size(250);
    assert_eq!(info.savings_percent(), 75_000_000);
    assert_eq!(info.compression_ratio(), 250_000);
    let empty = ImageInfo::new("a".to_string(), "png".to_string(), 0).with_compressed_size(9);
    assert_eq!(empty.savings_percent(), 0);
    assert_eq!(empty.compression_ratio(), 1_000_000);
    let grown = ImageInfo::new("a".to_string(), "png".to_string(), 4).with_compressed_size(5);
    assert_eq!(grown.savings_percent(), -25_000_000);

    let file = DroppedFile::new("Photo.JPG".to_string(), vec![1, 2, 3]);
    assert_eq!(file.size(), 3);
    assert_eq!(file.extension(), Some("JPG".to_string()));
    assert!(file.is_image());
    assert!(!DroppedFile::new("notes.txt".to_string(), vec![]).is_image());
    assert!(!DroppedFile::new("noextension".to_string(), vec![]).is_image());
    assert_eq!(DroppedFile::new("noextension".to_string(), vec![]).extension(), None);
}

#[test]
fn command_decisions() {
    assert_eq!(resolve_output_format(Some("webp"), Some("png")), OutputFormat::WebP);
    assert_eq!(resolve_output_format(Some("png"), Some("jpg")), OutputFormat::Png);
    assert_eq!(resolve_output_format(Some("jpg"), None), OutputFormat::Jpeg);
    assert_eq!(resolve_output_format(Some("jpeg"), None), OutputFormat::Jpeg);
    assert_eq!(resolve_output_format(Some("auto"), Some("PNG")), OutputFormat::Png);
    assert_eq!(resolve_output_format(Some("auto"), Some("jpg")), OutputFormat::Jpeg);
    assert_eq!(resolve_output_format(Some("auto"), Some("gif")), OutputFormat::WebP);
    assert_eq!(resolve_output_format(Some("auto"), None), OutputFormat::WebP);
    assert_eq!(resolve_output_format(Some("PNG"), Some("png")), OutputFormat::WebP);
    assert_eq!(resolve_output_format(None, Some("png")), OutputFormat::WebP);

    assert_eq!(request_settings(None, OutputFormat::Png).quality, 80);
    assert_eq!(request_settings(Some(0), OutputFormat::Png).quality, 1);
    assert_eq!(request_settings(Some(255), OutputFormat::Png).quality, 100);
    assert_eq!(request_settings(Some(42), OutputFormat::Jpeg).format, OutputFormat::Jpeg);

    assert_eq!(
        plan_output_path("in/a.png", None, false, OutputFormat::WebP),
        "in/a_compressed.webp"
    );
    assert_eq!(
        plan_output_path("a.png", None, false, OutputFormat::Jpeg),
        "a_compressed.jpg"
    );
    assert_eq!(
        plan_output_path("in/a.png", Some("out"), true, OutputFormat::Png),
        "out/a.png"
    );
    assert_eq!(
        plan_output_path("in/a.png", Some("out/b.webp"), false, OutputFormat::WebP),
        "out/b.webp"
    );

    let started = CompressionProgressEvent::at_stage("i".to_string(), "n".to_string(), CompressionStage::Started);
    assert_eq!((started.progress, started.estimated_time_remaining), (0, None));
    let processing = CompressionProgressEvent::at_stage("i".to_string(), "n".to_string(), CompressionStage::Processing);
    assert_eq!((processing.progress, processing.estimated_time_remaining), (25_000_000, Some(3000)));
    let completed = CompressionProgressEvent::at_stage("i".to_string(), "n".to_string(), CompressionStage::Completed);
    assert_eq!((completed.progress, completed.estimated_time_remaining), (100_000_000, Some(0)));
    let error = CompressionProgressEvent::at_stage("i".to_string(), "n".to_string(), CompressionStage::Error);
    assert_eq!((error.progress, error.estimated_time_remaining), (0, None));

    let output = CompressionOutput::new("out.webp".to_string(), 100, 40, OutputFormat::WebP);
    let ok = CompressImageResponse::succeeded("id".to_string(), &output);
    assert!(ok.success);
    assert_eq!(ok.output_path, Some("out.webp".to_string()));
    assert_eq!(ok.result.as_ref().unwrap().savings_percent, 60_000_000);
    let failed = CompressImageResponse::failed("id".to_string(), "Compression failed: ", "boom");
    assert!(!failed.success);
    assert_eq!(failed.error, Some("Compression failed: boom".to_string()));
    let summary = CompressBatchResponse::summarize(vec![ok, failed.clone(), failed]);
    assert_eq!((summary.total_files, summary.successful, summary.failed), (3, 1, 2));
    assert_eq!(summary.results.len(), 3);

    let query = GetEstimationRequest {
        input_format: "png".to_string(),
        output_format: "webp".to_string(),
        original_size: 7,
        quality_setting: 80,
        lossy_mode: true,
    }
    .into_query();
    assert_eq!(query.original_size, 7);
    let query = GetProgressEstimationRequest {
        input_format: "png".to_string(),
        output_format: "webp".to_string(),
        original_size: 7,
        quality_setting: 80,
        lossy_mode: false,
    }
    .into_query();
    assert!(!query.lossy_mode);
    let stat = RecordStatRequest {
        input_format: "png".to_string(),
        output_format: "webp".to_string(),
        original_size: 1000,
        compressed_size: 100,
        quality_setting: 200,
        lossy_mode: true,
    }
    .into_stat();
    assert_eq!(stat.quality_setting, 100);
    assert!(!stat.lossy_mode);
    assert_eq!(stat.size_reduction_percent, 90_000_000);
}

#[test]
fn file_operations() {
    let op = FileOperation::written("a/b.txt", 5);
    assert_eq!(op.operation_type, OperationType::Write);
    assert_eq!((op.source_path.as_str(), op.target_path.as_str()), ("", "a/b.txt"));
    assert!(op.success);
    let op = FileOperation::transferred(OperationType::Move, "a", "b", 9);
    assert_eq!((op.source_path.as_str(), op.target_path.as_str(), op.bytes_processed), ("a", "b", 9));
    let op = FileOperation::deleted("a", 3);
    assert_eq!(op.operation_type, OperationType::Delete);
    assert_eq!(op.target_path, "");

    assert_eq!(backup_path_at("dir/a.txt", "20240101_120000").unwrap(), "dir/a_backup_20240101_120000.txt");
    assert_eq!(backup_path_at("a", "s").unwrap(), "a_backup_s");
    assert!(backup_path_at("", "s").is_err());
    assert!(generate_backup_path("dir/a.txt").unwrap().starts_with("dir/a_backup_"));
    assert_eq!(copy_target("x/y/z.png", "out").unwrap(), "out/z.png");
    assert!(copy_target("..", "out").is_err());
    assert!(matches_cleanup_pattern("plume_tmp_1.png", "tmp"));
    assert!(!matches_cleanup_pattern("plume.png", "tmp"));

    let taken = vec!["d/a.txt".to_string(), "d/a (1).txt".to_string(), "d/a (2).txt".to_string()];
    assert_eq!(first_free_name("d/a.txt", &taken), Some("d/a (3).txt".to_string()));
    assert_eq!(first_free_name("d/b.txt", &taken), Some("d/b.txt".to_string()));
    assert_eq!(stamped_name("d/a.txt", "S"), "d/a_S_.txt");
    assert_eq!(stamped_name("a", "S"), "a_S_");

    let metadata = FileMetadata::from_parts("a.png", 104_857_600, None, None).unwrap();
    assert!(validate_image_metadata(metadata).is_ok());
    let metadata = FileMetadata::from_parts("a.png", 104_857_601, None, None).unwrap();
    assert!(validate_image_metadata(metadata).is_err());
    let metadata = FileMetadata::from_parts("a.gif", 1, None, None).unwrap();
    assert!(validate_image_metadata(metadata).is_err());
}

fn small_png() -> Vec<u8> {
    let pixels = vec![10u8; 8 * 8 * 4];
    let mut out = Vec::new();
    let encoder = image::codecs::png::PngEncoder::new(&mut out);
    image::ImageEncoder::write_image(encoder, &pixels, 8, 8, image::ExtendedColorType::Rgba8)
        .unwrap();
    out
}

#[test]
fn compressors_reject_other_formats() {
    let data = small_png();
    let webp = CompressionSettings::new(80, OutputFormat::WebP);
    let png = CompressionSettings::new(80, OutputFormat::Png);
    let jpeg = CompressionSettings::new(80, OutputFormat::Jpeg);
    assert!(matches!(
        JpegCompressor.compress(&data, &webp),
        Err(plume::compression::error::CompressionError::UnsupportedFormat(_))
    ));
    assert!(matches!(
        OxipngCompressor.compress(&data, &jpeg),
        Err(plume::compression::error::CompressionError::UnsupportedFormat(_))
    ));
    assert!(matches!(
        WebpCompressor.compress(&data, &png),
        Err(plume::compression::error::CompressionError::UnsupportedFormat(_))
    ));
    assert!(JpegCompressor.supports_format(OutputFormat::Jpeg));
    assert!(!JpegCompressor.supports_format(OutputFormat::Png));
    assert!(OxipngCompressor.supports_format(OutputFormat::Png));
    assert!(WebpCompressor.supports_format(OutputFormat::WebP));
    assert!(!WebpCompressor.supports_format(OutputFormat::Jpeg));

    let out = WebpCompressor.compress(&data, &webp).unwrap();
    assert_eq!(&out.compressed_data[8..12], b"WEBP");
    assert_eq!(out.original_size, data.len() as u64);
    assert_eq!(out.compressed_size, out.compressed_data.len() as u64);
    let out = JpegCompressor.compress(&data, &jpeg).unwrap();
    assert_eq!(&out.compressed_data[..3], &[0xFF, 0xD8, 0xFF]);
    let out = OxipngCompressor.compress(&data, &png).unwrap();
    assert_eq!(&out.compressed_data[1..4], b"PNG");
    assert!(matches!(
        WebpCompressor.compress(&[0u8; 20], &webp),
        Err(plume::compression::error::CompressionError::ProcessingError(_))
    ));
    let mut invalid = webp;
    invalid.quality = 0;
    assert!(matches!(
        WebpCompressor.compress(&data, &invalid),
        Err(plume::compression::error::CompressionError::InvalidSettings(_))
    ));
}

#[test]
fn registry_routes_by_format() {
    let data = small_png();
    let mut service: CompressionService<BuiltinCompressor> = CompressionService::new();
    let webp = CompressionSettings::new(80, OutputFormat::WebP);
    assert!(matches!(
        service.compress_image(&data, &webp),
        Err(plume::compression::error::CompressionError::UnsupportedFormat(_))
    ));
    assert!(service.auto_compress(&data, "png", 80).is_err());
    service.register_compressor(OutputFormat::WebP, BuiltinCompressor::WebP(WebpCompressor));
    service.register_compressor(OutputFormat::Png, BuiltinCompressor::Png(OxipngCompressor));
    let out = service.compress_image(&data, &webp).unwrap();
    assert_eq!(&out.compressed_data[8..12], b"WEBP");
    let auto = service.auto_compress(&data, "png", 80).unwrap();
    assert_eq!(auto.compressed_data, out.compressed_data);
    assert!(service
        .compress_image(&data, &CompressionSettings::new(80, OutputFormat::Jpeg))
        .is_err());
    service.register_compressor(OutputFormat::WebP, BuiltinCompressor::Jpeg(JpegCompressor));
    assert!(matches!(
        service.compress_image(&data, &webp),
        Err(plume::compression::error::CompressionError::UnsupportedFormat(_))
    ));
}

#[test]
fn format_detection_and_service_paths() {
    type Service = CompressionService<BuiltinCompressor>;
    assert_eq!(Service::detect_format(&small_png()), Some("PNG".to_string()));
    assert_eq!(
        Service::detect_format(&[0xFF, 0xD8, 0xFF, 0, 0, 0, 0, 0]),
        Some("JPEG".to_string())
    );
    assert_eq!(Service::detect_format(b"RIFF\0\0\0\0WEBPVP8 "), Some("WEBP".to_string()));
    assert_eq!(Service::detect_format(b"RIFF\0\0\0\0WEBP"), Some("WEBP".to_string()));
    assert_eq!(Service::detect_format(b"RIFF\0\0\0\0WAVE"), None);
    assert_eq!(Service::detect_format(b"RIFF\0\0\0\0WEB"), None);
    assert_eq!(Service::detect_format(&[0xFF, 0xD8, 0xFF]), None);
    assert_eq!(Service::detect_format(&[]), None);
    assert_eq!(
        Service::generate_output_path("dir/a.png", OutputFormat::Jpeg),
        "dir/a_compressed.jpg"
    );
    assert_eq!(Service::generate_output_path("a.png", OutputFormat::WebP), "a_compressed.webp");

    assert!(FileService::is_supported_image("a/b.JPEG"));
    assert!(!FileService::is_supported_image("a/b.gif"));
    assert_eq!(FileService::get_mime_type("a.JPG"), "image/jpeg");
    assert_eq!(FileService::get_mime_type("a.webp"), "image/webp");
    assert_eq!(FileService::get_mime_type("a.gif"), "image/png");
    assert_eq!(FileService::get_mime_type("a"), "image/png");
    assert_eq!(FileService::preview_url("image/png", "QUJD"), "data:image/png;base64,QUJD");
    assert_eq!(FileService::numbered_filename("d/a.png", 3), "d/a_3. png");
    assert_eq!(FileService::numbered_filename("a", 1), "a_1");
    let taken = vec!["a.png".to_string(), "a_1. png".to_string()];
    assert_eq!(
        FileService::generate_unique_filename("a.png", &taken),
        Some("a_2. png".to_string())
    );
    assert_eq!(FileService::generate_unique_filename("b.png", &taken), Some("b.png".to_string()));
    assert_eq!(FileServiceError::DownloadsNotFound.to_string(), "Downloads directory not found");
    assert_eq!(FileServiceError::InvalidPath("p".to_string()).to_string(), "Invalid file path: p");
}

#[test]
fn seeding_fills_an_empty_store_once() {
    use_store_for_seeding(&mut MemoryStatsStore::new());
    use_store_for_seeding(&mut SqliteStatsStore::in_memory().unwrap());
}

fn use_store_for_seeding<S: plume::compression::store::StatsStore>(store: &mut S) {
    let data = seed_records();
    assert_eq!(data.compression_stats.len(), 22);
    assert_eq!(data.compression_stats[0].input_format, "PNG");
    assert_eq!(data.compression_stats[21].compressed_size, 7168000);
    assert_eq!(data.compression_stats[10].tool_version, Some("oxipng-9.1".to_string()));
    assert_eq!(data.compression_stats[3].source_type, "seed");
    assert_eq!(seed_compression_database(store, &data), Ok(SeedOutcome::Seeded(22)));
    assert_eq!(store.count_stats().unwrap(), 22);
    assert_eq!(seed_compression_database(store, &data), Ok(SeedOutcome::Skipped(22)));
    assert_eq!(store.count_stats().unwrap(), 22);
}

#[test]
fn records_and_their_savings() {
    let record = CompressionRecord::new(
        "PNG".to_string(),
        "WebP".to_string(),
        1000,
        250,
        None,
        "actual".to_string(),
    );
    assert_eq!(record.id, None);
    assert!(!record.timestamp.is_empty());
    assert_eq!(record.compression_percentage(), 75_000_000);
    let stat = record.to_stat().unwrap();
    assert_eq!(stat.size_reduction_percent, 75_000_000);
    assert_eq!(stat.quality_setting, 80);
    assert_eq!(stat.timestamp, record.timestamp);
    let empty = CompressionRecord { original_size: 0, ..record.clone() };
    assert_eq!(empty.compression_percentage(), 0);
    let grown = CompressionRecord { original_size: 3, compressed_size: 4, ..record.clone() };
    assert_eq!(grown.compression_percentage(), -33_333_334);
    let negative = CompressionRecord { original_size: -5, ..record.clone() };
    assert_eq!(negative.compression_percentage(), 0);
    assert!(negative.to_stat().is_none());
    let mut store = MemoryStatsStore::new();
    let data = SeedData { compression_stats: vec![negative, record] };
    assert_eq!(seed_compression_database(&mut store, &data), Ok(SeedOutcome::Seeded(1)));
}

#[test]
fn registry_of_builtin_compressors() {
    let data = small_png();
    let service = CompressionService::with_builtin_compressors();
    for format in [OutputFormat::Png, OutputFormat::Jpeg, OutputFormat::WebP] {
        let settings = CompressionSettings::new(80, format);
        let routed = service.compress_with_builtin(&data, &settings).unwrap();
        let direct = service.compress_image(&data, &settings).unwrap();
        assert_eq!(routed.compressed_data, direct.compressed_data);
        assert_eq!(
            routed.compressed_data,
            plume::compression::engine::compress_bytes(&data, "png", &settings).unwrap()
        );
        assert_eq!(routed.original_size, data.len() as u64);
    }
    let empty: CompressionService<BuiltinCompressor> = CompressionService::new();
    assert!(empty
        .compress_with_builtin(&data, &CompressionSettings::new(80, OutputFormat::Png))
        .is_err());
}

#[test]
fn seeding_goes_by_the_count_of_the_store() {
    assert_eq!(outcome_for_count(Ok(0)), None);
    assert_eq!(outcome_for_count(Ok(1)), Some(Ok(SeedOutcome::Skipped(1))));
    assert_eq!(outcome_for_count(Ok(u32::MAX)), Some(Ok(SeedOutcome::Skipped(u32::MAX))));
    assert_eq!(
        outcome_for_count(Err(StatsError::DatabaseError("locked".to_string()))),
        Some(Err(StatsError::DatabaseError("locked".to_string())))
    );
    assert_eq!(outcome_for_count(Err(StatsError::NotAvailable)), Some(Err(StatsError::NotAvailable)));
}

#[test]
fn a_save_counts_where_it_succeeded() {
    assert_eq!(count_save(0, &Ok(1)), 1);
    assert_eq!(count_save(7, &Ok(-3)), 8);
    assert_eq!(count_save(7, &Err(StatsError::NotAvailable)), 7);
    assert_eq!(count_save(u32::MAX - 1, &Ok(1)), u32::MAX);
}

#[test]
fn a_statement_succeeds_whatever_its_count() {
    assert_eq!(statement_outcome(Ok(0)), Ok(()));
    assert_eq!(statement_outcome(Ok(22)), Ok(()));
    assert_eq!(
        statement_outcome(Err("no such table".to_string())),
        Err(StatsError::DatabaseError("no such table".to_string()))
    );
}

struct PickyStore {
    countable: bool,
    held: u32,
    calls: u32,
}

impl plume::compression::store::StatsStore for PickyStore {
    fn save_stat(&mut self, stat: CompressionStat) -> Result<i64, StatsError> {
        self.calls += 1;
        if stat.input_format == "PNG" {
            self.held += 1;
            Ok(self.held as i64)
        } else {
            Err(StatsError::DatabaseError("refused".to_string()))
        }
    }

    fn get_estimation(&self, _query: &EstimationQuery) -> Result<EstimationResult, StatsError> {
        Err(StatsError::NotAvailable)
    }

    fn clear_all(&mut self) -> Result<(), StatsError> {
        self.held = 0;
        Ok(())
    }

    fn count_stats(&self) -> Result<u32, StatsError> {
        if self.countable {
            Ok(self.held)
        } else {
            Err(StatsError::DatabaseError("cannot count".to_string()))
        }
    }
}

#[test]
fn seeding_passes_over_what_cannot_be_saved() {
    let data = seed_records();
    let mut store = PickyStore { countable: true, held: 0, calls: 0 };
    assert_eq!(seed_compression_database(&mut store, &data), Ok(SeedOutcome::Seeded(11)));
    assert_eq!(store.calls, 22);
    assert_eq!(store.held, 11);
    assert_eq!(seed_compression_database(&mut store, &data), Ok(SeedOutcome::Skipped(11)));
    assert_eq!(store.calls, 22);
}

#[test]
fn seeding_fails_where_the_store_cannot_be_counted() {
    let data = seed_records();
    let mut store = PickyStore { countable: false, held: 0, calls: 0 };
    assert_eq!(
        seed_compression_database(&mut store, &data),
        Err(StatsError::DatabaseError("cannot count".to_string()))
    );
    assert_eq!(store.calls, 0);
    assert_eq!(store.held, 0);
}

#[test]
fn seeding_passes_over_records_with_a_negative_size() {
    let good = CompressionRecord::new(
        "PNG".to_string(),
        "WebP".to_string(),
        1000,
        250,
        None,
        "seed".to_string(),
    );
    let low = CompressionRecord { original_size: -1, ..good.clone() };
    let lower = CompressionRecord { compressed_size: -1, ..good.clone() };
    let data = SeedData { compression_stats: vec![low, good.clone(), lower, good] };
    let mut store = MemoryStatsStore::new();
    assert_eq!(seed_compression_database(&mut store, &data), Ok(SeedOutcome::Seeded(2)));
    let mut picky = PickyStore { countable: true, held: 0, calls: 0 };
    assert_eq!(seed_compression_database(&mut picky, &data), Ok(SeedOutcome::Seeded(2)));
    assert_eq!(picky.calls, 2);
    let none = SeedData { compression_stats: Vec::new() };
    assert_eq!(seed_compression_database(&mut picky, &none), Ok(SeedOutcome::Skipped(2)));
    let mut fresh = MemoryStatsStore::new();
    assert_eq!(seed_compression_database(&mut fresh, &none), Ok(SeedOutcome::Seeded(0)));
}

#[test]
fn a_batch_announces_each_file() {
    let first = BatchProgress::before_file(0, 3, "/pictures/cat.png");
    assert_eq!(first.current, 1);
    assert_eq!(first.total, 3);
    assert_eq!(first.file_name, "cat.png");
    let last = BatchProgress::before_file(2, 3, "dog.jpeg");
    assert_eq!(last.current, 3);
    assert_eq!(last.file_name, "dog.jpeg");
    let nameless = BatchProgress::before_file(0, 1, "/");
    assert_eq!(nameless.file_name, "unknown");
    assert_eq!(shown_name_of(""), "unknown");
    assert_eq!(shown_name_of("a/b/c.webp"), "c.webp");
    assert_eq!(shown_name_of(".."), "unknown");
}

#[test]
fn a_zero_average_stands_for_no_history() {
    assert_eq!(reduction_or_default(0, "PNG", "WebP"), 70_000_000);
    assert_eq!(reduction_or_default(0, "JPEG", "WebP"), 25_000_000);
    assert_eq!(reduction_or_default(0, "PNG", "PNG"), 15_000_000);
    assert_eq!(reduction_or_default(0, "JPEG", "JPEG"), 20_000_000);
    assert_eq!(reduction_or_default(0, "png", "webp"), 10_000_000);
    assert_eq!(reduction_or_default(42_000_000, "PNG", "WebP"), 42_000_000);
    assert_eq!(reduction_or_default(-1, "PNG", "WebP"), -1);
}

#[test]
fn predictions_go_by_the_answer_of_the_store() {
    let from_history = prediction_from_answer(Ok(60_000_000), "PNG", "WebP", 2_000_000).unwrap();
    assert_eq!(from_history, predict_from_average(60_000_000, "PNG", "WebP", 2_000_000));
    assert_eq!(from_history.percent, 60_000_000);
    let from_defaults = prediction_from_answer(Ok(0), "PNG", "WebP", 500_000).unwrap();
    assert_eq!(from_defaults.percent, 56_000_000);
    assert!(matches!(
        prediction_from_answer(Err(StatsError::NotAvailable), "PNG", "WebP", 1),
        Err(DomainError::Internal(reason)) if reason == StatsError::NotAvailable.to_string()
    ));

    assert_eq!(
        stats_from_answer(Ok(12), "PNG", "WebP").unwrap(),
        (12, estimate_sample_count("PNG", "WebP"))
    );
    assert!(matches!(
        stats_from_answer(Err(StatsError::DatabaseError("gone".to_string())), "PNG", "WebP"),
        Err(DomainError::Internal(reason))
            if reason == StatsError::DatabaseError("gone".to_string()).to_string()
    ));

    assert_eq!(recording_outcome(Ok(7)).unwrap(), 7);
    assert!(matches!(
        recording_outcome(Err(StatsError::NotAvailable)),
        Err(DomainError::Internal(reason)) if reason == StatsError::NotAvailable.to_string()
    ));
}

#[test]
fn recording_refuses_negative_sizes_before_the_store_is_asked() {
    let mut service = CompressionPredictionService::new(MemoryStatsStore::new());
    assert!(matches!(
        service.record_compression_result("PNG".to_string(), "WebP".to_string(), -1, 5, None),
        Err(DomainError::InvalidInput(_))
    ));
    assert!(matches!(
        service.record_compression_result("PNG".to_string(), "WebP".to_string(), 5, -1, None),
        Err(DomainError::InvalidInput(_))
    ));
    assert_eq!(service.store.count_stats().unwrap(), 0);
    let id = service
        .record_compression_result("PNG".to_string(), "WebP".to_string(), 1000, 250, None)
        .unwrap();
    assert_eq!(id, 1);
    assert_eq!(service.store.count_stats().unwrap(), 1);
}
