use plume::shared::config::{
    performance_for, AppConfig, CompressionConfig, ConfigManager, PerformanceConfig,
    SecurityConfig,
};
use plume::shared::events::{
    compression_completed_event, compression_failed_event, error_event, file_processed_event,
    generate_event_id, info_event, ConsoleEventListener, DomainEvent, EventBus, EventListener,
    EventPayload, EventSeverity, EventType,
};

fn default_config() -> AppConfig {
    AppConfig::with_temp_dir("/tmp/plume".to_string())
}

#[test]
fn test_default_config() {
    let config = default_config();
    assert!(config.validate().is_ok());
    assert!(!config.temp_dir.is_empty());
    assert!(config.max_file_size > 0);
    assert!(!config.supported_formats.is_empty());
}

#[test]
fn test_config_validation() {
    let mut config = default_config();

    assert!(config.validate().is_ok());

    config.temp_dir = String::new();
    assert!(config.validate().is_err());
    config.temp_dir = "valid".to_string();

    config.max_file_size = 0;
    assert!(config.validate().is_err());
    config.max_file_size = 1024;

    config.supported_formats.clear();
    assert!(config.validate().is_err());
}

#[test]
fn test_format_support() {
    let config = default_config();

    assert!(config.is_format_supported("png"));
    assert!(config.is_format_supported("PNG"));
    assert!(config.is_format_supported("jpg"));
    assert!(!config.is_format_supported("tiff"));
}

#[test]
fn test_file_size_limits() {
    let config = default_config();

    assert!(config.is_file_size_allowed(1024));
    assert!(config.is_file_size_allowed(config.max_file_size));
    assert!(!config.is_file_size_allowed(config.max_file_size + 1));
}

#[test]
fn test_config_manager() {
    let mut manager = ConfigManager::new("/tmp/plume".to_string());

    let config = manager.get_config();
    assert!(config.validate().is_ok());

    let new_config = AppConfig {
        max_file_size: 2048,
        ..default_config()
    };

    assert!(manager.update_config(new_config).is_ok());
    assert_eq!(manager.get_config().max_file_size, 2048);

    let invalid_config = AppConfig {
        max_file_size: 0,
        ..default_config()
    };

    assert!(manager.update_config(invalid_config).is_err());
    assert_eq!(manager.get_config().max_file_size, 2048);
}

#[test]
fn default_values() {
    let config = default_config();
    assert_eq!(config.max_file_size, 100 * 1024 * 1024);
    assert_eq!(config.supported_formats, vec!["png", "jpg", "jpeg", "webp"]);
    assert_eq!(config.cleanup_interval_hours, 24);
    assert_eq!(config.get_temp_path(), "/tmp/plume");
    let compression = CompressionConfig::default();
    assert_eq!(compression.default_quality, 80);
    assert_eq!(compression.max_dimensions, (4096, 4096));
    assert!(compression.enable_lossless_fallback);
    let performance = PerformanceConfig::default();
    assert!(performance.max_concurrent_operations >= 4);
    assert_eq!(performance.memory_limit_mb, 1024);
    assert_eq!(performance.disk_cache_size_mb, 512);
    let security = SecurityConfig::default();
    assert_eq!(security.max_path_depth, 20);
    assert_eq!(security.blocked_paths, vec!["/etc", "/proc", "/sys", "/dev"]);
    assert_eq!(security.allowed_paths.len(), 4);
    assert!(security.enable_sandbox);
}

#[test]
fn every_part_is_validated() {
    let mut config = default_config();
    config.compression.default_quality = 0;
    assert!(config.validate().is_err());
    config.compression.default_quality = 101;
    assert!(config.compression.validate().is_err());
    config.compression.default_quality = 100;
    config.compression.max_dimensions = (0, 5);
    assert!(config.validate().is_err());
    config.compression.max_dimensions = (5, 5);
    config.performance.max_concurrent_operations = 0;
    assert!(config.validate().is_err());
    config.performance.max_concurrent_operations = 1;
    config.performance.memory_limit_mb = 0;
    assert!(config.performance.validate().is_err());
    config.performance.memory_limit_mb = 1;
    config.security.max_path_depth = 0;
    assert!(config.validate().is_err());
    assert!(config.security.validate().is_err());
    config.security.max_path_depth = 1;
    assert!(config.validate().is_ok());
    assert!(ConfigManager::from_config(config).is_ok());
    assert!(ConfigManager::from_config(AppConfig::with_temp_dir(String::new())).is_err());
}

#[test]
fn overrides() {
    let mut config = default_config();
    config.apply_overrides(Some("/var/tmp".to_string()), Some(5), Some(200));
    assert_eq!(config.temp_dir, "/var/tmp");
    assert_eq!(config.max_file_size, 5);
    assert_eq!(config.compression.default_quality, 100);
    config.apply_overrides(None, None, Some(0));
    assert_eq!(config.temp_dir, "/var/tmp");
    assert_eq!(config.max_file_size, 5);
    assert_eq!(config.compression.default_quality, 1);
    config.apply_overrides(None, None, None);
    assert_eq!(config.compression.default_quality, 1);
}

#[test]
fn test_event_creation() {
    let event = file_processed_event("test.jpg".to_string(), 1024, "jpeg".to_string(), 150);

    assert!(!event.id.is_empty());
    assert!(matches!(event.event_type, EventType::FileProcessed));
    assert!(event.is_success());
    assert!(!event.is_error());

    match event.payload {
        EventPayload::FileProcessed {
            path,
            size,
            format,
            processing_time_ms,
        } => {
            assert_eq!(path, "test.jpg");
            assert_eq!(size, 1024);
            assert_eq!(format, "jpeg");
            assert_eq!(processing_time_ms, 150);
        }
        _ => panic!("Expected FileProcessed payload"),
    }
}

#[test]
fn test_event_metadata() {
    let event = info_event("test".to_string(), "test message".to_string())
        .with_metadata("user_id".to_string(), "123".to_string())
        .with_metadata("session".to_string(), "abc".to_string());

    assert_eq!(event.metadata_value("user_id"), Some(&"123".to_string()));
    assert_eq!(event.metadata_value("session"), Some(&"abc".to_string()));
}

#[test]
fn test_event_severity() {
    let info_event = info_event("op".to_string(), "msg".to_string());
    assert_eq!(info_event.severity(), EventSeverity::Info);

    let error_event = error_event("op".to_string(), "type".to_string(), "msg".to_string());
    assert_eq!(error_event.severity(), EventSeverity::Error);

    let compression_event = compression_completed_event(
        "png".to_string(),
        "webp".to_string(),
        1000,
        500,
        50_000_000,
        100,
    );
    assert_eq!(compression_event.severity(), EventSeverity::Debug);
}

#[test]
fn test_event_bus() {
    let mut bus = EventBus::new();

    let listener = ConsoleEventListener::new(EventSeverity::Info);
    bus.add_listener(listener);

    let event1 = info_event("op1".to_string(), "msg1".to_string());
    let event2 = error_event("op2".to_string(), "type".to_string(), "msg2".to_string());

    assert!(bus.publish(event1.clone()).is_ok());
    assert!(bus.publish(event2.clone()).is_ok());

    let recent = bus.get_recent_events(10);
    assert_eq!(recent.len(), 2);
    assert_eq!(recent[0].id, event1.id);
    assert_eq!(recent[1].id, event2.id);

    let errors = bus.get_error_events();
    assert_eq!(errors.len(), 1);
    assert_eq!(errors[0].id, event2.id);
}

#[test]
fn test_event_bus_history_limit() {
    let mut bus: EventBus<ConsoleEventListener> = EventBus::new();
    bus.set_max_history_size(3);

    for i in 0..5 {
        let event = info_event(format!("op{}", i), format!("msg{}", i));
        bus.publish(event).unwrap();
    }

    let recent = bus.get_recent_events(10);
    assert_eq!(recent.len(), 3);

    match &recent[0].payload {
        EventPayload::Info { operation, .. } => assert_eq!(operation, "op2"),
        _ => panic!("Expected info payload"),
    }
}

#[test]
fn test_generate_event_id() {
    let id1 = generate_event_id();
    let id2 = generate_event_id();

    assert!(!id1.is_empty());
    assert!(!id2.is_empty());
    assert_ne!(id1, id2);
    assert!(id1.starts_with("evt_"));
    assert!(id2.starts_with("evt_"));
}

#[test]
fn metadata_later_value_wins() {
    let event = DomainEvent::with_id(
        "id".to_string(),
        "now".to_string(),
        EventType::Warning,
        EventPayload::Warning { operation: "o".to_string(), warning_message: "w".to_string() },
    )
    .with_metadata("k".to_string(), "1".to_string())
    .with_metadata("k".to_string(), "2".to_string());
    assert_eq!(event.metadata_value("k"), Some(&"2".to_string()));
    assert_eq!(event.metadata_value("missing"), None);
    assert_eq!(event.id, "id");
    assert_eq!(event.timestamp, "now");
    assert_eq!(event.severity(), EventSeverity::Warning);
}

#[test]
fn severities_and_kinds() {
    let failed = compression_failed_event("png".to_string(), "boom".to_string(), 5);
    assert_eq!(failed.severity(), EventSeverity::Warning);
    assert!(failed.is_error());
    assert!(!failed.is_success());
    assert!(EventSeverity::Error.at_least(&EventSeverity::Warning));
    assert!(EventSeverity::Info.at_least(&EventSeverity::Info));
    assert!(!EventSeverity::Debug.at_least(&EventSeverity::Info));
    assert_eq!(EventSeverity::Warning.rank(), 2);
    let listener = ConsoleEventListener::new(EventSeverity::Warning);
    assert!(listener.writes(&failed));
    assert!(!listener.writes(&info_event("a".to_string(), "b".to_string())));
    assert!(listener.can_handle(&EventType::Info));
    assert!(listener.handle_event(&failed).is_ok());
}

#[test]
fn history_queries() {
    let mut bus: EventBus<ConsoleEventListener> = EventBus::new();
    for i in 0..4 {
        bus.publish(info_event(format!("op{}", i), "m".to_string())).unwrap();
    }
    bus.publish(error_event("e".to_string(), "t".to_string(), "m".to_string())).unwrap();
    assert_eq!(bus.get_recent_events(2).len(), 2);
    assert_eq!(bus.get_recent_events(0).len(), 0);
    assert_eq!(bus.get_recent_events(2)[1].event_type, EventType::Error);
    assert_eq!(bus.get_events_by_type(&EventType::Info).len(), 4);
    assert_eq!(bus.get_events_by_type(&EventType::Warning).len(), 0);
    bus.set_max_history_size(2);
    assert_eq!(bus.event_history.len(), 2);
    assert_eq!(bus.get_events_by_type(&EventType::Info).len(), 1);
    bus.set_max_history_size(0);
    bus.publish(info_event("x".to_string(), "m".to_string())).unwrap();
    assert_eq!(bus.event_history.len(), 0);
    bus.set_max_history_size(5);
    bus.publish(info_event("x".to_string(), "m".to_string())).unwrap();
    bus.clear_history();
    assert_eq!(bus.get_recent_events(10).len(), 0);
}

#[test]
fn at_least_four_operations_at_once() {
    for (cpus, operations) in [(0usize, 4usize), (1, 4), (3, 4), (4, 4), (5, 5), (64, 64)] {
        let config = performance_for(cpus);
        assert_eq!(config.max_concurrent_operations, operations);
        assert_eq!(config.memory_limit_mb, 1024);
        assert_eq!(config.disk_cache_size_mb, 512);
        assert!(!config.enable_gpu_acceleration);
    }
    assert!(PerformanceConfig::default().max_concurrent_operations >= 4);
}
