use plume::compression::error::{CompressionError, StatsError};
use plume::file::error::FileError;
use plume::imaging::error::ImageError;
use plume::shared::error::{get_recovery_strategy, DomainError, ErrorRecovery};

#[test]
fn error_test_error_display() {
    let error = DomainError::InvalidInput("test input".to_string());
    assert_eq!(error.to_string(), "Invalid input: test input");

    let error = DomainError::NotFound("resource".to_string());
    assert_eq!(error.to_string(), "Not found: resource");
}

#[test]
fn test_error_display() {
    let error = CompressionError::InvalidSettings("Quality out of range".to_string());
    assert!(error.to_string().contains("Invalid compression settings"));

    let error = StatsError::NotAvailable;
    assert_eq!(error.to_string(), "Statistics not available");
}

#[test]
fn test_error_recovery_strategies() {
    let external_error = DomainError::External("API down".to_string());
    match get_recovery_strategy(&external_error) {
        ErrorRecovery::Retry {
            max_attempts,
            backoff_ms,
        } => {
            assert_eq!(max_attempts, 3);
            assert_eq!(backoff_ms, 1000);
        }
        _ => panic!("Expected retry strategy"),
    }

    let invalid_input = DomainError::InvalidInput("bad data".to_string());
    match get_recovery_strategy(&invalid_input) {
        ErrorRecovery::Abort => (),
        _ => panic!("Expected abort strategy"),
    }
}

#[test]
fn test_error_conversion() {
    let file_error = FileError::NotFound("test.jpg".to_string());
    let domain_error: DomainError = file_error.into();

    match domain_error {
        DomainError::NotFound(path) => assert_eq!(path, "test.jpg"),
        _ => panic!("Expected NotFound error"),
    }
}

#[test]
fn test_error_conversion_chain() {
    let file_error = FileError::NotFound("test.jpg".to_string());
    let domain_error: DomainError = file_error.into();
    assert!(matches!(domain_error, DomainError::NotFound(_)));

    let strategy = get_recovery_strategy(&domain_error);
    assert!(matches!(strategy, ErrorRecovery::Abort));
}

#[test]
fn every_error_has_its_text() {
    assert_eq!(
        CompressionError::UnsupportedFormat("gif".to_string()).to_string(),
        "Unsupported image format: gif"
    );
    assert_eq!(
        CompressionError::ProcessingFailed("x".to_string()).to_string(),
        "Image processing failed: x"
    );
    assert_eq!(
        CompressionError::ProcessingError("x".to_string()).to_string(),
        "Image processing error: x"
    );
    assert_eq!(CompressionError::IoError("x".to_string()).to_string(), "I/O error: x");
    assert_eq!(
        CompressionError::InsufficientCompression(980_000).to_string(),
        "Compression ratio too low: 98%"
    );
    assert_eq!(StatsError::DatabaseError("x".to_string()).to_string(), "Database error: x");
    assert_eq!(StatsError::InvalidQuery("x".to_string()).to_string(), "Invalid query: x");
    assert_eq!(
        StatsError::SerializationError("x".to_string()).to_string(),
        "Serialization error: x"
    );
    assert_eq!(FileError::PermissionDenied("p".to_string()).to_string(), "Permission denied: p");
    assert_eq!(FileError::SecurityViolation("p".to_string()).to_string(), "Security violation: p");
    assert_eq!(ImageError::MemoryError("m".to_string()).to_string(), "Memory error: m");
    assert_eq!(
        DomainError::ResourceLimit("m".to_string()).to_string(),
        "Resource limit exceeded: m"
    );
}

#[test]
fn conversions_between_error_families() {
    let e: DomainError = FileError::UnsupportedFormat("gif".to_string()).into();
    assert!(matches!(e, DomainError::InvalidInput(ref m) if m == "Unsupported format: gif"));
    let e: DomainError = FileError::SecurityViolation("x".to_string()).into();
    assert!(matches!(e, DomainError::PermissionDenied(_)));
    let e: DomainError = ImageError::MemoryError("x".to_string()).into();
    assert!(matches!(e, DomainError::ResourceLimit(_)));
    let e: DomainError = CompressionError::InsufficientCompression(5).into();
    assert!(matches!(e, DomainError::Internal(ref m) if m == "Insufficient compression achieved"));
    let e: DomainError = CompressionError::InvalidSettings("q".to_string()).into();
    assert!(matches!(e, DomainError::InvalidInput(ref m) if m == "q"));
    let e: ImageError = FileError::NotFound("a.png".to_string()).into();
    assert!(matches!(e, ImageError::IoError(ref m) if m == "File not found: a.png"));
    let e: ImageError = FileError::InvalidPath("p".to_string()).into();
    assert!(matches!(e, ImageError::ProcessingError(ref m) if m == "Invalid path: p"));
}

#[test]
fn recovery_for_every_kind() {
    assert!(matches!(
        get_recovery_strategy(&DomainError::ResourceLimit("x".to_string())),
        ErrorRecovery::Retry { max_attempts: 2, backoff_ms: 5000 }
    ));
    assert!(matches!(
        get_recovery_strategy(&DomainError::Internal("x".to_string())),
        ErrorRecovery::Fallback(ref how) if how == "Using safe defaults"
    ));
    assert!(matches!(
        get_recovery_strategy(&DomainError::Configuration("x".to_string())),
        ErrorRecovery::Abort
    ));
    assert!(matches!(
        get_recovery_strategy(&DomainError::PermissionDenied("x".to_string())),
        ErrorRecovery::Abort
    ));
}
