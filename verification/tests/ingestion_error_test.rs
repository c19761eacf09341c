use zuklink::ingestion::error::IngestionError;

#[test]
fn test_storage_failure_error() {
    let err = IngestionError::storage_failure("S3 connection failed");
    assert!(matches!(err, IngestionError::StorageFailure(_)));
    assert_eq!(err.to_string(), "Storage operation failed: S3 connection failed");
}

#[test]
fn test_segment_too_large_error() {
    let err = IngestionError::segment_too_large(1024, 512);
    assert!(matches!(err, IngestionError::SegmentTooLarge { .. }));
    assert!(err.to_string().contains("1024"));
    assert!(err.to_string().contains("512"));
}

#[test]
fn test_empty_segment_error() {
    let err = IngestionError::EmptySegment;
    assert_eq!(err.to_string(), "Cannot ingest empty segment");
}

#[test]
fn test_invalid_data_error() {
    let err = IngestionError::invalid_data("Corrupted bytes");
    assert!(err.to_string().contains("Invalid data"));
}

#[test]
fn every_ingestion_error_has_its_message() {
    assert_eq!(
        IngestionError::segment_too_large(1024, 512).to_string(),
        "Segment size (1024 bytes) exceeds maximum allowed (512 bytes)"
    );
    assert_eq!(
        IngestionError::invalid_data("Corrupted bytes").to_string(),
        "Invalid data: Corrupted bytes"
    );
    assert_eq!(
        IngestionError::SegmentAlreadyExists("abc".to_string()).to_string(),
        "Segment abc already exists"
    );
    assert_eq!(
        IngestionError::config_error("no bucket").to_string(),
        "Configuration error: no bucket"
    );
    assert_eq!(IngestionError::internal_error("oops").to_string(), "Internal error: oops");
    assert_eq!(
        IngestionError::segment_too_large(0, usize::MAX).to_string(),
        format!("Segment size (0 bytes) exceeds maximum allowed ({} bytes)", usize::MAX)
    );
}

#[test]
fn ingestion_error_builders_pick_the_variant() {
    assert!(matches!(IngestionError::config_error("x"), IngestionError::ConfigError(d) if d == "x"));
    assert!(
        matches!(IngestionError::internal_error("y"), IngestionError::InternalError(d) if d == "y")
    );
    assert!(matches!(
        IngestionError::segment_too_large(7, 3),
        IngestionError::SegmentTooLarge { size: 7, max: 3 }
    ));
}
