//! Errors of ingestion.

use vstd::prelude::*;
use vstd::string::*;
use crate::text::{decimal, join, push_decimal};

verus! {

/// What can go wrong while a segment is ingested.
#[derive(Debug)]
pub enum IngestionError {
    /// The storage backend failed.
    StorageFailure(String),
    /// The data is invalid.
    InvalidData(String),
    /// The segment is larger than allowed.
    SegmentTooLarge { size: usize, max: usize },
    /// There is no data to ingest.
    EmptySegment,
    /// A segment with this identifier exists already.
    SegmentAlreadyExists(String),
    /// The service is misconfigured.
    ConfigError(String),
    /// Something unexpected happened.
    InternalError(String),
}

impl IngestionError {
    /// The message of this error.
    pub open spec fn message(&self) -> Seq<char> {
        match self {
            IngestionError::StorageFailure(detail) => "Storage operation failed: "@ + detail@,
            IngestionError::InvalidData(detail) => "Invalid data: "@ + detail@,
            IngestionError::SegmentTooLarge { size, max } => "Segment size ("@ + decimal(
                *size as nat,
            ) + " bytes) exceeds maximum allowed ("@ + decimal(*max as nat) + " bytes)"@,
            IngestionError::EmptySegment => "Cannot ingest empty segment"@,
            IngestionError::SegmentAlreadyExists(id) => "Segment "@ + id@ + " already exists"@,
            IngestionError::ConfigError(detail) => "Configuration error: "@ + detail@,
            IngestionError::InternalError(detail) => "Internal error: "@ + detail@,
        }
    }

    /// A storage failure with the given detail.
    pub fn storage_failure(msg: &str) -> (error: IngestionError)
        ensures
            error matches IngestionError::StorageFailure(detail) && detail@ == msg@,
    {
        IngestionError::StorageFailure(msg.to_owned())
    }

    /// An invalid-data error with the given detail.
    pub fn invalid_data(msg: &str) -> (error: IngestionError)
        ensures
            error matches IngestionError::InvalidData(detail) && detail@ == msg@,
    {
        IngestionError::InvalidData(msg.to_owned())
    }

    /// The error for a segment of `size` bytes where at most `max` are allowed.
    pub fn segment_too_large(size: usize, max: usize) -> (error: IngestionError)
        ensures
            error == (IngestionError::SegmentTooLarge { size, max }),
    {
        IngestionError::SegmentTooLarge { size, max }
    }

    /// A configuration error with the given detail.
    pub fn config_error(msg: &str) -> (error: IngestionError)
        ensures
            error matches IngestionError::ConfigError(detail) && detail@ == msg@,
    {
        IngestionError::ConfigError(msg.to_owned())
    }

    /// An internal error with the given detail.
    pub fn internal_error(msg: &str) -> (error: IngestionError)
        ensures
            error matches IngestionError::InternalError(detail) && detail@ == msg@,
    {
        IngestionError::InternalError(msg.to_owned())
    }

    /// The message of this error, as text.
    pub fn to_string(&self) -> (text: String)
        ensures
            text@ == self.message(),
    {
        match self {
            IngestionError::StorageFailure(detail) => join(
                "Storage operation failed: ",
                detail.as_str(),
            ),
            IngestionError::InvalidData(detail) => join("Invalid data: ", detail.as_str()),
            IngestionError::SegmentTooLarge { size, max } => {
                let mut text = String::from_str("Segment size (");
                push_decimal(&mut text, *size as u64);
                text.append(" bytes) exceeds maximum allowed (");
                push_decimal(&mut text, *max as u64);
                text.append(" bytes)");
                text
            },
            IngestionError::EmptySegment => String::from_str("Cannot ingest empty segment"),
            IngestionError::SegmentAlreadyExists(id) => {
                let mut text = join("Segment ", id.as_str());
                text.append(" already exists");
                text
            },
            IngestionError::ConfigError(detail) => join("Configuration error: ", detail.as_str()),
            IngestionError::InternalError(detail) => join("Internal error: ", detail.as_str()),
        }
    }
}

} // verus!
