//! The HTTP face of ingestion: the bodies that go over the wire, and the
//! reply that each outcome of an ingestion gets.

use vstd::prelude::*;
use vstd::string::*;
use crate::ingestion::error::IngestionError;
use crate::ingestion::ids::SegmentId;
use crate::text::{decimal, push_decimal};

verus! {

/// 201 Created.
pub const CREATED: u16 = 201;

/// 400 Bad Request.
pub const BAD_REQUEST: u16 = 400;

/// 409 Conflict.
pub const CONFLICT: u16 = 409;

/// 413 Payload Too Large.
pub const PAYLOAD_TOO_LARGE: u16 = 413;

/// 500 Internal Server Error.
pub const INTERNAL_SERVER_ERROR: u16 = 500;

/// The body of an ingestion request.
#[derive(Debug)]
pub struct IngestRequest {
    /// The raw bytes to ingest.
    pub data: Vec<u8>,
}

/// The body of the reply to an ingestion that succeeded.
#[derive(Debug)]
pub struct IngestResponse {
    /// The identifier of the segment that was ingested.
    pub segment_id: String,
    /// A message for the reader.
    pub message: String,
}

/// The body of the reply to a request that failed.
#[derive(Debug)]
pub struct ErrorResponse {
    /// What went wrong.
    pub error: String,
}

/// The status that an error is answered with.
pub open spec fn status_of(error: IngestionError) -> u16 {
    match error {
        IngestionError::EmptySegment => BAD_REQUEST,
        IngestionError::SegmentTooLarge { .. } => PAYLOAD_TOO_LARGE,
        IngestionError::InvalidData(_) => BAD_REQUEST,
        IngestionError::StorageFailure(_) => INTERNAL_SERVER_ERROR,
        IngestionError::SegmentAlreadyExists(_) => CONFLICT,
        IngestionError::ConfigError(_) => INTERNAL_SERVER_ERROR,
        IngestionError::InternalError(_) => INTERNAL_SERVER_ERROR,
    }
}

/// What the reply to an error says.
pub open spec fn reason_of(error: IngestionError) -> Seq<char> {
    match error {
        IngestionError::EmptySegment => "Data cannot be empty"@,
        IngestionError::SegmentTooLarge { size, max } => "Segment size ("@ + decimal(size as nat)
            + " bytes) exceeds maximum ("@ + decimal(max as nat) + " bytes)"@,
        IngestionError::InvalidData(detail) => detail@,
        IngestionError::StorageFailure(detail) => detail@,
        IngestionError::SegmentAlreadyExists(detail) => detail@,
        IngestionError::ConfigError(detail) => detail@,
        IngestionError::InternalError(detail) => detail@,
    }
}

/// The reply to an ingestion that failed with `error`.
pub fn error_reply(error: IngestionError) -> (reply: (u16, ErrorResponse))
    ensures
        reply.0 == status_of(error),
        reply.1.error@ == reason_of(error),
{
    match error {
        IngestionError::EmptySegment => (
            BAD_REQUEST,
            ErrorResponse { error: String::from_str("Data cannot be empty") },
        ),
        IngestionError::SegmentTooLarge { size, max } => {
            let mut text = String::from_str("Segment size (");
            push_decimal(&mut text, size as u64);
            text.append(" bytes) exceeds maximum (");
            push_decimal(&mut text, max as u64);
            text.append(" bytes)");
            (PAYLOAD_TOO_LARGE, ErrorResponse { error: text })
        },
        IngestionError::InvalidData(detail) => (BAD_REQUEST, ErrorResponse { error: detail }),
        IngestionError::StorageFailure(detail) => (
            INTERNAL_SERVER_ERROR,
            ErrorResponse { error: detail },
        ),
        IngestionError::SegmentAlreadyExists(detail) => (CONFLICT, ErrorResponse { error: detail }),
        IngestionError::ConfigError(detail) => (
            INTERNAL_SERVER_ERROR,
            ErrorResponse { error: detail },
        ),
        IngestionError::InternalError(detail) => (
            INTERNAL_SERVER_ERROR,
            ErrorResponse { error: detail },
        ),
    }
}

/// The reply to an ingestion that stored the segment `id`.
pub fn success_reply(id: &SegmentId) -> (reply: (u16, IngestResponse))
    ensures
        reply.0 == CREATED,
        reply.1.segment_id@ == id.text(),
        reply.1.message@ == "Segment ingested successfully"@,
{
    (
        CREATED,
        IngestResponse {
            segment_id: id.to_string(),
            message: String::from_str("Segment ingested successfully"),
        },
    )
}

/// The bucket to store in: the configured one, or `zuklink`.
pub fn bucket_or_default(configured: Option<String>) -> (bucket: String)
    ensures
        bucket@ == match configured {
            Some(name) => name@,
            None => "zuklink"@,
        },
{
    match configured {
        Some(name) => name,
        None => String::from_str("zuklink"),
    }
}

/// The address to listen on: host, a colon, and port, where a missing host is
/// `0.0.0.0` and a missing port is `3000`.
pub fn bind_address(host: Option<String>, port: Option<String>) -> (address: String)
    ensures
        address@ == (match host {
            Some(name) => name@,
            None => "0.0.0.0"@,
        }) + ":"@ + (match port {
            Some(number) => number@,
            None => "3000"@,
        }),
{
    let mut address = match host {
        Some(name) => name,
        None => String::from_str("0.0.0.0"),
    };
    address.append(":");
    match port {
        Some(number) => address.append(number.as_str()),
        None => address.append("3000"),
    }
    address
}

} // verus!
