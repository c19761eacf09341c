//! The ingestion service: configuration and the rules that decide whether
//! data is taken.

use vstd::prelude::*;
use vstd::string::*;
use crate::ingestion::entity::Segment;
use crate::ingestion::error::IngestionError;
use crate::ingestion::ids::{SegmentId, TIME_ORDERED_VERSION};
use crate::text::{decimal, push_decimal};

verus! {

/// The largest segment taken by default: 100 MiB.
pub const DEFAULT_MAX_SEGMENT_SIZE: usize = 104_857_600;

/// The smallest segment taken by default: one byte.
pub const DEFAULT_MIN_SEGMENT_SIZE: usize = 1;

/// Limits on the size of a segment.
#[derive(Debug)]
pub struct IngestionConfig {
    /// The largest size taken, in bytes.
    pub max_segment_size: usize,
    /// The smallest size taken, in bytes.
    pub min_segment_size: usize,
}

impl Clone for IngestionConfig {
    fn clone(&self) -> (copy: IngestionConfig)
        ensures
            copy == *self,
    {
        IngestionConfig {
            max_segment_size: self.max_segment_size,
            min_segment_size: self.min_segment_size,
        }
    }
}

impl Default for IngestionConfig {
    fn default() -> (config: IngestionConfig)
        ensures
            config.max_segment_size == DEFAULT_MAX_SEGMENT_SIZE,
            config.min_segment_size == DEFAULT_MIN_SEGMENT_SIZE,
    {
        IngestionConfig {
            max_segment_size: DEFAULT_MAX_SEGMENT_SIZE,
            min_segment_size: DEFAULT_MIN_SEGMENT_SIZE,
        }
    }
}

/// What is said of data that is smaller than the smallest size taken.
pub open spec fn below_minimum_text(size: nat, min: nat) -> Seq<char> {
    "Segment size ("@ + decimal(size) + ") is below minimum ("@ + decimal(min) + ")"@
}

/// `verdict` is what the size rules say of `size` bytes under `config`.
///
/// No data at all is an empty segment. Data over the largest size is too
/// large, and the error carries both sizes. Data under the smallest size is
/// invalid, and the error says so. Everything else is taken.
pub open spec fn is_size_verdict(
    config: IngestionConfig,
    size: usize,
    verdict: Result<(), IngestionError>,
) -> bool {
    if size == 0 {
        verdict matches Err(IngestionError::EmptySegment)
    } else if size > config.max_segment_size {
        verdict == Err::<(), IngestionError>(
            IngestionError::SegmentTooLarge { size, max: config.max_segment_size },
        )
    } else if size < config.min_segment_size {
        verdict matches Err(IngestionError::InvalidData(detail)) && detail@ == below_minimum_text(
            size as nat,
            config.min_segment_size as nat,
        )
    } else {
        verdict is Ok
    }
}

/// Whether the size rules take `size` bytes under `config`.
pub open spec fn is_taken(config: IngestionConfig, size: usize) -> bool {
    0 < size && config.min_segment_size <= size <= config.max_segment_size
}

/// The ingestion service: a storage backend and the size limits.
pub struct IngestionService<R> {
    repository: R,
    config: IngestionConfig,
}

impl<R> IngestionService<R> {
    /// The limits of this service.
    pub closed spec fn limits(&self) -> IngestionConfig {
        self.config
    }

    /// The storage backend of this service.
    pub closed spec fn backend(&self) -> R {
        self.repository
    }

    /// A service on `repository` with the limits `config`.
    pub fn new(repository: R, config: IngestionConfig) -> (service: IngestionService<R>)
        ensures
            service.backend() == repository,
            service.limits() == config,
    {
        IngestionService { repository, config }
    }

    /// A service on `repository` with the default limits.
    pub fn with_repository(repository: R) -> (service: IngestionService<R>)
        ensures
            service.backend() == repository,
            service.limits().max_segment_size == DEFAULT_MAX_SEGMENT_SIZE,
            service.limits().min_segment_size == DEFAULT_MIN_SEGMENT_SIZE,
    {
        IngestionService::new(repository, IngestionConfig::default())
    }

    /// The limits of this service.
    pub fn config(&self) -> (config: &IngestionConfig)
        ensures
            *config == self.limits(),
    {
        &self.config
    }

    /// The storage backend of this service.
    pub fn repository(&self) -> (repository: &R)
        ensures
            *repository == self.backend(),
    {
        &self.repository
    }

    /// Applies the size rules to data of `size` bytes.
    pub fn check_size(&self, size: usize) -> (verdict: Result<(), IngestionError>)
        ensures
            is_size_verdict(self.limits(), size, verdict),
            verdict is Ok <==> is_taken(self.limits(), size),
    {
        if size == 0 {
            return Err(IngestionError::EmptySegment);
        }
        if size > self.config.max_segment_size {
            return Err(IngestionError::segment_too_large(size, self.config.max_segment_size));
        }
        if size < self.config.min_segment_size {
            let mut detail = String::from_str("Segment size (");
            push_decimal(&mut detail, size as u64);
            detail.append(") is below minimum (");
            push_decimal(&mut detail, self.config.min_segment_size as u64);
            detail.append(")");
            return Err(IngestionError::InvalidData(detail));
        }
        Ok(())
    }

    /// The first half of an ingestion: applies the size rules to `data` and,
    /// if they take it, makes the segment that is to be stored.
    pub fn begin_ingest(&self, data: &Vec<u8>) -> (begun: Result<Segment, IngestionError>)
        ensures
            begun is Ok <==> is_taken(self.limits(), data@.len() as usize),
            match begun {
                Ok(segment) => segment.spec_size() == data@.len()
                    && segment.spec_storage_key() is None && segment.spec_id().version()
                    == TIME_ORDERED_VERSION,
                Err(error) => is_size_verdict(
                    self.limits(),
                    data@.len() as usize,
                    Err::<(), IngestionError>(error),
                ),
            },
    {
        match self.check_size(data.len()) {
            Ok(()) => Ok(Segment::of_size(data.len())),
            Err(error) => Err(error),
        }
    }

    /// The second half of an ingestion: takes what the storage backend
    /// answered when it was asked to save `segment`. A key means the segment
    /// is stored there, and its identifier is handed out. A failure is passed
    /// on as it is.
    pub fn finish_ingest(&self, segment: Segment, saved: Result<String, IngestionError>) -> (done:
        Result<SegmentId, IngestionError>)
        ensures
            match saved {
                Ok(key) => done == Ok::<SegmentId, IngestionError>(segment.spec_id()),
                Err(error) => done == Err::<SegmentId, IngestionError>(error),
            },
    {
        let mut segment = segment;
        match saved {
            Ok(key) => {
                segment.set_storage_key(key);
                Ok(*segment.id())
            },
            Err(error) => Err(error),
        }
    }
}

} // verus!
