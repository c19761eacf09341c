//! The segment entity.

use vstd::prelude::*;
use chrono::Utc;
use crate::ingestion::ids::{SegmentId, TIME_ORDERED_VERSION};
use crate::text::text_of;

verus! {

/// A point in time: the whole seconds since 1970-01-01 00:00:00 UTC, and the
/// nanoseconds past them.
#[derive(Debug, Clone, Copy, PartialEq, Eq, Structural)]
pub struct Timestamp {
    pub seconds: i64,
    pub nanos: u32,
}

/// Calls `Utc::now`, which reads the system clock, and takes the seconds and
/// nanoseconds of what it returns (`DateTime::timestamp`,
/// `DateTime::timestamp_subsec_nanos`). Nothing is promised of the result.
/// `Utc::now` stops the process if the clock stands before 1970.
#[verifier::external_body]
fn now() -> Timestamp {
    let now = Utc::now();
    Timestamp { seconds: now.timestamp(), nanos: now.timestamp_subsec_nanos() }
}

/// An immutable chunk of ingested data: its identifier, its size, when it
/// was made, and where it is stored once it has been stored.
#[derive(Debug)]
pub struct Segment {
    id: SegmentId,
    size_bytes: usize,
    created_at: Timestamp,
    storage_key: Option<String>,
}

impl Clone for Segment {
    fn clone(&self) -> (copy: Segment)
        ensures
            copy.spec_id() == self.spec_id(),
            copy.spec_size() == self.spec_size(),
            copy.spec_created_at() == self.spec_created_at(),
            copy.spec_storage_key() == self.spec_storage_key(),
    {
        Segment {
            id: self.id,
            size_bytes: self.size_bytes,
            created_at: self.created_at,
            storage_key: self.storage_key.clone(),
        }
    }
}

impl Segment {
    /// The segment's identifier.
    pub closed spec fn spec_id(&self) -> SegmentId {
        self.id
    }

    /// The size of the data in bytes.
    pub closed spec fn spec_size(&self) -> usize {
        self.size_bytes
    }

    /// When the segment was made.
    pub closed spec fn spec_created_at(&self) -> Timestamp {
        self.created_at
    }

    /// Where the segment is stored, if it has been stored.
    pub closed spec fn spec_storage_key(&self) -> Option<Seq<char>> {
        text_of(self.storage_key)
    }

    /// A new segment for `data`, with a fresh identifier, made now and not
    /// yet stored.
    pub fn new(data: Vec<u8>) -> (segment: Segment)
        ensures
            segment.spec_size() == data@.len(),
            segment.spec_storage_key() is None,
            segment.spec_id().version() == TIME_ORDERED_VERSION,
    {
        Segment::of_size(data.len())
    }

    /// A new segment for data of `size` bytes, with a fresh identifier, made
    /// now and not yet stored.
    pub fn of_size(size: usize) -> (segment: Segment)
        ensures
            segment.spec_size() == size,
            segment.spec_storage_key() is None,
            segment.spec_id().version() == TIME_ORDERED_VERSION,
    {
        Segment::from_parts(SegmentId::new(), size, now(), None)
    }

    /// The segment made of the given parts.
    pub fn from_parts(
        id: SegmentId,
        size_bytes: usize,
        created_at: Timestamp,
        storage_key: Option<String>,
    ) -> (segment: Segment)
        ensures
            segment.spec_id() == id,
            segment.spec_size() == size_bytes,
            segment.spec_created_at() == created_at,
            segment.spec_storage_key() == text_of(storage_key),
    {
        Segment { id, size_bytes, created_at, storage_key }
    }

    /// The segment's identifier.
    pub fn id(&self) -> (id: &SegmentId)
        ensures
            *id == self.spec_id(),
    {
        &self.id
    }

    /// The size of the data in bytes.
    pub fn size(&self) -> (size: usize)
        ensures
            size == self.spec_size(),
    {
        self.size_bytes
    }

    /// When the segment was made.
    pub fn created_at(&self) -> (at: &Timestamp)
        ensures
            *at == self.spec_created_at(),
    {
        &self.created_at
    }

    /// Where the segment is stored, if it has been stored.
    pub fn storage_key(&self) -> (key: Option<&str>)
        ensures
            match key {
                Some(text) => self.spec_storage_key() == Some(text@),
                None => self.spec_storage_key() is None,
            },
    {
        match &self.storage_key {
            Some(text) => Some(text.as_str()),
            None => None,
        }
    }

    /// Records where the segment has been stored.
    pub fn set_storage_key(&mut self, key: String)
        ensures
            final(self).spec_storage_key() == Some(key@),
            final(self).spec_id() == old(self).spec_id(),
            final(self).spec_size() == old(self).spec_size(),
            final(self).spec_created_at() == old(self).spec_created_at(),
    {
        self.storage_key = Some(key);
    }

    /// Whether the segment has been stored.
    pub fn is_persisted(&self) -> (stored: bool)
        ensures
            stored == self.spec_storage_key() is Some,
    {
        self.storage_key.is_some()
    }
}

} // verus!
