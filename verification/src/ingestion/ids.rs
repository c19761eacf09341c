//! Segment identifiers.

use vstd::prelude::*;
use uuid::Uuid;

verus! {

/// `uuid::Uuid`: a 128-bit identifier.
#[verifier::external_type_specification]
#[verifier::external_body]
pub struct ExUuid(Uuid);

/// What `Uuid`'s `Display` writes: the identifier in lower-case hexadecimal
/// digits, in five groups separated by hyphens.
pub uninterp spec fn uuid_text(uuid: Uuid) -> Seq<char>;

/// The version that `Uuid::get_version_num` reads from an identifier: the
/// number of the scheme it was made by.
pub uninterp spec fn uuid_version(uuid: Uuid) -> usize;

/// The version of the identifiers that are made from the time and random
/// bits.
pub const TIME_ORDERED_VERSION: usize = 7;

/// Calls `Uuid::now_v7`, which makes an identifier from the current time and
/// random bits. Which identifier comes out is open; that it is one of
/// version 7 is what `now_v7` is documented to make, and its source sets
/// that version on every path. It stops the process if the clock stands
/// before 1970.
#[verifier::external_body]
fn fresh_uuid() -> (uuid: Uuid)
    ensures
        uuid_version(uuid) == TIME_ORDERED_VERSION,
{
    Uuid::now_v7()
}

/// Calls `Uuid::get_version_num`, which reads the version from the
/// identifier.
#[verifier::external_body]
fn version_of_uuid(uuid: &Uuid) -> (version: usize)
    ensures
        version == uuid_version(*uuid),
{
    uuid.get_version_num()
}

/// Calls `to_string` on a `Uuid`, which goes through its `Display`: the
/// hyphenated form, 36 characters long.
#[verifier::external_body]
fn text_of_uuid(uuid: &Uuid) -> (text: String)
    ensures
        text@ == uuid_text(*uuid),
        text@.len() == 36,
{
    uuid.to_string()
}

/// Unique identifier of a segment.
#[derive(Debug, Clone, Copy, PartialEq, Eq, Hash)]
pub struct SegmentId(Uuid);

impl SegmentId {
    /// The identifier inside.
    pub closed spec fn uuid(&self) -> Uuid {
        self.0
    }

    /// The identifier as text.
    pub open spec fn text(&self) -> Seq<char> {
        uuid_text(self.uuid())
    }

    /// The version of the identifier inside.
    pub open spec fn version(&self) -> usize {
        uuid_version(self.uuid())
    }

    /// A fresh identifier, made from the current time and random bits: an
    /// identifier of version 7. Which one it is depends on the clock and on
    /// chance.
    pub fn new() -> (id: SegmentId)
        ensures
            id.version() == TIME_ORDERED_VERSION,
    {
        SegmentId(fresh_uuid())
    }

    /// The version of the identifier inside.
    pub fn version_num(&self) -> (version: usize)
        ensures
            version == self.version(),
    {
        version_of_uuid(&self.0)
    }

    /// The segment identifier that holds `uuid`.
    pub fn from_uuid(uuid: Uuid) -> (id: SegmentId)
        ensures
            id.uuid() == uuid,
    {
        SegmentId(uuid)
    }

    /// The identifier inside.
    pub fn as_uuid(&self) -> (uuid: &Uuid)
        ensures
            *uuid == self.uuid(),
    {
        &self.0
    }

    /// The identifier in its hyphenated form.
    pub fn to_string(&self) -> (text: String)
        ensures
            text@ == self.text(),
            text@.len() == 36,
    {
        text_of_uuid(&self.0)
    }
}

impl Default for SegmentId {
    /// A fresh identifier of version 7, as `new` makes it.
    fn default() -> (id: SegmentId)
        ensures
            id.version() == TIME_ORDERED_VERSION,
    {
        SegmentId::new()
    }
}

impl From<Uuid> for SegmentId {
    fn from(uuid: Uuid) -> (id: SegmentId) {
        SegmentId(uuid)
    }
}

impl vstd::std_specs::convert::FromSpecImpl<Uuid> for SegmentId {
    open spec fn obeys_from_spec() -> bool {
        true
    }

    closed spec fn from_spec(uuid: Uuid) -> SegmentId {
        SegmentId(uuid)
    }
}

impl From<SegmentId> for Uuid {
    fn from(id: SegmentId) -> (uuid: Uuid) {
        id.0
    }
}

impl vstd::std_specs::convert::FromSpecImpl<SegmentId> for Uuid {
    open spec fn obeys_from_spec() -> bool {
        true
    }

    open spec fn from_spec(id: SegmentId) -> Uuid {
        id.uuid()
    }
}

/// Turning a `Uuid` into a segment identifier and back gives the same `Uuid`.
pub proof fn lemma_uuid_round_trip(uuid: Uuid)
    ensures
        <SegmentId as vstd::std_specs::convert::FromSpec<Uuid>>::from_spec(uuid).uuid() == uuid,
{
}

} // verus!
