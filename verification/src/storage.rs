//! What the object store adapter decides: the key a segment is stored under,
//! what a failed operation is reported as, and when a failed existence check
//! means that the segment is not there.

use vstd::prelude::*;
use vstd::string::*;
use vstd::utf8::*;
use crate::ingestion::error::IngestionError;
use crate::ingestion::ids::SegmentId;

verus! {

/// The key of a segment: its identifier followed by `.zuk`.
pub open spec fn object_key_text(id: SegmentId) -> Seq<char> {
    id.text() + ".zuk"@
}

/// What is said of an operation on `key` that failed because of `cause`.
pub open spec fn failure_text(what: Seq<char>, key: Seq<char>, cause: Seq<char>) -> Seq<char> {
    what + " for key '"@ + key + "': "@ + cause
}

/// `needle` occurs in `hay` at `at`.
pub open spec fn occurs_at(hay: Seq<u8>, needle: Seq<u8>, at: int) -> bool {
    0 <= at && at + needle.len() <= hay.len() && hay.subrange(at, at + needle.len()) == needle
}

/// `needle` occurs somewhere in `hay`.
pub open spec fn has_bytes(hay: Seq<u8>, needle: Seq<u8>) -> bool {
    exists|at: int| occurs_at(hay, needle, at)
}

/// `text` contains `part`, byte for byte in UTF-8.
pub open spec fn mentions(text: Seq<char>, part: Seq<char>) -> bool {
    has_bytes(encode_utf8(text), encode_utf8(part))
}

/// The cause of a failed existence check says that the object is missing: it
/// mentions `NotFound` or `404`.
pub open spec fn says_missing(cause: Seq<char>) -> bool {
    mentions(cause, "NotFound"@) || mentions(cause, "404"@)
}

/// The key under which the segment `id` is stored.
pub fn object_key(id: &SegmentId) -> (key: String)
    ensures
        key@ == object_key_text(*id),
{
    let mut key = id.to_string();
    key.append(".zuk");
    key
}

/// The storage failure for an operation on `key` that failed because of
/// `cause`; `what` names the operation.
pub fn storage_failure(what: &str, key: &str, cause: &str) -> (error: IngestionError)
    ensures
        error matches IngestionError::StorageFailure(detail) && detail@ == failure_text(
            what@,
            key@,
            cause@,
        ),
{
    let mut detail = String::from_str(what);
    detail.append(" for key '");
    detail.append(key);
    detail.append("': ");
    detail.append(cause);
    IngestionError::StorageFailure(detail)
}

/// The failure of a save.
pub fn put_failed(key: &str, cause: &str) -> (error: IngestionError)
    ensures
        error matches IngestionError::StorageFailure(detail) && detail@ == failure_text(
            "S3 put_object failed"@,
            key@,
            cause@,
        ),
{
    storage_failure("S3 put_object failed", key, cause)
}

/// The failure of a retrieval.
pub fn get_failed(key: &str, cause: &str) -> (error: IngestionError)
    ensures
        error matches IngestionError::StorageFailure(detail) && detail@ == failure_text(
            "S3 get_object failed"@,
            key@,
            cause@,
        ),
{
    storage_failure("S3 get_object failed", key, cause)
}

/// The failure to read the body of a retrieved object.
pub fn body_failed(key: &str, cause: &str) -> (error: IngestionError)
    ensures
        error matches IngestionError::StorageFailure(detail) && detail@ == failure_text(
            "Failed to read S3 object body"@,
            key@,
            cause@,
        ),
{
    storage_failure("Failed to read S3 object body", key, cause)
}

/// The failure of a deletion.
pub fn delete_failed(key: &str, cause: &str) -> (error: IngestionError)
    ensures
        error matches IngestionError::StorageFailure(detail) && detail@ == failure_text(
            "S3 delete_object failed"@,
            key@,
            cause@,
        ),
{
    storage_failure("S3 delete_object failed", key, cause)
}

/// Whether `needle` occurs in `hay` at `at`.
fn matches_at(hay: &[u8], needle: &[u8], at: usize) -> (found: bool)
    requires
        at + needle@.len() <= hay@.len(),
    ensures
        found == occurs_at(hay@, needle@, at as int),
{
    let mut k: usize = 0;
    while k < needle.len()
        invariant
            k <= needle.len(),
            at + needle.len() <= hay.len(),
            forall|j: int| 0 <= j < k ==> hay@[at + j] == needle@[j],
        decreases needle.len() - k,
    {
        if hay[at + k] != needle[k] {
            proof {
                let part = hay@.subrange(at as int, at + needle@.len());
                assert(part[k as int] == hay@[at + k]);
            }
            return false;
        }
        k += 1;
    }
    assert(hay@.subrange(at as int, at + needle@.len()) =~= needle@);
    true
}

/// Whether `needle` occurs somewhere in `hay`.
pub fn contains_bytes(hay: &[u8], needle: &[u8]) -> (found: bool)
    ensures
        found == has_bytes(hay@, needle@),
{
    if needle.len() > hay.len() {
        assert forall|at: int| !occurs_at(hay@, needle@, at) by {}
        return false;
    }
    let last: usize = hay.len() - needle.len();
    let mut at: usize = 0;
    loop
        invariant
            at <= last,
            last == hay@.len() - needle@.len(),
            forall|before: int| 0 <= before < at ==> !occurs_at(hay@, needle@, before),
        decreases last - at,
    {
        if matches_at(hay, needle, at) {
            return true;
        }
        if at == last {
            assert forall|any: int| !occurs_at(hay@, needle@, any) by {}
            return false;
        }
        at += 1;
    }
}

/// Whether the cause of a failed existence check says that the object is
/// missing.
pub fn is_missing(cause: &str) -> (missing: bool)
    ensures
        missing == says_missing(cause@),
{
    contains_bytes(cause.as_bytes(), "NotFound".as_bytes()) || contains_bytes(
        cause.as_bytes(),
        "404".as_bytes(),
    )
}

/// What a failed existence check on `key` comes to. A cause that says the
/// object is missing means that the segment does not exist; any other cause
/// is a storage failure.
pub fn head_outcome(key: &str, cause: &str) -> (outcome: Result<bool, IngestionError>)
    ensures
        says_missing(cause@) ==> outcome == Ok::<bool, IngestionError>(false),
        !says_missing(cause@) ==> (outcome matches Err(IngestionError::StorageFailure(detail))
            && detail@ == failure_text("S3 head_object failed"@, key@, cause@)),
{
    if is_missing(cause) {
        Ok(false)
    } else {
        Err(storage_failure("S3 head_object failed", key, cause))
    }
}

} // verus!
