use zuklink::ingestion::entity::{Segment, Timestamp};
use zuklink::ingestion::ids::SegmentId;

#[test]
fn test_segment_id_generation() {
    let id1 = SegmentId::new();
    let id2 = SegmentId::new();

    assert_ne!(id1, id2, "Each SegmentId should be unique");
}

#[test]
fn test_segment_id_display() {
    let id = SegmentId::new();
    let display_str = id.to_string();

    // Should be a valid UUID string format
    assert_eq!(display_str.len(), 36); // UUID string length with hyphens
}

#[test]
fn test_segment_creation() {
    let data = vec![1, 2, 3, 4, 5];
    let segment = Segment::new(data.clone());

    assert_eq!(segment.size(), data.len());
    assert!(!segment.is_persisted());
    assert!(segment.storage_key().is_none());
}

#[test]
fn test_segment_set_storage_key() {
    let data = vec![1, 2, 3];
    let mut segment = Segment::new(data);

    assert!(!segment.is_persisted());

    segment.set_storage_key("data/abc-123.zuk".to_string());

    assert!(segment.is_persisted());
    assert_eq!(segment.storage_key(), Some("data/abc-123.zuk"));
}

#[test]
fn test_segment_from_parts() {
    let id = SegmentId::new();
    let clock = chrono::Utc::now();
    let now = Timestamp { seconds: clock.timestamp(), nanos: clock.timestamp_subsec_nanos() };
    let key = Some("data/test.zuk".to_string());

    let segment = Segment::from_parts(id, 100, now, key.clone());

    assert_eq!(segment.id(), &id);
    assert_eq!(segment.size(), 100);
    assert_eq!(segment.created_at(), &now);
    assert_eq!(segment.storage_key(), Some("data/test.zuk"));
    assert!(segment.is_persisted());
}

#[test]
fn segment_id_holds_the_uuid_it_was_made_of() {
    let uuid = uuid::Uuid::from_u128(0x550e8400_e29b_41d4_a716_446655440000);
    let id = SegmentId::from_uuid(uuid);
    assert_eq!(id.as_uuid(), &uuid);
    assert_eq!(id.to_string(), "550e8400-e29b-41d4-a716-446655440000");
    assert_eq!(id, SegmentId::from_uuid(uuid));
}

#[test]
fn a_new_segment_is_made_now() {
    let before = chrono::Utc::now().timestamp();
    let segment = Segment::of_size(42);
    let after = chrono::Utc::now().timestamp();
    assert_eq!(segment.size(), 42);
    assert!(before <= segment.created_at().seconds && segment.created_at().seconds <= after);
    assert!(segment.storage_key().is_none());
}

#[test]
fn a_copy_of_a_segment_holds_the_same_parts() {
    let mut segment = Segment::new(vec![9; 12]);
    segment.set_storage_key("k.zuk".to_string());
    let copy = segment.clone();
    assert_eq!(copy.id(), segment.id());
    assert_eq!(copy.size(), 12);
    assert_eq!(copy.created_at(), segment.created_at());
    assert_eq!(copy.storage_key(), Some("k.zuk"));
}

#[test]
fn segment_id_converts_to_and_from_uuid() {
    let uuid = uuid::Uuid::from_u128(0x0123_4567_89ab_cdef_0123_4567_89ab_cdef);
    let id = SegmentId::from(uuid);
    assert_eq!(id, SegmentId::from_uuid(uuid));
    assert_eq!(uuid::Uuid::from(id), uuid);
    assert_ne!(SegmentId::default(), SegmentId::default());
    assert_eq!(SegmentId::default().as_uuid().get_version_num(), 7);
}

#[test]
fn a_fresh_segment_id_is_of_version_seven() {
    for _ in 0..20 {
        let id = SegmentId::new();
        assert_eq!(id.as_uuid().get_version_num(), 7);
        assert_eq!(id.as_uuid().get_version_num(), zuklink::ingestion::ids::TIME_ORDERED_VERSION);
        // the version is the first digit of the third group
        assert_eq!(id.to_string().as_bytes()[14], b'7');
    }
}

#[test]
fn the_version_of_an_identifier_is_read_from_it() {
    assert_eq!(SegmentId::new().version_num(), 7);
    assert_eq!(SegmentId::default().version_num(), 7);
    assert_eq!(Segment::new(vec![1]).id().version_num(), 7);
    let old = SegmentId::from_uuid(uuid::Uuid::from_u128(0x550e8400_e29b_41d4_a716_446655440000));
    assert_eq!(old.version_num(), 4);
    assert_eq!(old.version_num(), old.as_uuid().get_version_num());
}
