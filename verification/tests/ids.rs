//! Identifiers and blob keys.
use catapulte::email::BlobRef;
use catapulte::id::EmailId;
use catapulte::r2::{AttachmentStoreError, BucketOutcome, ObjectReply, R2AttachmentStore};

#[test]
fn an_identifier_is_written_hyphenated_and_in_lower_case() {
    let id = EmailId::from(0xFEDC_BA98_7654_3210_0f1e_2d3c_4b5a_6978);
    assert_eq!(id.to_text(), "fedcba98-7654-3210-0f1e-2d3c4b5a6978");
    assert_eq!(id.as_uuid(), 0xFEDC_BA98_7654_3210_0f1e_2d3c_4b5a_6978);
}

#[test]
fn an_identifier_reads_back() {
    let id = EmailId::from(0x0123_4567_89ab_4def_8123_4567_89ab_cdef);
    assert_eq!(EmailId::parse(&id.to_text()), Ok(id));
    assert_eq!(EmailId::parse("01234567-89AB-4DEF-8123-456789ABCDEF"), Ok(id));
    assert!(EmailId::parse("not a uuid").is_err());
    assert_ne!(EmailId::from(1).to_text(), EmailId::from(2).to_text());
}

fn version(id: EmailId) -> u128 {
    (id.as_uuid() >> 76) & 0xf
}

#[test]
fn fresh_identifiers_carry_their_version() {
    let timed = EmailId::generate(true);
    let random = EmailId::generate(false);
    assert_eq!(version(timed), 7);
    assert_eq!(version(random), 4);
    assert_eq!((timed.as_uuid() >> 62) & 3, 2);
    assert_eq!((random.as_uuid() >> 62) & 3, 2);
    assert_ne!(EmailId::generate(false), random);
}

fn store() -> R2AttachmentStore {
    R2AttachmentStore::new("ATTACHMENTS".to_owned())
}

fn io_message(error: AttachmentStoreError) -> String {
    match error {
        AttachmentStoreError::Io { source } => source,
        AttachmentStoreError::NotFound => panic!("expected an I/O failure"),
    }
}

#[test]
fn a_blob_is_put_under_a_random_key() {
    assert_eq!(store().binding, "ATTACHMENTS");
    let put = store().put(Ok(vec![1, 2, 3])).unwrap();
    assert_eq!(put.bytes, vec![1, 2, 3]);
    assert_eq!(put.size_bytes, 3);
    assert_eq!(version(EmailId::parse(&put.key).unwrap()), 4);
    assert_ne!(store().put(Ok(vec![])).unwrap().key, put.key);
    let key = put.key.clone();
    let stored = store().put_written(put.key, put.size_bytes, BucketOutcome::Done).unwrap();
    assert_eq!(stored.blob.backend, "r2");
    assert_eq!(stored.blob.key, key);
    assert_eq!(stored.size_bytes, 3);
}

#[test]
fn a_blob_is_put_under_the_drawn_key() {
    let put = store().put_under(0x1f, Ok(vec![9])).unwrap();
    assert_eq!(put.key, "00000000-0000-0000-0000-00000000001f");
    assert_eq!(put.bytes, vec![9]);
    let read = store().put_under(0x1f, Err("cut off".to_owned())).err().unwrap();
    assert_eq!(io_message(read), "reading attachment: cut off");
    let blob = BlobRef { backend: "r2".to_owned(), key: put.key };
    assert_eq!(store().object_key(&blob), "00000000-0000-0000-0000-00000000001f");
}

#[test]
fn a_put_reports_its_failures() {
    let read = store().put(Err("cut off".to_owned())).err().unwrap();
    assert_eq!(io_message(read), "reading attachment: cut off");
    let unbound = BucketOutcome::NoBinding("no bucket".to_owned());
    let err = store().put_written("k".to_owned(), 0, unbound).err().unwrap();
    assert_eq!(io_message(err), "r2 binding: no bucket");
    let failed = BucketOutcome::Failed("full".to_owned());
    let err = store().put_written("k".to_owned(), 0, failed).err().unwrap();
    assert_eq!(io_message(err), "r2 put: full");
}

#[test]
fn a_blob_reads_back() {
    assert_eq!(store().get(ObjectReply::Bytes(vec![7])).unwrap(), vec![7]);
    assert_eq!(store().load_bytes("k", ObjectReply::Bytes(vec![7])), Ok(vec![7]));
}

#[test]
fn a_get_reports_its_failures() {
    let failure = |reply: ObjectReply| io_message(store().get(reply).err().unwrap());
    assert_eq!(failure(ObjectReply::NoBinding("b".to_owned())), "r2 binding: b");
    assert_eq!(failure(ObjectReply::GetFailed("g".to_owned())), "r2 get: g");
    assert_eq!(failure(ObjectReply::ReadFailed("r".to_owned())), "r2 read: r");
    assert!(matches!(store().get(ObjectReply::Missing), Err(AttachmentStoreError::NotFound)));
    assert!(matches!(store().get(ObjectReply::NoBody), Err(AttachmentStoreError::NotFound)));
}

#[test]
fn a_load_reports_its_failures() {
    let failure = |reply: ObjectReply| store().load_bytes("key1", reply).unwrap_err();
    assert_eq!(failure(ObjectReply::NoBinding("b".to_owned())), "b");
    assert_eq!(failure(ObjectReply::GetFailed("g".to_owned())), "r2 get key1: g");
    assert_eq!(failure(ObjectReply::Missing), "attachment blob not found: key1");
    assert_eq!(failure(ObjectReply::NoBody), "attachment blob key1 has no body");
    assert_eq!(failure(ObjectReply::ReadFailed("r".to_owned())), "reading attachment key1: r");
}

#[test]
fn a_removal_reports_its_failures() {
    assert!(store().delete(BucketOutcome::Done).is_ok());
    let failure = |outcome: BucketOutcome| io_message(store().delete(outcome).err().unwrap());
    assert_eq!(failure(BucketOutcome::NoBinding("b".to_owned())), "r2 binding: b");
    assert_eq!(failure(BucketOutcome::Failed("d".to_owned())), "r2 delete: d");
}
