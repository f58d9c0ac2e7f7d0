//! Attachment storage in a Cloudflare R2 bucket.
//!
//! The host reads and writes the bucket and hands back what came of it; here it
//! is decided under which key a blob goes and what an outcome comes to.
use crate::email::BlobRef;
use crate::id::{format_uuid, new_v4, uuid_text, uuid_variant, uuid_version};
use crate::text::{contextual, with_context};
use vstd::prelude::*;
use vstd::string::StringExecFns;

verus! {

/// The name of this backend in a [`BlobRef`].
pub const BACKEND: &'static str = "r2";

/// A failure of the attachment storage.
#[derive(Debug)]
pub enum AttachmentStoreError {
    /// There is no such blob.
    NotFound,
    /// The bucket or the reader failed.
    Io { source: String },
}

/// A failure of the attachment storage, with its message taken by what it says.
pub enum AttachmentFailure {
    NotFound,
    Io(Seq<char>),
}

impl View for AttachmentStoreError {
    type V = AttachmentFailure;

    open spec fn view(&self) -> AttachmentFailure {
        match self {
            AttachmentStoreError::NotFound => AttachmentFailure::NotFound,
            AttachmentStoreError::Io { source } => AttachmentFailure::Io(source@),
        }
    }
}

/// A blob that was stored.
#[derive(Debug)]
pub struct PutResult {
    pub blob: BlobRef,
    pub size_bytes: u64,
}

/// A blob to be written to the bucket.
#[derive(Debug)]
pub struct PendingPut {
    pub key: String,
    pub bytes: Vec<u8>,
    pub size_bytes: u64,
}

/// What came of an access to the bucket that gives nothing back.
#[derive(Debug)]
pub enum BucketOutcome {
    Done,
    /// The bucket is not bound, with this message.
    NoBinding(String),
    /// The bucket refused, with this message.
    Failed(String),
}

/// What came of reading a blob from the bucket.
#[derive(Debug)]
pub enum ObjectReply {
    Bytes(Vec<u8>),
    /// The bucket is not bound, with this message.
    NoBinding(String),
    /// The bucket refused, with this message.
    GetFailed(String),
    /// There is no object under the key.
    Missing,
    /// The object has no body.
    NoBody,
    /// The body could not be read, with this message.
    ReadFailed(String),
}

/// The failure `context: detail`.
fn io(context: &str, detail: &str) -> (error: AttachmentStoreError)
    ensures
        error@ == AttachmentFailure::Io(with_context(context@, detail@)),
{
    AttachmentStoreError::Io { source: contextual(context, detail) }
}

/// Whether a text is the key of a blob: a random UUID.
pub open spec fn is_blob_key(key: Seq<char>) -> bool {
    exists|bits: u128| #[trigger]
        uuid_version(bits) == 4 && uuid_variant(bits) == 2 && key == uuid_text(bits)
}

/// Why a blob could not be loaded for delivery, as it is reported; `None` if it
/// was.
pub open spec fn load_failure(key: Seq<char>, reply: ObjectReply) -> Option<Seq<char>> {
    match reply {
        ObjectReply::Bytes(_) => None,
        ObjectReply::NoBinding(message) => Some(message@),
        ObjectReply::GetFailed(message) => Some(with_context("r2 get "@ + key, message@)),
        ObjectReply::Missing => Some("attachment blob not found: "@ + key),
        ObjectReply::NoBody => Some("attachment blob "@ + key + " has no body"@),
        ObjectReply::ReadFailed(message) => Some(
            with_context("reading attachment "@ + key, message@),
        ),
    }
}

/// Why a blob could not be read; `None` if it was.
pub open spec fn get_failure(reply: ObjectReply) -> Option<AttachmentFailure> {
    match reply {
        ObjectReply::Bytes(_) => None,
        ObjectReply::NoBinding(message) => Some(
            AttachmentFailure::Io(with_context("r2 binding"@, message@)),
        ),
        ObjectReply::GetFailed(message) => Some(
            AttachmentFailure::Io(with_context("r2 get"@, message@)),
        ),
        ObjectReply::Missing | ObjectReply::NoBody => Some(AttachmentFailure::NotFound),
        ObjectReply::ReadFailed(message) => Some(
            AttachmentFailure::Io(with_context("r2 read"@, message@)),
        ),
    }
}

/// Why an access failed, in the given context; `None` if it did not.
pub open spec fn access_failure(outcome: BucketOutcome, context: Seq<char>) -> Option<
    AttachmentFailure,
> {
    match outcome {
        BucketOutcome::Done => None,
        BucketOutcome::NoBinding(message) => Some(
            AttachmentFailure::Io(with_context("r2 binding"@, message@)),
        ),
        BucketOutcome::Failed(message) => Some(
            AttachmentFailure::Io(with_context(context, message@)),
        ),
    }
}

/// Attachment storage in the bucket of a binding.
#[derive(Debug)]
pub struct R2AttachmentStore {
    pub binding: String,
}

impl R2AttachmentStore {
    /// The store on the bucket of the given binding.
    pub fn new(binding: String) -> (store: R2AttachmentStore)
        ensures
            store.binding == binding,
    {
        R2AttachmentStore { binding }
    }

    /// The bytes of a blob that was read for delivery, or what is reported.
    pub fn load_bytes(&self, key: &str, reply: ObjectReply) -> (loaded: Result<Vec<u8>, String>)
        ensures
            match load_failure(key@, reply) {
                Some(message) => loaded matches Err(error) && error@ == message,
                None => loaded matches Ok(bytes) && reply == ObjectReply::Bytes(bytes),
            },
            loaded is Ok <==> reply is Bytes,
            loaded matches Ok(bytes) ==> reply == ObjectReply::Bytes(bytes),
    {
        match reply {
            ObjectReply::Bytes(bytes) => Ok(bytes),
            ObjectReply::NoBinding(message) => Err(message),
            ObjectReply::GetFailed(message) => Err(
                contextual("r2 get ".to_owned().concat(key).as_str(), message.as_str()),
            ),
            ObjectReply::Missing => Err("attachment blob not found: ".to_owned().concat(key)),
            ObjectReply::NoBody => Err(
                "attachment blob ".to_owned().concat(key).concat(" has no body"),
            ),
            ObjectReply::ReadFailed(message) => Err(
                contextual("reading attachment ".to_owned().concat(key).as_str(), message.as_str()),
            ),
        }
    }

    /// Starts a put: the bytes that were read, under the key of the drawn bits, or
    /// the failure to read them.
    pub fn put_under(&self, drawn: u128, read: Result<Vec<u8>, String>) -> (pending: Result<
        PendingPut,
        AttachmentStoreError,
    >)
        ensures
            match read {
                Ok(bytes) => pending matches Ok(put) && put.bytes == bytes && put.size_bytes
                    == bytes@.len() && put.key@ == uuid_text(drawn),
                Err(message) => pending matches Err(error) && error@ == AttachmentFailure::Io(
                    with_context("reading attachment"@, message@),
                ),
            },
    {
        match read {
            Ok(bytes) => {
                let size_bytes: u64 = bytes.len() as u64;
                Ok(PendingPut { key: format_uuid(drawn), bytes, size_bytes })
            },
            Err(message) => Err(io("reading attachment", message.as_str())),
        }
    }

    /// Starts a put: the bytes that were read, under a fresh random key, or the
    /// failure to read them.
    pub fn put(&self, read: Result<Vec<u8>, String>) -> (pending: Result<
        PendingPut,
        AttachmentStoreError,
    >)
        ensures
            match read {
                Ok(bytes) => pending matches Ok(put) && put.bytes == bytes && put.size_bytes
                    == bytes@.len() && is_blob_key(put.key@),
                Err(message) => pending matches Err(error) && error@ == AttachmentFailure::Io(
                    with_context("reading attachment"@, message@),
                ),
            },
    {
        self.put_under(new_v4(), read)
    }

    /// The key under which the bytes of a blob are read and removed.
    pub fn object_key(&self, blob: &BlobRef) -> (key: String)
        ensures
            key == blob.key,
    {
        blob.key.clone()
    }

    /// Ends a put of `size_bytes` bytes under `key` by what came of writing them.
    pub fn put_written(&self, key: String, size_bytes: u64, outcome: BucketOutcome) -> (stored:
        Result<PutResult, AttachmentStoreError>)
        ensures
            match access_failure(outcome, "r2 put"@) {
                Some(failure) => stored matches Err(error) && error@ == failure,
                None => stored matches Ok(result) && result.blob.backend@ == BACKEND@
                    && result.blob.key == key && result.size_bytes == size_bytes,
            },
            stored is Ok <==> outcome is Done,
            stored matches Ok(result) ==> result.blob.backend@ == "r2"@ && result.blob.key == key
                && result.size_bytes == size_bytes,
    {
        match outcome {
            BucketOutcome::Done => Ok(
                PutResult { blob: BlobRef { backend: BACKEND.to_owned(), key }, size_bytes },
            ),
            BucketOutcome::NoBinding(message) => Err(io("r2 binding", message.as_str())),
            BucketOutcome::Failed(message) => Err(io("r2 put", message.as_str())),
        }
    }

    /// The bytes of a blob that was read.
    pub fn get(&self, reply: ObjectReply) -> (got: Result<Vec<u8>, AttachmentStoreError>)
        ensures
            match get_failure(reply) {
                Some(failure) => got matches Err(error) && error@ == failure,
                None => got matches Ok(bytes) && reply == ObjectReply::Bytes(bytes),
            },
            got is Ok <==> reply is Bytes,
            got matches Ok(bytes) ==> reply == ObjectReply::Bytes(bytes),
            got matches Err(AttachmentStoreError::NotFound) <==> reply is Missing || reply
                is NoBody,
    {
        match reply {
            ObjectReply::Bytes(bytes) => Ok(bytes),
            ObjectReply::NoBinding(message) => Err(io("r2 binding", message.as_str())),
            ObjectReply::GetFailed(message) => Err(io("r2 get", message.as_str())),
            ObjectReply::Missing => Err(AttachmentStoreError::NotFound),
            ObjectReply::NoBody => Err(AttachmentStoreError::NotFound),
            ObjectReply::ReadFailed(message) => Err(io("r2 read", message.as_str())),
        }
    }

    /// Ends the removal of a blob.
    pub fn delete(&self, outcome: BucketOutcome) -> (deleted: Result<(), AttachmentStoreError>)
        ensures
            match access_failure(outcome, "r2 delete"@) {
                Some(failure) => deleted matches Err(error) && error@ == failure,
                None => deleted is Ok,
            },
            deleted is Ok <==> outcome is Done,
    {
        match outcome {
            BucketOutcome::Done => Ok(()),
            BucketOutcome::NoBinding(message) => Err(io("r2 binding", message.as_str())),
            BucketOutcome::Failed(message) => Err(io("r2 delete", message.as_str())),
        }
    }
}

/// The content of a bucket: the bytes of its objects by key.
#[verifier::ext_equal]
pub struct Bucket {
    pub objects: Map<Seq<char>, Seq<u8>>,
}

impl Bucket {
    /// The bucket after bytes were written under a key.
    pub open spec fn after_put(self, key: Seq<char>, bytes: Seq<u8>) -> Bucket {
        Bucket { objects: self.objects.insert(key, bytes) }
    }

    /// The bucket after the object under a key was removed.
    pub open spec fn after_delete(self, key: Seq<char>) -> Bucket {
        Bucket { objects: self.objects.remove(key) }
    }

    /// Whether a bucket that does not fail answers a read with the given reply.
    pub open spec fn gives(self, key: Seq<char>, reply: ObjectReply) -> bool {
        if self.objects.contains_key(key) {
            reply matches ObjectReply::Bytes(bytes) && bytes@ == self.objects[key]
        } else {
            reply is Missing
        }
    }
}

/// A blob reads back as the bytes that were put, and keeps doing so while other
/// blobs come and go.
pub proof fn law_blob_reads_back(
    bucket: Bucket,
    put: PendingPut,
    other: Seq<char>,
    other_bytes: Seq<u8>,
    reply: ObjectReply,
)
    requires
        other != put.key@,
        bucket.after_put(put.key@, put.bytes@).after_put(other, other_bytes).gives(put.key@, reply)
            || bucket.after_put(put.key@, put.bytes@).after_delete(other).gives(put.key@, reply),
    ensures
        get_failure(reply) is None,
        load_failure(put.key@, reply) is None,
        reply matches ObjectReply::Bytes(bytes) && bytes@ == put.bytes@,
{
}

/// A blob that was removed is not found.
pub proof fn law_removed_blob_is_not_found(bucket: Bucket, key: Seq<char>, reply: ObjectReply)
    requires
        bucket.after_delete(key).gives(key, reply),
    ensures
        get_failure(reply) == Some(AttachmentFailure::NotFound),
        load_failure(key, reply) == Some("attachment blob not found: "@ + key),
{
}

/// A blob is got exactly where bytes came back; where there is no object, or one
/// without a body, it is not found, and every other failure is reported with the
/// step that failed.
pub proof fn law_get_fails_by_the_step_that_failed(reply: ObjectReply)
    ensures
        get_failure(reply) is None <==> reply is Bytes,
        get_failure(reply) == Some(AttachmentFailure::NotFound) <==> reply is Missing || reply
            is NoBody,
        reply matches ObjectReply::NoBinding(message) ==> get_failure(reply) == Some(
            AttachmentFailure::Io("r2 binding"@ + ": "@ + message@),
        ),
        reply matches ObjectReply::GetFailed(message) ==> get_failure(reply) == Some(
            AttachmentFailure::Io("r2 get"@ + ": "@ + message@),
        ),
        reply matches ObjectReply::ReadFailed(message) ==> get_failure(reply) == Some(
            AttachmentFailure::Io("r2 read"@ + ": "@ + message@),
        ),
{
}

/// A blob is loaded exactly where bytes came back; otherwise the report names the
/// key, but where the bucket is not bound.
pub proof fn law_load_names_the_key_that_failed(key: Seq<char>, reply: ObjectReply)
    ensures
        load_failure(key, reply) is None <==> reply is Bytes,
        reply matches ObjectReply::NoBinding(message) ==> load_failure(key, reply) == Some(
            message@,
        ),
        reply matches ObjectReply::GetFailed(message) ==> load_failure(key, reply) == Some(
            "r2 get "@ + key + ": "@ + message@,
        ),
        reply is Missing ==> load_failure(key, reply) == Some("attachment blob not found: "@ + key),
        reply is NoBody ==> load_failure(key, reply) == Some(
            "attachment blob "@ + key + " has no body"@,
        ),
        reply matches ObjectReply::ReadFailed(message) ==> load_failure(key, reply) == Some(
            "reading attachment "@ + key + ": "@ + message@,
        ),
{
}

/// A write or a removal succeeds exactly where the bucket did it; otherwise it is
/// reported with the step that failed.
pub proof fn law_access_fails_by_the_step_that_failed(outcome: BucketOutcome, context: Seq<char>)
    ensures
        access_failure(outcome, context) is None <==> outcome is Done,
        outcome matches BucketOutcome::NoBinding(message) ==> access_failure(outcome, context)
            == Some(AttachmentFailure::Io("r2 binding"@ + ": "@ + message@)),
        outcome matches BucketOutcome::Failed(message) ==> access_failure(outcome, context) == Some(
            AttachmentFailure::Io(context + ": "@ + message@),
        ),
{
}

/// Blobs of this store are kept under the name `r2`, and an error is the failure it
/// is made of.
pub proof fn law_backend_and_errors_are_named(source: String)
    ensures
        BACKEND@ == "r2"@,
        AttachmentStoreError::NotFound@ == AttachmentFailure::NotFound,
        (AttachmentStoreError::Io { source })@ == AttachmentFailure::Io(source@),
{
}

/// The key of a blob is the text of a UUID with version four and the RFC variant.
pub proof fn law_blob_keys_are_random_identifiers(key: Seq<char>)
    ensures
        is_blob_key(key) <==> exists|bits: u128|
            (#[trigger] uuid_text(bits)) == key && (bits >> 76) & 0xf == 4 && (bits >> 62) & 0x3
                == 2,
{
    if is_blob_key(key) {
        let bits = choose|bits: u128| #[trigger]
            uuid_version(bits) == 4 && uuid_variant(bits) == 2 && key == uuid_text(bits);
        assert(uuid_text(bits) == key);
    }
    if exists|bits: u128|
        (#[trigger] uuid_text(bits)) == key && (bits >> 76) & 0xf == 4 && (bits >> 62) & 0x3 == 2 {
        let bits = choose|bits: u128|
            (#[trigger] uuid_text(bits)) == key && (bits >> 76) & 0xf == 4 && (bits >> 62) & 0x3
                == 2;
        assert(uuid_version(bits) == 4);
    }
}

} // verus!
