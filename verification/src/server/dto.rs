//! The inputs of the S3 operations that the proxy passes on, field by
//! field as the backend client takes them. Enumerated values are kept as
//! the strings that go over the wire.

use vstd::prelude::*;

verus! {

/// A point in time: seconds since the epoch and the nanoseconds within the
/// second.
#[derive(Debug, Clone, Copy, PartialEq, Eq, Structural)]
pub struct Timestamp {
    pub seconds: i64,
    pub subsecond_nanos: u32,
}

/// One object named in a batch delete.
#[derive(Debug, Clone)]
pub struct ObjectIdentifier {
    pub key: String,
    pub version_id: Option<String>,
    pub e_tag: Option<String>,
    pub last_modified_time: Option<Timestamp>,
    pub size: Option<i64>,
}

/// The objects of a batch delete.
#[derive(Debug, Clone)]
pub struct Delete {
    pub objects: Vec<ObjectIdentifier>,
    pub quiet: Option<bool>,
}

/// One uploaded part, as named when a multipart upload is completed.
#[derive(Debug, Clone)]
pub struct CompletedPart {
    pub e_tag: Option<String>,
    pub checksum_crc32: Option<String>,
    pub checksum_crc32_c: Option<String>,
    pub checksum_crc64_nvme: Option<String>,
    pub checksum_sha1: Option<String>,
    pub checksum_sha256: Option<String>,
    pub part_number: Option<i32>,
}

/// The parts that make up a completed multipart upload.
#[derive(Debug, Clone)]
pub struct CompletedMultipartUpload {
    pub parts: Option<Vec<CompletedPart>>,
}

/// `bucket` names the bucket `name`.
pub open spec fn names_bucket(bucket: Option<String>, name: Seq<char>) -> bool {
    bucket matches Some(b) && b@ == name
}

/// Two metadata maps hold the same entries in the same order.
pub open spec fn same_metadata(
    a: Option<Vec<(String, String)>>,
    b: Option<Vec<(String, String)>>,
) -> bool {
    match (a, b) {
        (Some(x), Some(y)) => x@ == y@,
        (None, None) => true,
        _ => false,
    }
}

/// No key stands twice in `entries`: they are the entries of a map.
pub open spec fn keys_are_unique(entries: Seq<(String, String)>) -> bool {
    forall|i: int, j: int|
        0 <= i < j < entries.len() ==> (#[trigger] entries[i]).0@ != (#[trigger] entries[j]).0@
}

/// The metadata of a request is a map: where there is any, no key stands
/// in it twice.
pub open spec fn is_a_map(metadata: Option<Vec<(String, String)>>) -> bool {
    match metadata {
        Some(entries) => keys_are_unique(entries@),
        None => true,
    }
}

/// Two batch deletes name the same objects in the same order, with the
/// same `quiet` flag.
pub open spec fn same_delete(a: Option<Delete>, b: Option<Delete>) -> bool {
    match (a, b) {
        (Some(x), Some(y)) => x.objects@ == y.objects@ && x.quiet == y.quiet,
        (None, None) => true,
        _ => false,
    }
}

/// A copy of an optional string.
pub fn copy_text(text: &Option<String>) -> (copy: Option<String>)
    ensures
        copy == *text,
{
    match text {
        Some(t) => Some(t.clone()),
        None => None,
    }
}

/// Whether no key stands twice in `entries`.
pub fn has_unique_keys(entries: &Vec<(String, String)>) -> (unique: bool)
    ensures
        unique == keys_are_unique(entries@),
{
    let mut j: usize = 0;
    while j < entries.len()
        invariant
            j <= entries.len(),
            keys_are_unique(entries@.take(j as int)),
        decreases entries.len() - j,
    {
        let mut i: usize = 0;
        while i < j
            invariant
                i <= j < entries.len(),
                forall|k: int| 0 <= k < i ==> (#[trigger] entries@[k]).0@ != entries@[j as int].0@,
            decreases j - i,
        {
            if entries[i].0 == entries[j].0 {
                return false;
            }
            i += 1;
        }
        j += 1;
    }
    proof {
        assert(entries@.take(j as int) == entries@);
    }
    true
}

/// Metadata with the same entries as a map is a map.
pub proof fn lemma_same_metadata_is_a_map(
    a: Option<Vec<(String, String)>>,
    b: Option<Vec<(String, String)>>,
)
    requires
        same_metadata(a, b),
        is_a_map(a),
    ensures
        is_a_map(b),
{
}

/// A copy of a metadata map.
pub fn copy_metadata(metadata: &Option<Vec<(String, String)>>) -> (copy: Option<
    Vec<(String, String)>,
>)
    ensures
        same_metadata(*metadata, copy),
        is_a_map(*metadata) ==> is_a_map(copy),
{
    match metadata {
        Some(entries) => {
            let mut copied: Vec<(String, String)> = Vec::new();
            let mut i: usize = 0;
            while i < entries.len()
                invariant
                    i <= entries.len(),
                    copied@ == entries@.take(i as int),
                decreases entries.len() - i,
            {
                copied.push((entries[i].0.clone(), entries[i].1.clone()));
                proof {
                    assert(entries@.take(i + 1) == entries@.take(i as int).push(entries@[i as int]));
                }
                i += 1;
            }
            proof {
                assert(entries@.take(i as int) == entries@);
            }
            Some(copied)
        },
        None => None,
    }
}

/// A copy of the objects of a batch delete.
pub fn copy_delete(delete: &Option<Delete>) -> (copy: Option<Delete>)
    ensures
        same_delete(*delete, copy),
{
    match delete {
        Some(d) => {
            let mut objects: Vec<ObjectIdentifier> = Vec::new();
            let mut i: usize = 0;
            while i < d.objects.len()
                invariant
                    i <= d.objects.len(),
                    objects@ == d.objects@.take(i as int),
                decreases d.objects.len() - i,
            {
                objects.push(
                    ObjectIdentifier {
                        key: d.objects[i].key.clone(),
                        version_id: copy_text(&d.objects[i].version_id),
                        e_tag: copy_text(&d.objects[i].e_tag),
                        last_modified_time: d.objects[i].last_modified_time,
                        size: d.objects[i].size,
                    },
                );
                proof {
                    assert(d.objects@.take(i + 1) == d.objects@.take(i as int).push(
                        d.objects@[i as int],
                    ));
                }
                i += 1;
            }
            proof {
                assert(d.objects@.take(i as int) == d.objects@);
            }
            Some(Delete { objects, quiet: d.quiet })
        },
        None => None,
    }
}

/// An object to store, with its body.
#[derive(Debug, Clone)]
pub struct PutObjectInput<B> {
    pub body: B,
    pub acl: Option<String>,
    pub bucket: Option<String>,
    pub cache_control: Option<String>,
    pub content_disposition: Option<String>,
    pub content_encoding: Option<String>,
    pub content_language: Option<String>,
    pub content_length: Option<i64>,
    pub content_md5: Option<String>,
    pub content_type: Option<String>,
    pub checksum_algorithm: Option<String>,
    pub checksum_crc32: Option<String>,
    pub checksum_crc32_c: Option<String>,
    pub checksum_crc64_nvme: Option<String>,
    pub checksum_sha1: Option<String>,
    pub checksum_sha256: Option<String>,
    pub expires: Option<Timestamp>,
    pub if_match: Option<String>,
    pub if_none_match: Option<String>,
    pub grant_full_control: Option<String>,
    pub grant_read: Option<String>,
    pub grant_read_acp: Option<String>,
    pub grant_write_acp: Option<String>,
    pub key: Option<String>,
    pub write_offset_bytes: Option<i64>,
    pub metadata: Option<Vec<(String, String)>>,
    pub server_side_encryption: Option<String>,
    pub storage_class: Option<String>,
    pub website_redirect_location: Option<String>,
    pub sse_customer_algorithm: Option<String>,
    pub sse_customer_key: Option<String>,
    pub sse_customer_key_md5: Option<String>,
    pub ssekms_key_id: Option<String>,
    pub ssekms_encryption_context: Option<String>,
    pub bucket_key_enabled: Option<bool>,
    pub request_payer: Option<String>,
    pub tagging: Option<String>,
    pub object_lock_mode: Option<String>,
    pub object_lock_retain_until_date: Option<Timestamp>,
    pub object_lock_legal_hold_status: Option<String>,
    pub expected_bucket_owner: Option<String>,
}

/// One part of a multipart upload, with its body.
#[derive(Debug, Clone)]
pub struct UploadPartInput<B> {
    pub body: B,
    pub bucket: Option<String>,
    pub content_length: Option<i64>,
    pub content_md5: Option<String>,
    pub checksum_algorithm: Option<String>,
    pub checksum_crc32: Option<String>,
    pub checksum_crc32_c: Option<String>,
    pub checksum_crc64_nvme: Option<String>,
    pub checksum_sha1: Option<String>,
    pub checksum_sha256: Option<String>,
    pub key: Option<String>,
    pub part_number: Option<i32>,
    pub upload_id: Option<String>,
    pub sse_customer_algorithm: Option<String>,
    pub sse_customer_key: Option<String>,
    pub sse_customer_key_md5: Option<String>,
    pub request_payer: Option<String>,
    pub expected_bucket_owner: Option<String>,
}

/// A request for an object.
#[derive(Debug, Clone)]
pub struct GetObjectInput {
    pub bucket: Option<String>,
    pub checksum_mode: Option<String>,
    pub expected_bucket_owner: Option<String>,
    pub if_match: Option<String>,
    pub if_modified_since: Option<Timestamp>,
    pub if_none_match: Option<String>,
    pub if_unmodified_since: Option<Timestamp>,
    pub key: Option<String>,
    pub part_number: Option<i32>,
    pub range: Option<String>,
    pub request_payer: Option<String>,
    pub response_cache_control: Option<String>,
    pub response_content_disposition: Option<String>,
    pub response_content_encoding: Option<String>,
    pub response_content_language: Option<String>,
    pub response_content_type: Option<String>,
    pub response_expires: Option<Timestamp>,
    pub sse_customer_algorithm: Option<String>,
    pub sse_customer_key: Option<String>,
    pub sse_customer_key_md5: Option<String>,
    pub version_id: Option<String>,
}

/// A request for the metadata of an object.
#[derive(Debug, Clone)]
pub struct HeadObjectInput {
    pub bucket: Option<String>,
    pub if_match: Option<String>,
    pub if_modified_since: Option<Timestamp>,
    pub if_none_match: Option<String>,
    pub if_unmodified_since: Option<Timestamp>,
    pub key: Option<String>,
    pub range: Option<String>,
    pub response_cache_control: Option<String>,
    pub response_content_disposition: Option<String>,
    pub response_content_encoding: Option<String>,
    pub response_content_language: Option<String>,
    pub response_content_type: Option<String>,
    pub response_expires: Option<Timestamp>,
    pub version_id: Option<String>,
    pub sse_customer_algorithm: Option<String>,
    pub sse_customer_key: Option<String>,
    pub sse_customer_key_md5: Option<String>,
    pub request_payer: Option<String>,
    pub part_number: Option<i32>,
    pub expected_bucket_owner: Option<String>,
    pub checksum_mode: Option<String>,
}

/// A request to delete one object.
#[derive(Debug, Clone)]
pub struct DeleteObjectInput {
    pub bucket: Option<String>,
    pub key: Option<String>,
    pub mfa: Option<String>,
    pub version_id: Option<String>,
    pub request_payer: Option<String>,
    pub bypass_governance_retention: Option<bool>,
    pub expected_bucket_owner: Option<String>,
    pub if_match: Option<String>,
    pub if_match_last_modified_time: Option<Timestamp>,
    pub if_match_size: Option<i64>,
}

/// A request to delete several objects at once.
#[derive(Debug, Clone)]
pub struct DeleteObjectsInput {
    pub bucket: Option<String>,
    pub delete: Option<Delete>,
    pub mfa: Option<String>,
    pub request_payer: Option<String>,
    pub bypass_governance_retention: Option<bool>,
    pub expected_bucket_owner: Option<String>,
    pub checksum_algorithm: Option<String>,
}

/// A request to start a multipart upload.
#[derive(Debug, Clone)]
pub struct CreateMultipartUploadInput {
    pub bucket: Option<String>,
    pub acl: Option<String>,
    pub cache_control: Option<String>,
    pub content_disposition: Option<String>,
    pub content_encoding: Option<String>,
    pub content_language: Option<String>,
    pub content_type: Option<String>,
    pub expires: Option<Timestamp>,
    pub grant_full_control: Option<String>,
    pub grant_read: Option<String>,
    pub grant_read_acp: Option<String>,
    pub grant_write_acp: Option<String>,
    pub key: Option<String>,
    pub metadata: Option<Vec<(String, String)>>,
    pub server_side_encryption: Option<String>,
    pub storage_class: Option<String>,
    pub website_redirect_location: Option<String>,
    pub sse_customer_algorithm: Option<String>,
    pub sse_customer_key: Option<String>,
    pub sse_customer_key_md5: Option<String>,
    pub ssekms_key_id: Option<String>,
    pub ssekms_encryption_context: Option<String>,
    pub bucket_key_enabled: Option<bool>,
    pub request_payer: Option<String>,
    pub tagging: Option<String>,
    pub object_lock_mode: Option<String>,
    pub object_lock_retain_until_date: Option<Timestamp>,
    pub object_lock_legal_hold_status: Option<String>,
    pub expected_bucket_owner: Option<String>,
    pub checksum_algorithm: Option<String>,
    pub checksum_type: Option<String>,
}

/// A request to complete a multipart upload.
#[derive(Debug, Clone)]
pub struct CompleteMultipartUploadInput {
    pub bucket: Option<String>,
    pub key: Option<String>,
    pub multipart_upload: Option<CompletedMultipartUpload>,
    pub upload_id: Option<String>,
    pub checksum_crc32: Option<String>,
    pub checksum_crc32_c: Option<String>,
    pub checksum_crc64_nvme: Option<String>,
    pub checksum_sha1: Option<String>,
    pub checksum_sha256: Option<String>,
    pub checksum_type: Option<String>,
    pub mpu_object_size: Option<i64>,
    pub request_payer: Option<String>,
    pub expected_bucket_owner: Option<String>,
    pub if_match: Option<String>,
    pub if_none_match: Option<String>,
    pub sse_customer_algorithm: Option<String>,
    pub sse_customer_key: Option<String>,
    pub sse_customer_key_md5: Option<String>,
}

/// A request to give up a multipart upload.
#[derive(Debug, Clone)]
pub struct AbortMultipartUploadInput {
    pub bucket: Option<String>,
    pub key: Option<String>,
    pub upload_id: Option<String>,
    pub request_payer: Option<String>,
    pub expected_bucket_owner: Option<String>,
    pub if_match_initiated_time: Option<Timestamp>,
}

impl<B> PutObjectInput<B> {
    /// The metadata of this upload is a map: no key stands in it twice.
    pub open spec fn wf(self) -> bool {
        is_a_map(self.metadata)
    }

    /// `other` carries the same fields as this upload, whatever the bodies are.
    pub open spec fn same_fields<C>(self, other: PutObjectInput<C>) -> bool {
        &&& self.acl == other.acl
        &&& self.bucket == other.bucket
        &&& self.cache_control == other.cache_control
        &&& self.content_disposition == other.content_disposition
        &&& self.content_encoding == other.content_encoding
        &&& self.content_language == other.content_language
        &&& self.content_length == other.content_length
        &&& self.content_md5 == other.content_md5
        &&& self.content_type == other.content_type
        &&& self.checksum_algorithm == other.checksum_algorithm
        &&& self.checksum_crc32 == other.checksum_crc32
        &&& self.checksum_crc32_c == other.checksum_crc32_c
        &&& self.checksum_crc64_nvme == other.checksum_crc64_nvme
        &&& self.checksum_sha1 == other.checksum_sha1
        &&& self.checksum_sha256 == other.checksum_sha256
        &&& self.expires == other.expires
        &&& self.if_match == other.if_match
        &&& self.if_none_match == other.if_none_match
        &&& self.grant_full_control == other.grant_full_control
        &&& self.grant_read == other.grant_read
        &&& self.grant_read_acp == other.grant_read_acp
        &&& self.grant_write_acp == other.grant_write_acp
        &&& self.key == other.key
        &&& self.write_offset_bytes == other.write_offset_bytes
        &&& same_metadata(self.metadata, other.metadata)
        &&& self.server_side_encryption == other.server_side_encryption
        &&& self.storage_class == other.storage_class
        &&& self.website_redirect_location == other.website_redirect_location
        &&& self.sse_customer_algorithm == other.sse_customer_algorithm
        &&& self.sse_customer_key == other.sse_customer_key
        &&& self.sse_customer_key_md5 == other.sse_customer_key_md5
        &&& self.ssekms_key_id == other.ssekms_key_id
        &&& self.ssekms_encryption_context == other.ssekms_encryption_context
        &&& self.bucket_key_enabled == other.bucket_key_enabled
        &&& self.request_payer == other.request_payer
        &&& self.tagging == other.tagging
        &&& self.object_lock_mode == other.object_lock_mode
        &&& self.object_lock_retain_until_date == other.object_lock_retain_until_date
        &&& self.object_lock_legal_hold_status == other.object_lock_legal_hold_status
        &&& self.expected_bucket_owner == other.expected_bucket_owner
    }

    /// A copy of this upload around another body: every field as it is here.
    pub fn with_body<C>(&self, body: C) -> (copy: PutObjectInput<C>)
        ensures
            copy.body == body,
            self.same_fields(copy),
            self.wf() ==> copy.wf(),
    {
        PutObjectInput {
            body,
            acl: copy_text(&self.acl),
            bucket: copy_text(&self.bucket),
            cache_control: copy_text(&self.cache_control),
            content_disposition: copy_text(&self.content_disposition),
            content_encoding: copy_text(&self.content_encoding),
            content_language: copy_text(&self.content_language),
            content_length: self.content_length,
            content_md5: copy_text(&self.content_md5),
            content_type: copy_text(&self.content_type),
            checksum_algorithm: copy_text(&self.checksum_algorithm),
            checksum_crc32: copy_text(&self.checksum_crc32),
            checksum_crc32_c: copy_text(&self.checksum_crc32_c),
            checksum_crc64_nvme: copy_text(&self.checksum_crc64_nvme),
            checksum_sha1: copy_text(&self.checksum_sha1),
            checksum_sha256: copy_text(&self.checksum_sha256),
            expires: self.expires,
            if_match: copy_text(&self.if_match),
            if_none_match: copy_text(&self.if_none_match),
            grant_full_control: copy_text(&self.grant_full_control),
            grant_read: copy_text(&self.grant_read),
            grant_read_acp: copy_text(&self.grant_read_acp),
            grant_write_acp: copy_text(&self.grant_write_acp),
            key: copy_text(&self.key),
            write_offset_bytes: self.write_offset_bytes,
            metadata: copy_metadata(&self.metadata),
            server_side_encryption: copy_text(&self.server_side_encryption),
            storage_class: copy_text(&self.storage_class),
            website_redirect_location: copy_text(&self.website_redirect_location),
            sse_customer_algorithm: copy_text(&self.sse_customer_algorithm),
            sse_customer_key: copy_text(&self.sse_customer_key),
            sse_customer_key_md5: copy_text(&self.sse_customer_key_md5),
            ssekms_key_id: copy_text(&self.ssekms_key_id),
            ssekms_encryption_context: copy_text(&self.ssekms_encryption_context),
            bucket_key_enabled: self.bucket_key_enabled,
            request_payer: copy_text(&self.request_payer),
            tagging: copy_text(&self.tagging),
            object_lock_mode: copy_text(&self.object_lock_mode),
            object_lock_retain_until_date: self.object_lock_retain_until_date,
            object_lock_legal_hold_status: copy_text(&self.object_lock_legal_hold_status),
            expected_bucket_owner: copy_text(&self.expected_bucket_owner),
        }
    }

    /// Takes the body out of this upload and puts `body` in its place; the
    /// fields stay as they are.
    pub fn replace_body<C>(self, body: C) -> (parts: (B, PutObjectInput<C>))
        ensures
            parts.0 == self.body,
            parts.1.body == body,
            self.same_fields(parts.1),
            self.wf() ==> parts.1.wf(),
    {
        (
            self.body,
            PutObjectInput {
                body,
                acl: self.acl,
                bucket: self.bucket,
                cache_control: self.cache_control,
                content_disposition: self.content_disposition,
                content_encoding: self.content_encoding,
                content_language: self.content_language,
                content_length: self.content_length,
                content_md5: self.content_md5,
                content_type: self.content_type,
                checksum_algorithm: self.checksum_algorithm,
                checksum_crc32: self.checksum_crc32,
                checksum_crc32_c: self.checksum_crc32_c,
                checksum_crc64_nvme: self.checksum_crc64_nvme,
                checksum_sha1: self.checksum_sha1,
                checksum_sha256: self.checksum_sha256,
                expires: self.expires,
                if_match: self.if_match,
                if_none_match: self.if_none_match,
                grant_full_control: self.grant_full_control,
                grant_read: self.grant_read,
                grant_read_acp: self.grant_read_acp,
                grant_write_acp: self.grant_write_acp,
                key: self.key,
                write_offset_bytes: self.write_offset_bytes,
                metadata: self.metadata,
                server_side_encryption: self.server_side_encryption,
                storage_class: self.storage_class,
                website_redirect_location: self.website_redirect_location,
                sse_customer_algorithm: self.sse_customer_algorithm,
                sse_customer_key: self.sse_customer_key,
                sse_customer_key_md5: self.sse_customer_key_md5,
                ssekms_key_id: self.ssekms_key_id,
                ssekms_encryption_context: self.ssekms_encryption_context,
                bucket_key_enabled: self.bucket_key_enabled,
                request_payer: self.request_payer,
                tagging: self.tagging,
                object_lock_mode: self.object_lock_mode,
                object_lock_retain_until_date: self.object_lock_retain_until_date,
                object_lock_legal_hold_status: self.object_lock_legal_hold_status,
                expected_bucket_owner: self.expected_bucket_owner,
            },
        )
    }

    /// `sent` is this upload as it goes to the bucket `bucket`: it names that
    /// bucket and is otherwise this one, field for field.
    pub open spec fn goes_as(self, bucket: Seq<char>, sent: Self) -> bool {
        &&& names_bucket(sent.bucket, bucket)
        &&& sent == (PutObjectInput { bucket: sent.bucket, ..self })
    }

    /// This upload as it goes to a remote: in the remote's own bucket,
    /// with every other field untouched.
    pub fn for_bucket(self, bucket: &String) -> (sent: Self)
        ensures
            self.goes_as(bucket@, sent),
            self.wf() ==> sent.wf(),
    {
        PutObjectInput { bucket: Some(bucket.clone()), ..self }
    }
}

impl<B> UploadPartInput<B> {
    /// `other` carries the same fields as this part, whatever the bodies are.
    pub open spec fn same_fields<C>(self, other: UploadPartInput<C>) -> bool {
        &&& self.bucket == other.bucket
        &&& self.content_length == other.content_length
        &&& self.content_md5 == other.content_md5
        &&& self.checksum_algorithm == other.checksum_algorithm
        &&& self.checksum_crc32 == other.checksum_crc32
        &&& self.checksum_crc32_c == other.checksum_crc32_c
        &&& self.checksum_crc64_nvme == other.checksum_crc64_nvme
        &&& self.checksum_sha1 == other.checksum_sha1
        &&& self.checksum_sha256 == other.checksum_sha256
        &&& self.key == other.key
        &&& self.part_number == other.part_number
        &&& self.upload_id == other.upload_id
        &&& self.sse_customer_algorithm == other.sse_customer_algorithm
        &&& self.sse_customer_key == other.sse_customer_key
        &&& self.sse_customer_key_md5 == other.sse_customer_key_md5
        &&& self.request_payer == other.request_payer
        &&& self.expected_bucket_owner == other.expected_bucket_owner
    }

    /// A copy of this part around another body: every field as it is here.
    pub fn with_body<C>(&self, body: C) -> (copy: UploadPartInput<C>)
        ensures
            copy.body == body,
            self.same_fields(copy),
    {
        UploadPartInput {
            body,
            bucket: copy_text(&self.bucket),
            content_length: self.content_length,
            content_md5: copy_text(&self.content_md5),
            checksum_algorithm: copy_text(&self.checksum_algorithm),
            checksum_crc32: copy_text(&self.checksum_crc32),
            checksum_crc32_c: copy_text(&self.checksum_crc32_c),
            checksum_crc64_nvme: copy_text(&self.checksum_crc64_nvme),
            checksum_sha1: copy_text(&self.checksum_sha1),
            checksum_sha256: copy_text(&self.checksum_sha256),
            key: copy_text(&self.key),
            part_number: self.part_number,
            upload_id: copy_text(&self.upload_id),
            sse_customer_algorithm: copy_text(&self.sse_customer_algorithm),
            sse_customer_key: copy_text(&self.sse_customer_key),
            sse_customer_key_md5: copy_text(&self.sse_customer_key_md5),
            request_payer: copy_text(&self.request_payer),
            expected_bucket_owner: copy_text(&self.expected_bucket_owner),
        }
    }

    /// Takes the body out of this part and puts `body` in its place; the
    /// fields stay as they are.
    pub fn replace_body<C>(self, body: C) -> (parts: (B, UploadPartInput<C>))
        ensures
            parts.0 == self.body,
            parts.1.body == body,
            self.same_fields(parts.1),
    {
        (
            self.body,
            UploadPartInput {
                body,
                bucket: self.bucket,
                content_length: self.content_length,
                content_md5: self.content_md5,
                checksum_algorithm: self.checksum_algorithm,
                checksum_crc32: self.checksum_crc32,
                checksum_crc32_c: self.checksum_crc32_c,
                checksum_crc64_nvme: self.checksum_crc64_nvme,
                checksum_sha1: self.checksum_sha1,
                checksum_sha256: self.checksum_sha256,
                key: self.key,
                part_number: self.part_number,
                upload_id: self.upload_id,
                sse_customer_algorithm: self.sse_customer_algorithm,
                sse_customer_key: self.sse_customer_key,
                sse_customer_key_md5: self.sse_customer_key_md5,
                request_payer: self.request_payer,
                expected_bucket_owner: self.expected_bucket_owner,
            },
        )
    }

    /// `sent` is this part as it goes to the bucket `bucket`: it names that
    /// bucket and is otherwise this one, field for field.
    pub open spec fn goes_as(self, bucket: Seq<char>, sent: Self) -> bool {
        &&& names_bucket(sent.bucket, bucket)
        &&& sent == (UploadPartInput { bucket: sent.bucket, ..self })
    }

    /// This part as it goes to a remote: in the remote's own bucket,
    /// with every other field untouched.
    pub fn for_bucket(self, bucket: &String) -> (sent: Self)
        ensures
            self.goes_as(bucket@, sent),
    {
        UploadPartInput { bucket: Some(bucket.clone()), ..self }
    }
}

impl GetObjectInput {
    /// A copy of this request, for one more remote.
    pub fn duplicate(&self) -> (copy: Self)
        ensures
            copy == *self,
    {
        GetObjectInput {
            bucket: copy_text(&self.bucket),
            checksum_mode: copy_text(&self.checksum_mode),
            expected_bucket_owner: copy_text(&self.expected_bucket_owner),
            if_match: copy_text(&self.if_match),
            if_modified_since: self.if_modified_since,
            if_none_match: copy_text(&self.if_none_match),
            if_unmodified_since: self.if_unmodified_since,
            key: copy_text(&self.key),
            part_number: self.part_number,
            range: copy_text(&self.range),
            request_payer: copy_text(&self.request_payer),
            response_cache_control: copy_text(&self.response_cache_control),
            response_content_disposition: copy_text(&self.response_content_disposition),
            response_content_encoding: copy_text(&self.response_content_encoding),
            response_content_language: copy_text(&self.response_content_language),
            response_content_type: copy_text(&self.response_content_type),
            response_expires: self.response_expires,
            sse_customer_algorithm: copy_text(&self.sse_customer_algorithm),
            sse_customer_key: copy_text(&self.sse_customer_key),
            sse_customer_key_md5: copy_text(&self.sse_customer_key_md5),
            version_id: copy_text(&self.version_id),
        }
    }

    /// `sent` is this request as it goes to the bucket `bucket`: it names that
    /// bucket and is otherwise this one, field for field.
    pub open spec fn goes_as(self, bucket: Seq<char>, sent: Self) -> bool {
        &&& names_bucket(sent.bucket, bucket)
        &&& sent == (GetObjectInput { bucket: sent.bucket, ..self })
    }

    /// This request as it goes to a remote: in the remote's own bucket,
    /// with every other field untouched.
    pub fn for_bucket(self, bucket: &String) -> (sent: Self)
        ensures
            self.goes_as(bucket@, sent),
    {
        GetObjectInput { bucket: Some(bucket.clone()), ..self }
    }
}

impl HeadObjectInput {
    /// A copy of this request, for one more remote.
    pub fn duplicate(&self) -> (copy: Self)
        ensures
            copy == *self,
    {
        HeadObjectInput {
            bucket: copy_text(&self.bucket),
            if_match: copy_text(&self.if_match),
            if_modified_since: self.if_modified_since,
            if_none_match: copy_text(&self.if_none_match),
            if_unmodified_since: self.if_unmodified_since,
            key: copy_text(&self.key),
            range: copy_text(&self.range),
            response_cache_control: copy_text(&self.response_cache_control),
            response_content_disposition: copy_text(&self.response_content_disposition),
            response_content_encoding: copy_text(&self.response_content_encoding),
            response_content_language: copy_text(&self.response_content_language),
            response_content_type: copy_text(&self.response_content_type),
            response_expires: self.response_expires,
            version_id: copy_text(&self.version_id),
            sse_customer_algorithm: copy_text(&self.sse_customer_algorithm),
            sse_customer_key: copy_text(&self.sse_customer_key),
            sse_customer_key_md5: copy_text(&self.sse_customer_key_md5),
            request_payer: copy_text(&self.request_payer),
            part_number: self.part_number,
            expected_bucket_owner: copy_text(&self.expected_bucket_owner),
            checksum_mode: copy_text(&self.checksum_mode),
        }
    }

    /// `sent` is this request as it goes to the bucket `bucket`: it names that
    /// bucket and is otherwise this one, field for field.
    pub open spec fn goes_as(self, bucket: Seq<char>, sent: Self) -> bool {
        &&& names_bucket(sent.bucket, bucket)
        &&& sent == (HeadObjectInput { bucket: sent.bucket, ..self })
    }

    /// This request as it goes to a remote: in the remote's own bucket,
    /// with every other field untouched.
    pub fn for_bucket(self, bucket: &String) -> (sent: Self)
        ensures
            self.goes_as(bucket@, sent),
    {
        HeadObjectInput { bucket: Some(bucket.clone()), ..self }
    }
}

impl DeleteObjectInput {
    /// A copy of this request, for one more remote.
    pub fn duplicate(&self) -> (copy: Self)
        ensures
            copy == *self,
    {
        DeleteObjectInput {
            bucket: copy_text(&self.bucket),
            key: copy_text(&self.key),
            mfa: copy_text(&self.mfa),
            version_id: copy_text(&self.version_id),
            request_payer: copy_text(&self.request_payer),
            bypass_governance_retention: self.bypass_governance_retention,
            expected_bucket_owner: copy_text(&self.expected_bucket_owner),
            if_match: copy_text(&self.if_match),
            if_match_last_modified_time: self.if_match_last_modified_time,
            if_match_size: self.if_match_size,
        }
    }

    /// `sent` is this request as it goes to the bucket `bucket`: it names that
    /// bucket and is otherwise this one, field for field.
    pub open spec fn goes_as(self, bucket: Seq<char>, sent: Self) -> bool {
        &&& names_bucket(sent.bucket, bucket)
        &&& sent == (DeleteObjectInput { bucket: sent.bucket, ..self })
    }

    /// This request as it goes to a remote: in the remote's own bucket,
    /// with every other field untouched.
    pub fn for_bucket(self, bucket: &String) -> (sent: Self)
        ensures
            self.goes_as(bucket@, sent),
    {
        DeleteObjectInput { bucket: Some(bucket.clone()), ..self }
    }
}

impl DeleteObjectsInput {
    /// `other` carries the same fields as this request.
    pub open spec fn same_fields(self, other: Self) -> bool {
        &&& self.bucket == other.bucket
        &&& same_delete(self.delete, other.delete)
        &&& self.mfa == other.mfa
        &&& self.request_payer == other.request_payer
        &&& self.bypass_governance_retention == other.bypass_governance_retention
        &&& self.expected_bucket_owner == other.expected_bucket_owner
        &&& self.checksum_algorithm == other.checksum_algorithm
    }

    /// A copy of this request, for one more remote.
    pub fn duplicate(&self) -> (copy: Self)
        ensures
            self.same_fields(copy),
    {
        DeleteObjectsInput {
            bucket: copy_text(&self.bucket),
            delete: copy_delete(&self.delete),
            mfa: copy_text(&self.mfa),
            request_payer: copy_text(&self.request_payer),
            bypass_governance_retention: self.bypass_governance_retention,
            expected_bucket_owner: copy_text(&self.expected_bucket_owner),
            checksum_algorithm: copy_text(&self.checksum_algorithm),
        }
    }

    /// `sent` is this request as it goes to the bucket `bucket`: it names that
    /// bucket and is otherwise this one, field for field.
    pub open spec fn goes_as(self, bucket: Seq<char>, sent: Self) -> bool {
        &&& names_bucket(sent.bucket, bucket)
        &&& sent == (DeleteObjectsInput { bucket: sent.bucket, ..self })
    }

    /// This request as it goes to a remote: in the remote's own bucket,
    /// with every other field untouched.
    pub fn for_bucket(self, bucket: &String) -> (sent: Self)
        ensures
            self.goes_as(bucket@, sent),
    {
        DeleteObjectsInput { bucket: Some(bucket.clone()), ..self }
    }
}

impl CreateMultipartUploadInput {
    /// The metadata of this request is a map: no key stands in it twice.
    pub open spec fn wf(self) -> bool {
        is_a_map(self.metadata)
    }

    /// `sent` is this request as it goes to the bucket `bucket`: it names that
    /// bucket and is otherwise this one, field for field.
    pub open spec fn goes_as(self, bucket: Seq<char>, sent: Self) -> bool {
        &&& names_bucket(sent.bucket, bucket)
        &&& sent == (CreateMultipartUploadInput { bucket: sent.bucket, ..self })
    }

    /// This request as it goes to a remote: in the remote's own bucket,
    /// with every other field untouched.
    pub fn for_bucket(self, bucket: &String) -> (sent: Self)
        ensures
            self.goes_as(bucket@, sent),
            self.wf() ==> sent.wf(),
    {
        CreateMultipartUploadInput { bucket: Some(bucket.clone()), ..self }
    }
}

impl CompleteMultipartUploadInput {
    /// `sent` is this request as it goes to the bucket `bucket`: it names that
    /// bucket and is otherwise this one, field for field.
    pub open spec fn goes_as(self, bucket: Seq<char>, sent: Self) -> bool {
        &&& names_bucket(sent.bucket, bucket)
        &&& sent == (CompleteMultipartUploadInput { bucket: sent.bucket, ..self })
    }

    /// This request as it goes to a remote: in the remote's own bucket,
    /// with every other field untouched.
    pub fn for_bucket(self, bucket: &String) -> (sent: Self)
        ensures
            self.goes_as(bucket@, sent),
    {
        CompleteMultipartUploadInput { bucket: Some(bucket.clone()), ..self }
    }
}

impl AbortMultipartUploadInput {
    /// `sent` is this request as it goes to the bucket `bucket`: it names that
    /// bucket and is otherwise this one, field for field.
    pub open spec fn goes_as(self, bucket: Seq<char>, sent: Self) -> bool {
        &&& names_bucket(sent.bucket, bucket)
        &&& sent == (AbortMultipartUploadInput { bucket: sent.bucket, ..self })
    }

    /// This request as it goes to a remote: in the remote's own bucket,
    /// with every other field untouched.
    pub fn for_bucket(self, bucket: &String) -> (sent: Self)
        ensures
            self.goes_as(bucket@, sent),
    {
        AbortMultipartUploadInput { bucket: Some(bucket.clone()), ..self }
    }
}

} // verus!
