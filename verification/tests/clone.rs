use s3_reproxy::server::clone::{PutObjectInputMultiplier, UploadPartInputMultiplier};
use s3_reproxy::server::dto::{
    copy_delete, copy_metadata, copy_text, has_unique_keys, Delete, DeleteObjectsInput,
    ObjectIdentifier, PutObjectInput, Timestamp, UploadPartInput,
};
use s3_reproxy::server::stream::Subscription;

fn put(body: &'static str) -> PutObjectInput<&'static str> {
    PutObjectInput {
        body,
        acl: Some("private".to_string()),
        bucket: Some("front".to_string()),
        cache_control: Some("no-cache".to_string()),
        content_disposition: Some("inline".to_string()),
        content_encoding: Some("gzip".to_string()),
        content_language: Some("en".to_string()),
        content_length: Some(5),
        content_md5: Some("md5".to_string()),
        content_type: Some("text/plain".to_string()),
        checksum_algorithm: Some("SHA256".to_string()),
        checksum_crc32: Some("c32".to_string()),
        checksum_crc32_c: Some("c32c".to_string()),
        checksum_crc64_nvme: Some("c64".to_string()),
        checksum_sha1: Some("s1".to_string()),
        checksum_sha256: Some("s256".to_string()),
        expires: Some(Timestamp { seconds: 1, subsecond_nanos: 2 }),
        if_match: Some("\"old\"".to_string()),
        if_none_match: Some("*".to_string()),
        grant_full_control: Some("gfc".to_string()),
        grant_read: Some("gr".to_string()),
        grant_read_acp: Some("gra".to_string()),
        grant_write_acp: Some("gwa".to_string()),
        key: Some("a/b".to_string()),
        write_offset_bytes: Some(0),
        metadata: Some(vec![
            ("owner".to_string(), "me".to_string()),
            ("kind".to_string(), "test".to_string()),
        ]),
        server_side_encryption: Some("AES256".to_string()),
        storage_class: Some("STANDARD".to_string()),
        website_redirect_location: Some("/else".to_string()),
        sse_customer_algorithm: Some("AES256".to_string()),
        sse_customer_key: Some("key".to_string()),
        sse_customer_key_md5: Some("keymd5".to_string()),
        ssekms_key_id: Some("kms".to_string()),
        ssekms_encryption_context: Some("ctx".to_string()),
        bucket_key_enabled: Some(true),
        request_payer: Some("requester".to_string()),
        tagging: Some("a=b".to_string()),
        object_lock_mode: Some("GOVERNANCE".to_string()),
        object_lock_retain_until_date: Some(Timestamp { seconds: 3, subsecond_nanos: 4 }),
        object_lock_legal_hold_status: Some("ON".to_string()),
        expected_bucket_owner: Some("owner".to_string()),
    }
}

fn assert_same_put<A, B>(a: &PutObjectInput<A>, b: &PutObjectInput<B>) {
    assert_eq!(a.acl, b.acl);
    assert_eq!(a.bucket, b.bucket);
    assert_eq!(a.cache_control, b.cache_control);
    assert_eq!(a.content_disposition, b.content_disposition);
    assert_eq!(a.content_encoding, b.content_encoding);
    assert_eq!(a.content_language, b.content_language);
    assert_eq!(a.content_length, b.content_length);
    assert_eq!(a.content_md5, b.content_md5);
    assert_eq!(a.content_type, b.content_type);
    assert_eq!(a.checksum_algorithm, b.checksum_algorithm);
    assert_eq!(a.checksum_crc32, b.checksum_crc32);
    assert_eq!(a.checksum_crc32_c, b.checksum_crc32_c);
    assert_eq!(a.checksum_crc64_nvme, b.checksum_crc64_nvme);
    assert_eq!(a.if_match, b.if_match);
    assert_eq!(a.if_none_match, b.if_none_match);
    assert_eq!(a.write_offset_bytes, b.write_offset_bytes);
    assert_eq!(a.checksum_sha1, b.checksum_sha1);
    assert_eq!(a.checksum_sha256, b.checksum_sha256);
    assert_eq!(a.expires, b.expires);
    assert_eq!(a.grant_full_control, b.grant_full_control);
    assert_eq!(a.grant_read, b.grant_read);
    assert_eq!(a.grant_read_acp, b.grant_read_acp);
    assert_eq!(a.grant_write_acp, b.grant_write_acp);
    assert_eq!(a.key, b.key);
    assert_eq!(a.metadata, b.metadata);
    assert_eq!(a.server_side_encryption, b.server_side_encryption);
    assert_eq!(a.storage_class, b.storage_class);
    assert_eq!(a.website_redirect_location, b.website_redirect_location);
    assert_eq!(a.sse_customer_algorithm, b.sse_customer_algorithm);
    assert_eq!(a.sse_customer_key, b.sse_customer_key);
    assert_eq!(a.sse_customer_key_md5, b.sse_customer_key_md5);
    assert_eq!(a.ssekms_key_id, b.ssekms_key_id);
    assert_eq!(a.ssekms_encryption_context, b.ssekms_encryption_context);
    assert_eq!(a.bucket_key_enabled, b.bucket_key_enabled);
    assert_eq!(a.request_payer, b.request_payer);
    assert_eq!(a.tagging, b.tagging);
    assert_eq!(a.object_lock_mode, b.object_lock_mode);
    assert_eq!(a.object_lock_retain_until_date, b.object_lock_retain_until_date);
    assert_eq!(a.object_lock_legal_hold_status, b.object_lock_legal_hold_status);
    assert_eq!(a.expected_bucket_owner, b.expected_bucket_owner);
}

#[test]
fn every_put_copy_carries_every_field() {
    let (mut multiplier, parts) = PutObjectInputMultiplier::from_input(put("hello"));
    assert_eq!(parts.body, "hello");
    let first = multiplier.input().unwrap();
    let second = multiplier.input().unwrap();
    assert_same_put(&put("other"), &first);
    assert_same_put(&put("other"), &second);
    assert!(!first.body.is_end_stream());
    assert_eq!(first.body.part_number(), None);
    multiplier.close();
    assert!(multiplier.input().is_none());
}

#[test]
fn put_copy_goes_to_the_remote_bucket() {
    let (multiplier, _parts) = PutObjectInputMultiplier::from_input(put("hello"));
    let sent = multiplier.input().unwrap().for_bucket(&"backend".to_string());
    assert_eq!(sent.bucket.as_deref(), Some("backend"));
    let mut expected = put("hello");
    expected.bucket = Some("backend".to_string());
    assert_same_put(&expected, &sent);
}

#[test]
fn put_body_is_shared_with_every_subscriber() {
    let (mut multiplier, mut parts) = PutObjectInputMultiplier::from_input(put("hello"));
    let mut inputs = Vec::new();
    let mut queues = Vec::new();
    for _ in 0..2 {
        inputs.push(multiplier.input().unwrap());
        match parts.broadcaster.subscribe() {
            Subscription::Accepted { id, replay } => {
                assert_eq!(id, queues.len());
                queues.push(replay);
            }
            Subscription::Refused => panic!("refused"),
        }
    }
    multiplier.close();
    let step = parts.producer.on_item(Ok(bytes::Bytes::from_static(parts.body.as_bytes())));
    assert!(step.fire_first_byte);
    for (id, copy) in parts.broadcaster.frame(step.payload, true) {
        queues[id].push(copy);
    }
    for (queue, input) in queues.into_iter().zip(inputs.iter_mut()) {
        assert_eq!(queue.len(), 1);
        for item in queue {
            let seen = input.body.poll_frame(Some(item)).unwrap().unwrap();
            assert_eq!(seen.to_vec(), b"hello");
        }
    }
}

#[test]
fn upload_part_copy_carries_every_field_and_its_part_number() {
    let input = UploadPartInput {
        body: 7u8,
        bucket: Some("front".to_string()),
        content_length: Some(1),
        content_md5: Some("md5".to_string()),
        checksum_algorithm: Some("CRC32".to_string()),
        checksum_crc32: Some("c32".to_string()),
        checksum_crc32_c: Some("c32c".to_string()),
        checksum_crc64_nvme: Some("c64".to_string()),
        checksum_sha1: Some("s1".to_string()),
        checksum_sha256: Some("s256".to_string()),
        key: Some("big".to_string()),
        part_number: Some(4),
        upload_id: Some("u-1".to_string()),
        sse_customer_algorithm: Some("AES256".to_string()),
        sse_customer_key: Some("key".to_string()),
        sse_customer_key_md5: Some("keymd5".to_string()),
        request_payer: Some("requester".to_string()),
        expected_bucket_owner: Some("owner".to_string()),
    };
    let (mut multiplier, parts) = UploadPartInputMultiplier::from_input(input.clone());
    assert_eq!(parts.body, 7);
    let copy = multiplier.input().unwrap();
    assert_eq!(copy.body.part_number(), Some(4));
    assert_eq!(copy.bucket, input.bucket);
    assert_eq!(copy.content_length, input.content_length);
    assert_eq!(copy.content_md5, input.content_md5);
    assert_eq!(copy.checksum_algorithm, input.checksum_algorithm);
    assert_eq!(copy.checksum_crc32, input.checksum_crc32);
    assert_eq!(copy.checksum_crc32_c, input.checksum_crc32_c);
    assert_eq!(copy.checksum_crc64_nvme, input.checksum_crc64_nvme);
    assert_eq!(copy.checksum_sha1, input.checksum_sha1);
    assert_eq!(copy.checksum_sha256, input.checksum_sha256);
    assert_eq!(copy.key, input.key);
    assert_eq!(copy.part_number, input.part_number);
    assert_eq!(copy.upload_id, input.upload_id);
    assert_eq!(copy.sse_customer_algorithm, input.sse_customer_algorithm);
    assert_eq!(copy.sse_customer_key, input.sse_customer_key);
    assert_eq!(copy.sse_customer_key_md5, input.sse_customer_key_md5);
    assert_eq!(copy.request_payer, input.request_payer);
    assert_eq!(copy.expected_bucket_owner, input.expected_bucket_owner);
    multiplier.close();
    assert!(multiplier.input().is_none());
}

#[test]
fn copies_of_parts_are_equal_to_the_parts() {
    assert_eq!(copy_text(&Some("x".to_string())), Some("x".to_string()));
    assert_eq!(copy_text(&None), None);
    let metadata = Some(vec![("a".to_string(), "1".to_string()), ("b".to_string(), "2".to_string())]);
    assert_eq!(copy_metadata(&metadata), metadata);
    assert_eq!(copy_metadata(&Some(vec![])), Some(vec![]));
    assert_eq!(copy_metadata(&None), None);
    assert!(copy_delete(&None).is_none());
}

#[test]
fn batch_delete_is_copied_object_by_object() {
    let input = DeleteObjectsInput {
        bucket: Some("front".to_string()),
        delete: Some(Delete {
            objects: vec![
                ObjectIdentifier {
                    key: "a".to_string(),
                    version_id: None,
                    e_tag: None,
                    last_modified_time: None,
                    size: None,
                },
                ObjectIdentifier {
                    key: "b".to_string(),
                    version_id: Some("v2".to_string()),
                    e_tag: Some("\"e\"".to_string()),
                    last_modified_time: Some(Timestamp { seconds: 5, subsecond_nanos: 6 }),
                    size: Some(7),
                },
            ],
            quiet: Some(true),
        }),
        mfa: Some("mfa".to_string()),
        request_payer: None,
        bypass_governance_retention: Some(false),
        expected_bucket_owner: None,
        checksum_algorithm: Some("CRC32".to_string()),
    };
    let copy = input.duplicate().for_bucket(&"backend".to_string());
    assert_eq!(copy.bucket.as_deref(), Some("backend"));
    assert_eq!(copy.mfa, input.mfa);
    assert_eq!(copy.bypass_governance_retention, Some(false));
    assert_eq!(copy.checksum_algorithm, input.checksum_algorithm);
    let delete = copy.delete.unwrap();
    assert_eq!(delete.quiet, Some(true));
    assert_eq!(delete.objects.len(), 2);
    assert_eq!(delete.objects[0].key, "a");
    assert_eq!(delete.objects[0].version_id, None);
    assert_eq!(delete.objects[1].key, "b");
    assert_eq!(delete.objects[1].version_id.as_deref(), Some("v2"));
    assert_eq!(delete.objects[1].e_tag.as_deref(), Some("\"e\""));
    assert_eq!(
        delete.objects[1].last_modified_time,
        Some(Timestamp { seconds: 5, subsecond_nanos: 6 })
    );
    assert_eq!(delete.objects[1].size, Some(7));
}

#[test]
fn one_copy_for_each_remote_then_closed() {
    let (mut multiplier, _parts) = PutObjectInputMultiplier::from_input(put("hello"));
    let copies = multiplier.inputs(3);
    assert_eq!(copies.len(), 3);
    for copy in &copies {
        assert_same_put(&put("other"), copy);
        assert_eq!(copy.body.part_number(), None);
    }
    assert!(multiplier.input().is_none());
    assert!(multiplier.inputs(2).is_empty());

    let (mut none, _parts) = PutObjectInputMultiplier::from_input(put("hello"));
    assert!(none.inputs(0).is_empty());
    assert!(none.input().is_none());
}

#[test]
fn metadata_is_a_map_when_no_key_stands_twice() {
    let pair = |k: &str, v: &str| (k.to_string(), v.to_string());
    assert!(has_unique_keys(&vec![]));
    assert!(has_unique_keys(&vec![pair("a", "1")]));
    assert!(has_unique_keys(&vec![pair("a", "1"), pair("b", "1"), pair("A", "1")]));
    assert!(!has_unique_keys(&vec![pair("a", "1"), pair("b", "2"), pair("a", "3")]));
    assert!(!has_unique_keys(&vec![pair("a", "1"), pair("a", "1")]));
    assert!(!has_unique_keys(&vec![pair("x", "1"), pair("b", "2"), pair("b", "2")]));
    let copied = copy_metadata(&Some(vec![pair("a", "1"), pair("b", "2")])).unwrap();
    assert!(has_unique_keys(&copied));
}
