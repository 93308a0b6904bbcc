use s3_reproxy::server::error::{convert_sdk_err, HttpStatus, S3Failure, ServiceFailure};
use s3_reproxy::server::order::read_order;
use s3_reproxy::server::probe::{serving, ReadProbe};
use s3_reproxy::server::remote::S3Remote;
use s3_reproxy::server::{
    agreement, collect_reply, output_remote_inconsistent, Agreement, RemoteFailure, Replies,
    S3Reproxy,
};

fn remote(name: &str, priority: u32, read_request: bool) -> S3Remote {
    S3Remote { name: name.to_string(), priority, read_request }
}

fn failure(code: Option<&str>, status: u16) -> ServiceFailure {
    ServiceFailure {
        code: code.map(|c| c.to_string()),
        message: Some("it went wrong".to_string()),
        request_id: Some("req-1".to_string()),
        status: HttpStatus::new(status).unwrap(),
    }
}

fn proxy(remotes: Vec<S3Remote>) -> S3Reproxy {
    S3Reproxy { bucket: "front".to_string(), remotes }
}

#[test]
fn status_is_taken_from_100_to_999() {
    assert!(HttpStatus::new(99).is_none());
    assert_eq!(HttpStatus::new(100).unwrap().as_u16(), 100);
    assert_eq!(HttpStatus::new(404).unwrap().as_u16(), 404);
    assert_eq!(HttpStatus::new(999).unwrap().as_u16(), 999);
    assert!(HttpStatus::new(1000).is_none());
    assert!(HttpStatus::new(0).is_none());
    assert!(HttpStatus::new(u16::MAX).is_none());
}

#[test]
fn remote_error_keeps_code_message_request_id_and_status() {
    let out = convert_sdk_err(failure(Some("NoSuchKey"), 404));
    assert_eq!(out.code, "NoSuchKey");
    assert_eq!(out.message.as_deref(), Some("it went wrong"));
    assert_eq!(out.request_id.as_deref(), Some("req-1"));
    assert_eq!(out.status.map(|s| s.as_u16()), Some(404));
}

#[test]
fn remote_error_without_code_is_internal_error() {
    let out = convert_sdk_err(failure(None, 503));
    assert_eq!(out.code, "InternalError");
    assert_eq!(out.status.map(|s| s.as_u16()), Some(503));
}

#[test]
fn from_remote_falls_back_when_no_code_was_read() {
    let out = S3Failure::from_remote(None, failure(Some("whatever"), 500));
    assert_eq!(out.code, "InternalError");
    let kept = S3Failure::from_remote(Some("AccessDenied".to_string()), failure(None, 403));
    assert_eq!(kept.code, "AccessDenied");
    assert_eq!(kept.status.map(|s| s.as_u16()), Some(403));
}

#[test]
fn local_errors_carry_only_their_code() {
    for (made, code) in [
        (S3Failure::internal_error(), "InternalError"),
        (S3Failure::no_such_bucket(), "NoSuchBucket"),
        (S3Failure::invalid_token(), "InvalidToken"),
    ] {
        assert_eq!(made.code, code);
        assert!(made.message.is_none());
        assert!(made.request_id.is_none());
        assert!(made.status.is_none());
    }
}

#[test]
fn bucket_list_is_the_one_bucket() {
    let server = proxy(vec![remote("r1", 1, true)]);
    let buckets = server.list_buckets();
    assert_eq!(buckets.len(), 1);
    assert_eq!(buckets[0].name.as_deref(), Some("front"));
    assert!(buckets[0].creation_date.is_none());
}

#[test]
fn only_the_configured_bucket_exists() {
    let server = proxy(vec![remote("r1", 1, true)]);
    assert!(server.head_bucket(&"front".to_string()).is_ok());
    assert!(server.get_bucket_location(&"front".to_string()).is_ok());
    let head = server.head_bucket(&"other".to_string()).unwrap_err();
    assert_eq!(head.code, "NoSuchBucket");
    let location = server.get_bucket_location(&"Front".to_string()).unwrap_err();
    assert_eq!(location.code, "NoSuchBucket");
    assert!(server.head_bucket(&"".to_string()).is_err());
}

#[test]
fn write_goes_to_every_remote_once() {
    let server = proxy(vec![remote("a", 1, true), remote("b", 9, false), remote("c", 1, true)]);
    assert_eq!(server.write_targets(), vec![0, 1, 2]);
    assert_eq!(proxy(vec![]).write_targets(), Vec::<usize>::new());
}

#[test]
fn read_order_is_readable_first_then_priority_then_position() {
    let remotes = vec![
        remote("low", 1, true),
        remote("writer", 100, false),
        remote("high", 5, true),
        remote("low-too", 1, true),
        remote("writer-too", 100, false),
    ];
    assert_eq!(read_order(&remotes), vec![2, 0, 3, 1, 4]);
    assert_eq!(read_order(&vec![]), Vec::<usize>::new());
    assert_eq!(read_order(&vec![remote("only", 0, false)]), vec![0]);
}

#[test]
fn read_is_served_by_the_best_remote_that_replies() {
    let remotes = vec![remote("low", 1, true), remote("writer", 100, false), remote("high", 5, true)];
    let order = read_order(&remotes);
    assert_eq!(serving(&order, &vec![true, true, true]), Some(2));
    assert_eq!(serving(&order, &vec![true, true, false]), Some(0));
    assert_eq!(serving(&order, &vec![false, true, false]), Some(1));
    assert_eq!(serving(&order, &vec![false, false, false]), None);
    assert_eq!(serving(&order, &vec![]), None);
}

#[test]
fn partitioned_remote_is_skipped() {
    let server = proxy(vec![remote("remote1", 5, true), remote("remote2", 1, true)]);
    let mut probe: ReadProbe = server.begin_read();
    assert_eq!(probe.target(), Some(0));
    assert!(probe.on_reply::<&str>(None).is_none());
    assert_eq!(probe.target(), Some(1));
    let done = probe.on_reply(Some(Ok("from remote2"))).unwrap();
    assert_eq!(done.unwrap(), "from remote2");
}

#[test]
fn service_error_ends_the_read() {
    let server = proxy(vec![remote("remote1", 5, true), remote("remote2", 1, true)]);
    let mut probe = server.begin_read();
    assert_eq!(probe.target(), Some(0));
    let done = probe.on_reply::<&str>(Some(Err(failure(Some("NoSuchKey"), 404)))).unwrap();
    let error = done.unwrap_err();
    assert_eq!(error.code, "NoSuchKey");
    assert_eq!(error.status.map(|s| s.as_u16()), Some(404));
    assert_eq!(probe.target(), Some(0));
}

#[test]
fn read_without_any_reply_is_internal_error() {
    let server = proxy(vec![remote("remote1", 5, true), remote("remote2", 1, false)]);
    let mut probe = server.begin_read();
    assert_eq!(probe.target(), Some(0));
    assert!(probe.on_reply::<u8>(None).is_none());
    assert_eq!(probe.target(), Some(1));
    assert!(probe.on_reply::<u8>(None).is_none());
    assert_eq!(probe.target(), None);
    assert!(probe.on_reply::<u8>(None).is_none());
    assert_eq!(probe.target(), None);
    assert_eq!(ReadProbe::unavailable().code, "InternalError");
    assert_eq!(proxy(vec![]).begin_read().target(), None);
}

#[test]
fn all_success_returns_the_first_success() {
    let results: Replies<&str> =
        vec![("r2".to_string(), Ok("etag-2")), ("r1".to_string(), Ok("etag-1"))];
    assert_eq!(agreement(&results), Agreement::AllSucceeded);
    assert_eq!(output_remote_inconsistent(results).unwrap(), "etag-2");
}

#[test]
fn all_failure_returns_the_first_failure() {
    let results: Replies<&str> = vec![
        ("r1".to_string(), Err(RemoteFailure::Service(failure(Some("AccessDenied"), 403)))),
        ("r2".to_string(), Err(RemoteFailure::Service(failure(Some("SlowDown"), 503)))),
    ];
    assert_eq!(agreement(&results), Agreement::AllFailed);
    let error = output_remote_inconsistent(results).unwrap_err();
    assert_eq!(error.code, "AccessDenied");
    assert_eq!(error.status.map(|s| s.as_u16()), Some(403));
}

#[test]
fn mixed_outcome_returns_the_first_success() {
    let results: Replies<&str> = vec![
        ("remote2".to_string(), Err(RemoteFailure::Service(failure(Some("InternalError"), 500)))),
        ("remote1".to_string(), Ok("etag-1")),
        ("remote3".to_string(), Ok("etag-3")),
    ];
    assert_eq!(agreement(&results), Agreement::Inconsistent);
    assert_eq!(output_remote_inconsistent(results).unwrap(), "etag-1");
}

#[test]
fn write_without_remotes_is_internal_error() {
    let results: Replies<&str> = vec![];
    assert_eq!(agreement(&results), Agreement::NoRemote);
    let error = output_remote_inconsistent(results).unwrap_err();
    assert_eq!(error.code, "InternalError");
    assert!(error.status.is_none());
}

#[test]
fn silent_remote_counts_as_a_failure() {
    let r1 = remote("r1", 1, true);
    let r2 = remote("r2", 1, true);
    let mut results: Replies<u8> = Vec::new();
    collect_reply(&mut results, &r1, None);
    assert_eq!(results.len(), 1);
    assert_eq!(results[0].0, "r1");
    assert!(matches!(results[0].1, Err(RemoteFailure::NoReply)));
    assert_eq!(agreement(&results), Agreement::AllFailed);
    collect_reply(&mut results, &r2, Some(Ok(7)));
    collect_reply(&mut results, &r1, Some(Err(failure(None, 500))));
    assert_eq!(results.len(), 3);
    assert_eq!(results[1].0, "r2");
    assert!(matches!(results[2].1, Err(RemoteFailure::Service(_))));
    assert_eq!(agreement(&results), Agreement::Inconsistent);
    assert_eq!(output_remote_inconsistent(results).unwrap(), 7);
}

#[test]
fn success_beside_a_silent_remote_is_inconsistent() {
    let r1 = remote("r1", 5, true);
    let r2 = remote("r2", 1, true);
    let mut results: Replies<&str> = Vec::new();
    collect_reply(&mut results, &r1, Some(Ok("o1")));
    collect_reply(&mut results, &r2, None);
    assert_eq!(agreement(&results), Agreement::Inconsistent);
    assert_eq!(output_remote_inconsistent(results).unwrap(), "o1");
}

#[test]
fn all_remotes_silent_is_all_failed_and_internal_error() {
    let r1 = remote("r1", 5, true);
    let r2 = remote("r2", 1, true);
    let mut results: Replies<&str> = Vec::new();
    collect_reply(&mut results, &r1, None);
    collect_reply(&mut results, &r2, None);
    assert_eq!(agreement(&results), Agreement::AllFailed);
    let error = output_remote_inconsistent(results).unwrap_err();
    assert_eq!(error.code, "InternalError");
    assert!(error.message.is_none());
    assert!(error.status.is_none());
}

#[test]
fn first_failure_decides_what_the_client_is_told() {
    let r1 = remote("r1", 5, true);
    let r2 = remote("r2", 1, true);
    let mut silent_first: Replies<&str> = Vec::new();
    collect_reply(&mut silent_first, &r1, None);
    collect_reply(&mut silent_first, &r2, Some(Err(failure(Some("AccessDenied"), 403))));
    let error = output_remote_inconsistent(silent_first).unwrap_err();
    assert_eq!(error.code, "InternalError");
    assert!(error.status.is_none());

    let mut service_first: Replies<&str> = Vec::new();
    collect_reply(&mut service_first, &r2, Some(Err(failure(Some("AccessDenied"), 403))));
    collect_reply(&mut service_first, &r1, None);
    let error = output_remote_inconsistent(service_first).unwrap_err();
    assert_eq!(error.code, "AccessDenied");
    assert_eq!(error.status.map(|s| s.as_u16()), Some(403));
}

#[test]
fn any_code_text_is_kept_as_it_came() {
    for code in ["NoSuchKey", "nosuchkey", "SomethingOfTheBackend", "", "Ünknown"] {
        assert_eq!(convert_sdk_err(failure(Some(code), 400)).code, code);
    }
}
