//! Errors: what a remote reported, and what the proxy tells its client.

use vstd::prelude::*;

verus! {

/// An HTTP status code as the HTTP library accepts it: 100 to 999.
#[derive(Debug, Clone, Copy)]
pub struct HttpStatus {
    code: u16,
}

/// The error envelope that a remote sent back: it answered, with an error.
#[derive(Debug, Clone)]
pub struct ServiceFailure {
    pub code: Option<String>,
    pub message: Option<String>,
    pub request_id: Option<String>,
    pub status: HttpStatus,
}

/// An error in the S3 taxonomy, as the proxy returns it to a client.
#[derive(Debug, Clone)]
pub struct S3Failure {
    pub code: String,
    pub message: Option<String>,
    pub request_id: Option<String>,
    pub status: Option<HttpStatus>,
}

/// The code that an error gets when the remote sent none, or none that the
/// S3 codec takes.
pub open spec fn fallback_code() -> Seq<char> {
    "InternalError"@
}

/// The client-facing code for what the codec made of a remote's code.
pub open spec fn mapped_code(recognized: Option<Seq<char>>) -> Seq<char> {
    match recognized {
        Some(code) => code,
        None => fallback_code(),
    }
}

/// `failure` is the translation of `sdk` into the S3 taxonomy: the remote's
/// code, or `InternalError` where it sent none; message, request id and
/// HTTP status as they came.
pub open spec fn converts_to(sdk: ServiceFailure, failure: S3Failure) -> bool {
    &&& failure.code@ == mapped_code(opt_text(sdk.code))
    &&& failure.message == sdk.message
    &&& failure.request_id == sdk.request_id
    &&& failure.status == Some(sdk.status)
}

/// `failure` is the bare error with the code `code`.
pub open spec fn is_bare_failure(failure: S3Failure, code: Seq<char>) -> bool {
    &&& failure.code@ == code
    &&& failure.message is None
    &&& failure.request_id is None
    &&& failure.status is None
}

/// The characters of an optional string.
pub open spec fn opt_text(text: Option<String>) -> Option<Seq<char>> {
    match text {
        Some(t) => Some(t@),
        None => None,
    }
}

/// `StatusCode::from_u16` of the HTTP library accepts exactly the codes
/// from 100 to 999; this reports whether it accepted `code`.
#[verifier::external_body]
fn status_code_accepts(code: u16) -> (accepted: bool)
    ensures
        accepted == (100 <= code <= 999),
{
    hyper::StatusCode::from_u16(code).is_ok()
}

/// `S3ErrorCode::from_bytes` of the S3 codec, applied to the bytes of
/// `code`; the code it returns is handed back by its `as_str` name. The
/// codec takes every text: one of its table of known codes as the variant
/// of that name, any other as a custom code that holds the text. Either
/// way the name of what it returns is the text that went in.
#[verifier::external_body]
fn read_s3_code(code: &str) -> (recognized: Option<String>)
    ensures
        opt_text(recognized) == Some(code@),
{
    s3s::S3ErrorCode::from_bytes(code.as_bytes()).map(|known| known.as_str().to_owned())
}

impl HttpStatus {
    #[verifier::type_invariant]
    spec fn in_range(self) -> bool {
        100 <= self.code <= 999
    }

    /// The numeric code.
    pub closed spec fn value(self) -> u16 {
        self.code
    }

    /// Takes `code` if the HTTP library accepts it as a status code.
    pub fn new(code: u16) -> (status: Option<Self>)
        ensures
            status is Some <==> 100 <= code <= 999,
            status matches Some(s) ==> s.value() == code,
    {
        if status_code_accepts(code) {
            Some(HttpStatus { code })
        } else {
            None
        }
    }

    /// The numeric code.
    pub fn as_u16(&self) -> (code: u16)
        ensures
            code == self.value(),
            100 <= code <= 999,
    {
        proof {
            use_type_invariant(self);
        }
        self.code
    }
}

impl S3Failure {
    /// An error that carries `code` and nothing else.
    pub fn new(code: String) -> (failure: Self)
        ensures
            failure.code == code,
            failure.message is None,
            failure.request_id is None,
            failure.status is None,
    {
        S3Failure { code, message: None, request_id: None, status: None }
    }

    /// The proxy could not serve the request.
    pub fn internal_error() -> (failure: Self)
        ensures
            is_bare_failure(failure, "InternalError"@),
    {
        S3Failure::new("InternalError".to_owned())
    }

    /// The bucket named in the request is not the one the proxy shows.
    pub fn no_such_bucket() -> (failure: Self)
        ensures
            is_bare_failure(failure, "NoSuchBucket"@),
    {
        S3Failure::new("NoSuchBucket".to_owned())
    }

    /// The continuation token is not one the proxy gave out, or is no
    /// longer kept.
    pub fn invalid_token() -> (failure: Self)
        ensures
            is_bare_failure(failure, "InvalidToken"@),
    {
        S3Failure::new("InvalidToken".to_owned())
    }

    /// Builds the client-facing error from a remote's error, given what the
    /// codec made of the remote's code: that code if there is one, else
    /// `InternalError`; message, request id and status are the remote's.
    pub fn from_remote(recognized: Option<String>, sdk: ServiceFailure) -> (failure: Self)
        ensures
            failure.code@ == mapped_code(opt_text(recognized)),
            failure.message == sdk.message,
            failure.request_id == sdk.request_id,
            failure.status == Some(sdk.status),
    {
        let code = match recognized {
            Some(name) => name,
            None => "InternalError".to_owned(),
        };
        S3Failure {
            code,
            message: sdk.message,
            request_id: sdk.request_id,
            status: Some(sdk.status),
        }
    }
}

/// Translates a remote's error into the S3 taxonomy: the code is the
/// remote's own, as the codec reads it, or `InternalError` where the remote
/// sent none; message, request id and HTTP status are kept as they came.
pub fn convert_sdk_err(sdk: ServiceFailure) -> (failure: S3Failure)
    ensures
        converts_to(sdk, failure),
{
    let recognized = match &sdk.code {
        Some(text) => read_s3_code(text.as_str()),
        None => None,
    };
    S3Failure::from_remote(recognized, sdk)
}

} // verus!
