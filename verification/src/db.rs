//! Documents kept in the token store, and how long the store keeps them.

use vstd::prelude::*;

verus! {

/// Seconds after its creation at which the store drops a paging token.
pub const TOKEN_LIFETIME_SECS: u64 = 86_400;

/// Seconds after its use at which the store drops a paging token.
pub const CONSUMED_TOKEN_LIFETIME_SECS: u64 = 600;

/// A paging token: where the listing goes on, when the token was made and
/// when, if ever, a client presented it. Times are milliseconds since the
/// epoch.
#[derive(Debug, Clone)]
pub struct ListObjectTokens {
    pub start_after: String,
    pub created_at: i64,
    pub consumed_at: Option<i64>,
}

/// The per-remote upload ids behind one client-visible multipart upload.
#[derive(Debug, Clone)]
pub struct MultipartUploadIds {
    pub upload_ids: Vec<RemoteMultipartUploadId>,
    pub created_at: i64,
    pub completed_at: Option<i64>,
    pub aborted_at: Option<i64>,
}

/// State of one remote's share of a multipart upload.
#[derive(Debug, Clone, Copy, PartialEq, Eq, Structural)]
pub enum PartUploadStatus {
    Open,
    Cancelled,
}

/// The upload id that one remote gave for a client's multipart upload.
#[derive(Debug, Clone)]
pub struct RemoteMultipartUploadId {
    pub status: PartUploadStatus,
    pub remote_name: String,
    pub upload_id: String,
}

/// An index that makes the store drop a document some time after the date
/// in one of its fields.
#[derive(Debug, Clone)]
pub struct TtlIndex {
    pub field: String,
    pub expire_after_secs: u64,
}

/// The moment from which the store may drop `token`: a day after it was
/// made, or ten minutes after it was used, whichever comes first.
pub open spec fn expiry_of(token: ListObjectTokens) -> int {
    let by_age = token.created_at + TOKEN_LIFETIME_SECS * 1000;
    match token.consumed_at {
        Some(used) => if used + CONSUMED_TOKEN_LIFETIME_SECS * 1000 < by_age {
            used + CONSUMED_TOKEN_LIFETIME_SECS * 1000
        } else {
            by_age
        },
        None => by_age,
    }
}

impl ListObjectTokens {
    /// A token made at `now` that says where the listing goes on. Nobody has
    /// presented it yet.
    pub fn new(start_after: String, now: i64) -> (token: Self)
        ensures
            token.start_after == start_after,
            token.created_at == now,
            token.consumed_at is None,
    {
        ListObjectTokens { start_after, created_at: now, consumed_at: None }
    }

    /// The token after a client presented it at `now`: marked as used, and
    /// otherwise the same.
    pub fn consume(self, now: i64) -> (token: Self)
        ensures
            token.start_after == self.start_after,
            token.created_at == self.created_at,
            token.consumed_at == Some(now),
    {
        ListObjectTokens { start_after: self.start_after, created_at: self.created_at, consumed_at: Some(now) }
    }

    /// Whether the store may have dropped this token by `now`.
    pub fn is_expired(&self, now: i64) -> (expired: bool)
        ensures
            expired == (now >= expiry_of(*self)),
    {
        let by_age: i128 = self.created_at as i128 + 86_400_000;
        let at: i128 = match self.consumed_at {
            Some(used) => {
                let by_use: i128 = used as i128 + 600_000;
                if by_use < by_age {
                    by_use
                } else {
                    by_age
                }
            },
            None => by_age,
        };
        now as i128 >= at
    }
}

/// The indexes that the token collection needs: one on `created_at` that
/// drops a token a day after it was made, one on `consumed_at` that drops it
/// ten minutes after it was used.
pub fn token_indexes() -> (indexes: Vec<TtlIndex>)
    ensures
        indexes@.len() == 2,
        indexes@[0].field@ == "created_at"@,
        indexes@[0].expire_after_secs == TOKEN_LIFETIME_SECS,
        indexes@[1].field@ == "consumed_at"@,
        indexes@[1].expire_after_secs == CONSUMED_TOKEN_LIFETIME_SECS,
{
    let mut indexes: Vec<TtlIndex> = Vec::new();
    indexes.push(TtlIndex { field: "created_at".to_owned(), expire_after_secs: TOKEN_LIFETIME_SECS });
    indexes.push(
        TtlIndex { field: "consumed_at".to_owned(), expire_after_secs: CONSUMED_TOKEN_LIFETIME_SECS },
    );
    indexes
}

/// The name of the collection that holds the paging tokens.
pub fn token_collection() -> (name: String)
    ensures
        name@ == "list_object_tokens"@,
{
    "list_object_tokens".to_owned()
}

/// The name of the collection that holds the multipart upload ids.
pub fn upload_collection() -> (name: String)
    ensures
        name@ == "multipart_upload_ids"@,
{
    "multipart_upload_ids".to_owned()
}

/// A token that was used stays in the store for ten minutes more, unless
/// its day is over before: until then a client that presents it again
/// finds it.
pub proof fn lemma_used_token_is_kept(token: ListObjectTokens, used: i64, now: int)
    requires
        now < used + CONSUMED_TOKEN_LIFETIME_SECS * 1000,
        now < token.created_at + TOKEN_LIFETIME_SECS * 1000,
    ensures
        now < expiry_of(
            ListObjectTokens {
                start_after: token.start_after,
                created_at: token.created_at,
                consumed_at: Some(used),
            },
        ),
{
}

} // verus!
