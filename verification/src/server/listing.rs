//! Paged listings: the continuation tokens that clients see are the
//! proxy's own. Each stands for a key after which the listing goes on, so
//! that the next page can come from any remote.

use crate::db::ListObjectTokens;
use crate::server::error::{is_bare_failure, S3Failure};
use crate::server::remote::RemoteMessage;
use crate::server::token::{is_token_text, token_bytes, token_text, TokenId};
use vstd::prelude::*;

verus! {

/// What the proxy reads of a listing request.
#[derive(Debug, Clone)]
pub struct ListObjectsV2Input {
    pub prefix: Option<String>,
    pub delimiter: Option<String>,
    pub max_keys: Option<i32>,
    pub start_after: Option<String>,
    pub continuation_token: Option<String>,
}

/// What the proxy reads of a remote's listing: the keys of the objects on
/// the page, and whether the remote has more.
#[derive(Debug, Clone)]
pub struct ListPage {
    pub keys: Option<Vec<Option<String>>>,
    pub next_continuation_token: Option<String>,
}

/// The key after which a page begins. There are two ways to come by one:
/// from a request without a token, and from the store's answer for a token,
/// which the store gives only once it has marked the token as used. So no
/// remote is asked for a page on a token that was not marked first.
#[derive(Debug)]
pub struct Cursor {
    start_after: Option<String>,
}

/// The first step of a listing.
#[derive(Debug)]
pub enum ListIngress {
    /// No token came with the request: ask the remotes, from the key the
    /// client named if it named one.
    Probe { cursor: Cursor },
    /// A token came: mark its document as used in the store and fetch it.
    Consume { id: TokenId },
}

/// What the store answered when asked to mark a token as used.
#[derive(Debug)]
pub enum TokenLookup {
    /// The document, as it was found.
    Found(ListObjectTokens),
    /// There is no such document.
    Missing,
    /// The store failed.
    StoreFailed,
}

/// What is left to do once a remote has sent a page.
#[derive(Debug)]
pub enum ListEgress {
    /// The listing is complete, or the page names no key to go on from: the
    /// client gets no token.
    Done,
    /// The remote has more: store a token that goes on after this key, and
    /// give its id to the client.
    Mint { start_after: String },
}

/// What the store answered when asked to keep a new token.
#[derive(Debug)]
pub enum TokenInsert {
    /// The id of the new document.
    Inserted(TokenId),
    /// The store failed.
    StoreFailed,
}

/// The two tokens of a listing response.
#[derive(Debug)]
pub struct PageTokens {
    /// The token that came with the request, as it came.
    pub continuation_token: Option<String>,
    /// The proxy's token for the next page, if there is one.
    pub next_continuation_token: Option<String>,
}

/// The key of the last object on a page, where the page has objects and the
/// last one has a key.
pub open spec fn last_key(keys: Option<Vec<Option<String>>>) -> Option<String> {
    match keys {
        Some(list) => if list@.len() > 0 {
            list@.last()
        } else {
            None
        },
        None => None,
    }
}

/// The key that a token for the page after `page` goes on from: the last
/// key of the page where the remote says there is more, else none.
pub open spec fn resume_key(page: ListPage) -> Option<String> {
    if page.next_continuation_token is Some {
        last_key(page.keys)
    } else {
        None
    }
}

/// The key from which the remotes are asked once the store has answered for
/// a token: the one in the token's document. What the client itself named
/// as `start_after` plays no part.
pub open spec fn resumed_from(lookup: TokenLookup) -> Option<String> {
    match lookup {
        TokenLookup::Found(token) => Some(token.start_after),
        _ => None,
    }
}

impl Cursor {
    /// The key after which the page begins, if any.
    pub closed spec fn key(&self) -> Option<String> {
        self.start_after
    }

    /// The key after which the page begins, if any.
    pub fn start_after(&self) -> (key: Option<String>)
        ensures
            key == self.key(),
    {
        match &self.start_after {
            Some(text) => Some(text.clone()),
            None => None,
        }
    }
}

/// Reads the request: without a token the remotes are asked at once, from
/// the client's `start_after`; with one, the store is asked first. A token
/// that is not 24 hexadecimal digits is refused as `InvalidToken`.
pub fn list_ingress(input: &ListObjectsV2Input) -> (step: Result<ListIngress, S3Failure>)
    ensures
        match input.continuation_token {
            None => step matches Ok(ListIngress::Probe { cursor }) && cursor.key()
                == input.start_after,
            Some(text) => if is_token_text(text@) {
                step matches Ok(ListIngress::Consume { id }) && id.bytes@ == token_bytes(text@)
            } else {
                step matches Err(failure) && is_bare_failure(failure, "InvalidToken"@)
            },
        },
{
    match &input.continuation_token {
        None => {
            let start_after = match &input.start_after {
                Some(key) => Some(key.clone()),
                None => None,
            };
            Ok(ListIngress::Probe { cursor: Cursor { start_after } })
        },
        Some(text) => match TokenId::parse(text.as_str()) {
            Some(id) => Ok(ListIngress::Consume { id }),
            None => Err(S3Failure::invalid_token()),
        },
    }
}

/// Takes the store's answer for a token. A document that was found says
/// where the listing goes on, whatever `start_after` the client sent along;
/// a missing one makes the token invalid; a failed store is an internal
/// error.
pub fn list_resume(lookup: TokenLookup) -> (cursor: Result<Cursor, S3Failure>)
    ensures
        match lookup {
            TokenLookup::Found(token) => cursor matches Ok(found) && found.key() == Some(
                token.start_after,
            ),
            TokenLookup::Missing => cursor matches Err(failure) && is_bare_failure(
                failure,
                "InvalidToken"@,
            ),
            TokenLookup::StoreFailed => cursor matches Err(failure) && is_bare_failure(
                failure,
                "InternalError"@,
            ),
        },
        lookup is Found ==> (cursor matches Ok(found) && found.key() == resumed_from(lookup)),
{
    match lookup {
        TokenLookup::Found(token) => Ok(Cursor { start_after: Some(token.start_after) }),
        TokenLookup::Missing => Err(S3Failure::invalid_token()),
        TokenLookup::StoreFailed => Err(S3Failure::internal_error()),
    }
}

/// The message that asks a remote for a page: prefix, delimiter and page
/// size as the client sent them, and the key to go on from as the cursor
/// has it.
pub fn list_message<B>(input: &ListObjectsV2Input, cursor: &Cursor) -> (message: RemoteMessage<B>)
    ensures
        message == (RemoteMessage::<B>::ListObjects {
            prefix: input.prefix,
            delimiter: input.delimiter,
            max_keys: input.max_keys,
            start_after: cursor.key(),
        }),
{
    let start_after = cursor.start_after();
    let prefix = match &input.prefix {
        Some(text) => Some(text.clone()),
        None => None,
    };
    let delimiter = match &input.delimiter {
        Some(text) => Some(text.clone()),
        None => None,
    };
    RemoteMessage::ListObjects { prefix, delimiter, max_keys: input.max_keys, start_after }
}

/// Looks at a remote's page: where the remote has more and the page ends on
/// an object with a key, a token that goes on after that key is to be
/// stored; else the client gets none. The remote's own token is never
/// handed on.
pub fn list_egress(page: &ListPage) -> (step: ListEgress)
    ensures
        match resume_key(*page) {
            Some(key) => step == (ListEgress::Mint { start_after: key }),
            None => step is Done,
        },
{
    if page.next_continuation_token.is_none() {
        return ListEgress::Done;
    }
    match &page.keys {
        Some(list) => {
            if list.len() == 0 {
                return ListEgress::Done;
            }
            match &list[list.len() - 1] {
                Some(key) => ListEgress::Mint { start_after: key.clone() },
                None => ListEgress::Done,
            }
        },
        None => ListEgress::Done,
    }
}

/// The tokens of the response: the client's own token echoed, and as the
/// next token the id of the document just stored, in hexadecimal. `minted`
/// is `None` where nothing was to be stored. A store that failed makes the
/// listing fail with an internal error.
pub fn list_finish(continuation_token: Option<String>, minted: Option<TokenInsert>) -> (tokens:
    Result<PageTokens, S3Failure>)
    ensures
        match minted {
            None => tokens matches Ok(t) && t.continuation_token == continuation_token
                && t.next_continuation_token is None,
            Some(TokenInsert::Inserted(id)) => {
                &&& tokens matches Ok(t)
                &&& t.continuation_token == continuation_token
                &&& t.next_continuation_token matches Some(text)
                &&& text@ == token_text(id.bytes@)
            },
            Some(TokenInsert::StoreFailed) => tokens matches Err(failure) && is_bare_failure(
                failure,
                "InternalError"@,
            ),
        },
{
    match minted {
        None => Ok(PageTokens { continuation_token, next_continuation_token: None }),
        Some(TokenInsert::Inserted(id)) => Ok(
            PageTokens { continuation_token, next_continuation_token: Some(id.to_text()) },
        ),
        Some(TokenInsert::StoreFailed) => Err(S3Failure::internal_error()),
    }
}

/// A token that the proxy gave out for the page after `page` leads back to
/// where that page ended: when a client presents it and the store still has
/// its document, used or not, the remotes are asked from the last key of
/// `page`, not from any `start_after` that the client sent.
pub proof fn lemma_token_resumes_after_page(
    page: ListPage,
    key: String,
    made: i64,
    used: Option<i64>,
)
    requires
        resume_key(page) == Some(key),
    ensures
        resumed_from(
            TokenLookup::Found(
                ListObjectTokens { start_after: key, created_at: made, consumed_at: used },
            ),
        ) == last_key(page.keys),
{
}

} // verus!
