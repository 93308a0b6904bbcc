//! Continuation tokens as clients see them: the store's document id,
//! written as 24 hexadecimal digits.

use vstd::prelude::*;

verus! {

/// The id of a token document: twelve bytes.
#[derive(Debug, Clone, Copy, PartialEq, Eq)]
pub struct TokenId {
    pub bytes: [u8; 12],
}

/// The value of a hexadecimal digit, upper or lower case.
pub open spec fn hex_value(c: char) -> Option<u8> {
    let n = c as u32;
    if 48 <= n <= 57 {
        Some((n - 48) as u8)
    } else if 97 <= n <= 102 {
        Some((n - 87) as u8)
    } else if 65 <= n <= 70 {
        Some((n - 55) as u8)
    } else {
        None
    }
}

/// The lower-case hexadecimal digit for a value below 16.
pub open spec fn hex_digit(v: int) -> char {
    if v < 10 {
        (v + 48) as u8 as char
    } else {
        (v + 87) as u8 as char
    }
}

/// `text` is a token as the proxy gives them out: 24 hexadecimal digits.
pub open spec fn is_token_text(text: Seq<char>) -> bool {
    &&& text.len() == 24
    &&& forall|i: int| 0 <= i < 24 ==> hex_value(#[trigger] text[i]) is Some
}

/// The twelve bytes that the 24 digits of `text` spell.
pub open spec fn token_bytes(text: Seq<char>) -> Seq<u8> {
    Seq::new(
        12,
        |i: int| (hex_value(text[2 * i]).unwrap() * 16 + hex_value(text[2 * i + 1]).unwrap()) as u8,
    )
}

/// The 24 lower-case digits that spell `bytes`.
pub open spec fn token_text(bytes: Seq<u8>) -> Seq<char> {
    Seq::new(
        24,
        |i: int|
            if i % 2 == 0 {
                hex_digit(bytes[i / 2] as int / 16)
            } else {
                hex_digit(bytes[i / 2] as int % 16)
            },
    )
}

/// The text of a token id reads back as the same id: a token that the
/// proxy gave out is accepted when a client presents it.
pub proof fn lemma_token_text_reads_back(bytes: Seq<u8>)
    requires
        bytes.len() == 12,
    ensures
        is_token_text(token_text(bytes)),
        token_bytes(token_text(bytes)) == bytes,
{
    let text = token_text(bytes);
    assert forall|v: int| 0 <= v < 16 implies hex_value(#[trigger] hex_digit(v)) == Some(
        v as u8,
    ) by {}
    assert forall|i: int| 0 <= i < 24 implies hex_value(#[trigger] text[i]) is Some by {
        let b = bytes[i / 2] as int;
        assert(0 <= b / 16 < 16 && 0 <= b % 16 < 16);
    }
    assert forall|i: int| 0 <= i < 12 implies #[trigger] token_bytes(text)[i] == bytes[i] by {
        let b = bytes[i] as int;
        assert(0 <= b / 16 < 16 && 0 <= b % 16 < 16);
        assert((2 * i) / 2 == i && (2 * i + 1) / 2 == i);
        assert((2 * i) % 2 == 0 && (2 * i + 1) % 2 == 1);
        assert(text[2 * i] == hex_digit(b / 16));
        assert(text[2 * i + 1] == hex_digit(b % 16));
        assert((b / 16) * 16 + b % 16 == b);
    }
    assert(token_bytes(text) =~= bytes);
}

/// `ObjectId::parse_str` of the store's driver: it decodes hexadecimal
/// digits of either case and accepts exactly the texts of 24 of them; the
/// id it returns is handed back as its twelve bytes.
#[verifier::external_body]
fn parse_object_id(text: &str) -> (id: Option<[u8; 12]>)
    ensures
        id is Some <==> is_token_text(text@),
        id matches Some(bytes) ==> bytes@ == token_bytes(text@),
{
    mongodb::bson::oid::ObjectId::parse_str(text).ok().map(|id| id.bytes())
}

/// `ObjectId::to_hex` of the store's driver, on the id with these bytes:
/// the bytes in lower-case hexadecimal, two digits each.
#[verifier::external_body]
fn object_id_hex(bytes: [u8; 12]) -> (text: String)
    ensures
        text@ == token_text(bytes@),
{
    mongodb::bson::oid::ObjectId::from_bytes(bytes).to_hex()
}

impl TokenId {
    /// Reads a token that a client presented. Anything but 24 hexadecimal
    /// digits is no token.
    pub fn parse(text: &str) -> (id: Option<TokenId>)
        ensures
            id is Some <==> is_token_text(text@),
            id matches Some(token) ==> token.bytes@ == token_bytes(text@),
    {
        match parse_object_id(text) {
            Some(bytes) => Some(TokenId { bytes }),
            None => None,
        }
    }

    /// The token as it is given to a client.
    pub fn to_text(&self) -> (text: String)
        ensures
            text@ == token_text(self.bytes@),
    {
        object_id_hex(self.bytes)
    }
}

} // verus!
