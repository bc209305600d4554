//! Tokens signed with HMAC-SHA256, as the `jsonwebtoken` crate writes and
//! reads them, and the JSON documents they carry.
//!
//! Nothing in this module is proved: it states what the outside crates do.
//! The crate signs and checks signatures; what the claims mean is decided
//! by the codec that calls it.

use vstd::prelude::*;

use crate::utils::jwt::Claims;
use crate::utils::jwt::ClaimsView;

verus! {

/// A member of a JSON object, as far as the codec tells members apart.
pub enum JsonMember {
    /// A string.
    Text(Seq<char>),
    /// A number that `serde_json` holds as an integer: a whole number from
    /// `i64::MIN` to `u64::MAX`.
    Integer(int),
    /// Any other value.
    Other,
}

/// Why a text was not opened as a token.
#[derive(Debug, Clone, Copy, PartialEq, Eq, Structural)]
pub enum OpenFailure {
    /// The token is well formed and its signature does not match.
    InvalidSignature,
    /// Everything else.
    Malformed,
}

/// Declares `serde_json::Value`, a JSON document, as a type. What a
/// document holds is known only through `members` and the functions that
/// read them.
#[verifier::external_type_specification]
#[verifier::external_body]
pub struct ExJsonValue(serde_json::Value);

/// The members of a JSON document by name. A document that is no object
/// has none.
pub uninterp spec fn members(document: serde_json::Value) -> Map<Seq<char>, JsonMember>;

/// The token that `jsonwebtoken::encode` makes of the claims under the
/// secret, with the default header.
pub uninterp spec fn sealed(claims: ClaimsView, secret: Seq<u8>) -> Option<Seq<char>>;

/// What `jsonwebtoken::decode` finds in a text under the secret, when it
/// checks the signature and the presence of an expiry and leaves the
/// expiry's value alone.
pub uninterp spec fn opened(token: Seq<char>, secret: Seq<u8>) -> Result<
    Map<Seq<char>, JsonMember>,
    OpenFailure,
>;

/// The members that the claims are written as.
pub open spec fn claim_members(claims: ClaimsView) -> Map<Seq<char>, JsonMember> {
    Map::<Seq<char>, JsonMember>::empty().insert("sub"@, JsonMember::Text(claims.sub)).insert(
        "user_id"@,
        JsonMember::Integer(claims.user_id),
    ).insert("role"@, JsonMember::Text(claims.role)).insert(
        "exp"@,
        JsonMember::Integer(claims.exp),
    )
}

/// The string that is the member of that name, where there is one.
pub open spec fn text_at(members: Map<Seq<char>, JsonMember>, name: Seq<char>) -> Option<
    Seq<char>,
> {
    if members.contains_key(name) {
        match members[name] {
            JsonMember::Text(text) => Some(text),
            _ => None,
        }
    } else {
        None
    }
}

/// The integer that is the member of that name, where there is one.
pub open spec fn integer_at(members: Map<Seq<char>, JsonMember>, name: Seq<char>) -> Option<int> {
    if members.contains_key(name) {
        match members[name] {
            JsonMember::Integer(number) => Some(number),
            _ => None,
        }
    } else {
        None
    }
}

/// Reads a string member with `serde_json::Value::get`: `Some` exactly
/// where the document has a member of that name and it is a string.
#[verifier::external_body]
pub(crate) fn member_text(document: &serde_json::Value, name: &str) -> (text: Option<String>)
    ensures
        match text_at(members(*document), name@) {
            Some(found) => text matches Some(read) && read@ == found,
            None => text is None,
        },
{
    match document.get(name) {
        Some(serde_json::Value::String(text)) => Some(text.clone()),
        _ => None,
    }
}

/// Reads an integer member with `serde_json::Value::get` and `as_i64`:
/// `Some` exactly where the document has an integer member of that name
/// and an `i64` holds it.
#[verifier::external_body]
pub(crate) fn member_i64(document: &serde_json::Value, name: &str) -> (number: Option<i64>)
    ensures
        match integer_at(members(*document), name@) {
            Some(found) => if i64::MIN <= found <= i64::MAX {
                number == Some(found as i64)
            } else {
                number is None
            },
            None => number is None,
        },
{
    match document.get(name) {
        Some(member) => member.as_i64(),
        None => None,
    }
}

/// Reads an integer member with `serde_json::Value::get` and `as_u64`:
/// `Some` exactly where the document has an integer member of that name
/// and a `u64` holds it.
#[verifier::external_body]
pub(crate) fn member_u64(document: &serde_json::Value, name: &str) -> (number: Option<u64>)
    ensures
        match integer_at(members(*document), name@) {
            Some(found) => if 0 <= found <= u64::MAX {
                number == Some(found as u64)
            } else {
                number is None
            },
            None => number is None,
        },
{
    match document.get(name) {
        Some(member) => member.as_u64(),
        None => None,
    }
}

/// Calls `jsonwebtoken::encode` on the four claims, in the order `sub`,
/// `user_id`, `role`, `exp`, with the default header and the secret as
/// HMAC key. The token is a function of claims and secret, and
/// `jsonwebtoken::decode` under the same secret finds in it the members
/// that were written.
#[verifier::external_body]
pub(crate) fn seal(claims: &Claims, secret: &[u8]) -> (token: Option<String>)
    ensures
        match token {
            Some(text) => {
                &&& sealed(claims@, secret@) == Some(text@)
                &&& opened(text@, secret@) matches Ok(content) && content == claim_members(claims@)
            },
            None => sealed(claims@, secret@) is None,
        },
{
    let mut payload = serde_json::Map::new();
    payload.insert("sub".to_string(), serde_json::Value::from(claims.sub.as_str()));
    payload.insert("user_id".to_string(), serde_json::Value::from(claims.user_id));
    payload.insert("role".to_string(), serde_json::Value::from(claims.role.as_str()));
    payload.insert("exp".to_string(), serde_json::Value::from(claims.exp));
    let key = jsonwebtoken::EncodingKey::from_secret(secret);
    jsonwebtoken::encode(&jsonwebtoken::Header::default(), &payload, &key).ok()
}

/// Calls `jsonwebtoken::decode` with the default validation, except that
/// the expiry's value is not compared with the clock: the result is a
/// function of text and secret. A signature that does not match is told
/// apart from every other failure.
#[verifier::external_body]
pub(crate) fn open(token: &str, secret: &[u8]) -> (payload: Result<serde_json::Value, OpenFailure>)
    ensures
        match payload {
            Ok(document) => opened(token@, secret@) matches Ok(content) && content == members(
                document,
            ),
            Err(failure) => opened(token@, secret@) matches Err(reason) && reason == failure,
        },
{
    let mut rules = jsonwebtoken::Validation::default();
    rules.validate_exp = false;
    let key = jsonwebtoken::DecodingKey::from_secret(secret);
    match jsonwebtoken::decode::<serde_json::Value>(token, &key, &rules) {
        Ok(data) => Ok(data.claims),
        Err(error) => match error.kind() {
            jsonwebtoken::errors::ErrorKind::InvalidSignature => Err(OpenFailure::InvalidSignature),
            _ => Err(OpenFailure::Malformed),
        },
    }
}

} // verus!
