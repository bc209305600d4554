//! The token codec: claims, and the signed tokens that carry them.

use vstd::prelude::*;
use vstd::string::*;

use crate::utils::hs256::claim_members;
use crate::utils::hs256::integer_at;
use crate::utils::hs256::member_i64;
use crate::utils::hs256::member_text;
use crate::utils::hs256::member_u64;
use crate::utils::hs256::members;
use crate::utils::hs256::open;
use crate::utils::hs256::opened;
use crate::utils::hs256::seal;
use crate::utils::hs256::sealed;
use crate::utils::hs256::text_at;
use crate::utils::hs256::JsonMember;
use crate::utils::hs256::OpenFailure;

verus! {

/// What a token asserts about its bearer.
#[derive(Debug)]
pub struct Claims {
    /// The user's name.
    pub sub: String,
    pub user_id: i32,
    /// The name of the user's role.
    pub role: String,
    /// The second, counted from the Unix epoch, at which the token stops
    /// being valid.
    pub exp: usize,
}

/// Claims as mathematical values.
pub struct ClaimsView {
    pub sub: Seq<char>,
    pub user_id: int,
    pub role: Seq<char>,
    pub exp: int,
}

impl View for Claims {
    type V = ClaimsView;

    open spec fn view(&self) -> ClaimsView {
        ClaimsView {
            sub: self.sub@,
            user_id: self.user_id as int,
            role: self.role@,
            exp: self.exp as int,
        }
    }
}

impl Clone for Claims {
    fn clone(&self) -> (copy: Self)
        ensures
            copy == *self,
    {
        Claims {
            sub: self.sub.clone(),
            user_id: self.user_id,
            role: self.role.clone(),
            exp: self.exp,
        }
    }
}

/// Why a token could not be made or was not accepted.
#[derive(Debug, Clone, Copy, PartialEq, Eq, Structural)]
pub enum TokenError {
    /// The claims could not be signed.
    SigningFailure,
    /// The signature does not belong to the token's content.
    InvalidSignature,
    /// The text is no token, or its content is no set of claims.
    Malformed,
    /// The token was valid once and no longer is.
    Expired,
}

/// The claims that a token's content holds: a string `sub`, an integer
/// `user_id` that an `i32` holds, a string `role` and an integer `exp` that
/// a `usize` holds. Other members are ignored; a content that lacks one of
/// the four, or holds it in another form, carries no claims.
pub open spec fn claims_in(content: Map<Seq<char>, JsonMember>) -> Option<ClaimsView> {
    match (
        text_at(content, "sub"@),
        integer_at(content, "user_id"@),
        text_at(content, "role"@),
        integer_at(content, "exp"@),
    ) {
        (Some(sub), Some(user_id), Some(role), Some(exp)) => if i32::MIN <= user_id <= i32::MAX
            && 0 <= exp <= usize::MAX {
            Some(ClaimsView { sub, user_id, role, exp })
        } else {
            None
        },
        _ => None,
    }
}

/// The token for the claims, where they can be signed.
pub open spec fn issued(claims: ClaimsView, secret: Seq<u8>) -> Result<Seq<char>, TokenError> {
    match sealed(claims, secret) {
        Some(token) => Ok(token),
        None => Err(TokenError::SigningFailure),
    }
}

/// The claims are good at `now` while their expiry lies strictly ahead.
pub open spec fn still_valid(claims: ClaimsView, now: int) -> Result<ClaimsView, TokenError> {
    if claims.exp > now {
        Ok(claims)
    } else {
        Err(TokenError::Expired)
    }
}

/// What verification makes of a text at the second `now`: a text that
/// does not open under the secret is rejected for the reason it did not;
/// so is a content that carries no claims; claims are accepted until they
/// expire.
pub open spec fn verified(token: Seq<char>, secret: Seq<u8>, now: int) -> Result<
    ClaimsView,
    TokenError,
> {
    match opened(token, secret) {
        Err(OpenFailure::InvalidSignature) => Err(TokenError::InvalidSignature),
        Err(OpenFailure::Malformed) => Err(TokenError::Malformed),
        Ok(content) => match claims_in(content) {
            Some(claims) => still_valid(claims, now),
            None => Err(TokenError::Malformed),
        },
    }
}

/// Claims written as members are read back unchanged.
pub proof fn lemma_claims_survive_writing(claims: Claims)
    ensures
        claims_in(claim_members(claims@)) == Some(claims@),
{
    reveal_strlit("sub");
    reveal_strlit("user_id");
    reveal_strlit("role");
    reveal_strlit("exp");
    assert("sub"@.len() == 3 && "user_id"@.len() == 7 && "role"@.len() == 4);
    assert("sub"@[0] == 's' && "exp"@[0] == 'e');
}

/// A token whose content is the claims verifies to exactly these claims at
/// every second before their expiry, and is expired at the expiry and at
/// every second after it.
pub proof fn lemma_verify_follows_expiry(
    claims: Claims,
    token: Seq<char>,
    secret: Seq<u8>,
    now: int,
)
    requires
        opened(token, secret) matches Ok(content) && content == claim_members(claims@),
    ensures
        now < claims.exp ==> verified(token, secret, now) == Ok::<ClaimsView, TokenError>(claims@),
        now >= claims.exp ==> verified(token, secret, now) == Err::<ClaimsView, TokenError>(
            TokenError::Expired,
        ),
{
    lemma_claims_survive_writing(claims);
}

/// Reads the claims out of a token's content.
pub fn claims_from_document(document: &serde_json::Value) -> (claims: Option<Claims>)
    ensures
        match claims_in(members(*document)) {
            Some(view) => claims matches Some(read) && read@ == view,
            None => claims is None,
        },
{
    let sub = match member_text(document, "sub") {
        Some(text) => text,
        None => return None,
    };
    let user_id = match member_i64(document, "user_id") {
        Some(number) => number,
        None => return None,
    };
    let role = match member_text(document, "role") {
        Some(text) => text,
        None => return None,
    };
    let exp = match member_u64(document, "exp") {
        Some(number) => number,
        None => return None,
    };
    if user_id < i32::MIN as i64 || user_id > i32::MAX as i64 || exp > usize::MAX as u64 {
        return None;
    }
    Some(Claims { sub, user_id: user_id as i32, role, exp: exp as usize })
}

/// Accepts claims whose expiry lies strictly after `now`; at the expiry
/// itself they are expired.
pub fn check_expiry(claims: Claims, now: usize) -> (checked: Result<Claims, TokenError>)
    ensures
        match still_valid(claims@, now as int) {
            Ok(_) => checked == Ok::<Claims, TokenError>(claims),
            Err(error) => checked == Err::<Claims, TokenError>(error),
        },
{
    if claims.exp > now {
        Ok(claims)
    } else {
        Err(TokenError::Expired)
    }
}

/// Issues the token that carries the claims, signed with the secret. Under
/// the same secret the token verifies to these claims at every second
/// before `claims.exp`, and is expired from that second on.
pub fn generate_token(claims: &Claims, secret: &[u8]) -> (token: Result<String, TokenError>)
    ensures
        match issued(claims@, secret@) {
            Ok(text) => token matches Ok(made) && made@ == text,
            Err(error) => token == Err::<String, TokenError>(error),
        },
        token matches Ok(made) ==> forall|now: int| #[trigger]
            verified(made@, secret@, now) == still_valid(claims@, now),
{
    match seal(claims, secret) {
        Some(text) => {
            assert forall|now: int| #[trigger]
                verified(text@, secret@, now) == still_valid(claims@, now) by {
                lemma_verify_follows_expiry(*claims, text@, secret@, now);
            }
            Ok(text)
        },
        None => Err(TokenError::SigningFailure),
    }
}

/// Verifies a token at the second `now` and returns the claims it carries.
pub fn validate_token(token: &str, secret: &[u8], now: usize) -> (claims: Result<
    Claims,
    TokenError,
>)
    ensures
        match verified(token@, secret@, now as int) {
            Ok(view) => claims matches Ok(read) && read@ == view,
            Err(error) => claims == Err::<Claims, TokenError>(error),
        },
{
    match open(token, secret) {
        Err(OpenFailure::InvalidSignature) => Err(TokenError::InvalidSignature),
        Err(OpenFailure::Malformed) => Err(TokenError::Malformed),
        Ok(document) => match claims_from_document(&document) {
            Some(claims) => check_expiry(claims, now),
            None => Err(TokenError::Malformed),
        },
    }
}

} // verus!
