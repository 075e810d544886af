//! Claims of signed access and refresh tokens, and the verdict on a decoded token.
//! Signing and signature checking happen around this module; here a token is
//! represented by the claims that its signature covers.

use crate::api_key::hex_of;
use crate::error::AppError;
use crate::model::{role_name, role_text, UserRole};
use vstd::prelude::*;

verus! {

#[derive(PartialEq, Eq, Structural, Clone, Copy, Debug)]
pub enum TokenType {
    Access,
    Refresh,
}

/// The payload of a token.
#[derive(Debug)]
pub struct Claims {
    /// The account identifier, in hyphenated form.
    pub sub: String,
    pub email: String,
    pub role: String,
    /// Expiry, in seconds since the epoch.
    pub exp: i64,
    /// Issue time, in seconds since the epoch.
    pub iat: i64,
    pub token_type: TokenType,
    /// Identifier of this token, so that two tokens issued in the same second differ.
    pub jti: String,
}

/// The last `n` bytes of `v`, most significant first.
pub open spec fn be_bytes(v: nat, n: nat) -> Seq<u8>
    decreases n,
{
    if n == 0 {
        Seq::empty()
    } else {
        be_bytes(v / 256, (n - 1) as nat).push((v % 256) as u8)
    }
}

/// The hyphenated lowercase text of a UUID: its 16 big-endian bytes in hex,
/// in groups of 8, 4, 4, 4 and 12 digits.
pub open spec fn uuid_text(id: u128) -> Seq<char> {
    let h = hex_of(be_bytes(id as nat, 16));
    h.subrange(0, 8) + seq!['-'] + h.subrange(8, 12) + seq!['-'] + h.subrange(12, 16) + seq!['-']
        + h.subrange(16, 20) + seq!['-'] + h.subrange(20, 32)
}

/// The UUID that a text denotes, if it is one.
pub uninterp spec fn uuid_value(s: Seq<char>) -> Option<u128>;

/// Relies on uuid::Uuid::from_u128 and its Display: the hyphenated form, a function of the value.
#[verifier::external_body]
fn uuid_string(id: u128) -> (r: String)
    ensures
        r@ == uuid_text(id),
{
    uuid::Uuid::from_u128(id).to_string()
}

/// Relies on uuid::Uuid::parse_str, which accepts the hyphenated form that Display writes.
#[verifier::external_body]
fn parse_uuid(s: &str) -> (r: Option<u128>)
    ensures
        r == uuid_value(s@),
        forall|id: u128| s@ == #[trigger] uuid_text(id) ==> r == Some(id),
{
    uuid::Uuid::parse_str(s).ok().map(|u| u.as_u128())
}

/// `c` holds what `issue_claims` writes for these arguments.
pub open spec fn issued_as(
    c: Claims,
    kind: TokenType,
    user_id: u128,
    token_id: u128,
    email: Seq<char>,
    role: UserRole,
    now: int,
    ttl: int,
) -> bool {
    &&& c.jti@ == uuid_text(token_id)
    &&& c.sub@ == uuid_text(user_id)
    &&& c.email@ == email
    &&& c.role@ == role_text(role)
    &&& c.iat == now
    &&& c.exp == now + ttl
    &&& c.token_type == kind
}

/// Claims for a token of `kind` with id `token_id`, issued at `now` and expiring `ttl` seconds later.
pub fn issue_claims(
    kind: TokenType,
    user_id: u128,
    token_id: u128,
    email: &str,
    role: UserRole,
    now: i64,
    ttl: i64,
) -> (r: Claims)
    requires
        i64::MIN <= now + ttl <= i64::MAX,
    ensures
        issued_as(r, kind, user_id, token_id, email@, role, now as int, ttl as int),
{
    Claims {
        sub: uuid_string(user_id),
        email: String::from_str(email),
        role: String::from_str(role_name(role)),
        exp: now + ttl,
        iat: now,
        token_type: kind,
        jti: uuid_string(token_id),
    }
}

/// The outcome of checking a decoded token: `None` stands for a token whose
/// signature or structure did not check. The kind is checked before the expiry.
pub open spec fn token_verdict(decoded: Option<Claims>, expected: TokenType, now: i64) -> Result<
    Claims,
    AppError,
> {
    match decoded {
        None => Err(AppError::TokenInvalid),
        Some(c) => if c.token_type != expected {
            Err(AppError::TokenInvalid)
        } else if c.exp < now {
            Err(AppError::TokenExpired)
        } else {
            Ok(c)
        },
    }
}

/// Accepts the claims of a decoded token if they are of the expected kind and unexpired at `now`.
pub fn validate_token(decoded: Option<Claims>, expected: TokenType, now: i64) -> (r: Result<
    Claims,
    AppError,
>)
    ensures
        r == token_verdict(decoded, expected, now),
{
    match decoded {
        None => Err(AppError::TokenInvalid),
        Some(c) => {
            if c.token_type != expected {
                Err(AppError::TokenInvalid)
            } else if c.exp < now {
                Err(AppError::TokenExpired)
            } else {
                Ok(c)
            }
        },
    }
}

/// The account identifier named by the claims' subject.
pub fn extract_user_id(claims: &Claims) -> (r: Result<u128, AppError>)
    ensures
        match uuid_value(claims.sub@) {
            Some(id) => r == Ok::<u128, AppError>(id),
            None => r == Err::<u128, AppError>(AppError::TokenInvalid),
        },
        forall|id: u128| claims.sub@ == #[trigger] uuid_text(id) ==> r == Ok::<u128, AppError>(id),
{
    match parse_uuid(claims.sub.as_str()) {
        Some(id) => Ok(id),
        None => Err(AppError::TokenInvalid),
    }
}

/// A token checked at the moment it was issued, with a non-negative lifetime and
/// the kind it was issued as, is accepted with the claims it carries: the same
/// subject, email and role.
pub proof fn issued_token_is_accepted(
    c: Claims,
    kind: TokenType,
    user_id: u128,
    token_id: u128,
    email: Seq<char>,
    role: UserRole,
    now: i64,
    ttl: i64,
)
    requires
        issued_as(c, kind, user_id, token_id, email, role, now as int, ttl as int),
        ttl >= 0,
    ensures
        token_verdict(Some(c), kind, now) == Ok::<Claims, AppError>(c),
        c.sub@ == uuid_text(user_id),
        c.email@ == email,
        c.role@ == role_text(role),
{
}

/// A token presented as the other kind is refused as invalid, at any time,
/// never as expired.
pub proof fn wrong_kind_is_invalid(c: Claims, expected: TokenType, now: i64)
    requires
        c.token_type != expected,
    ensures
        token_verdict(Some(c), expected, now) matches Err(AppError::TokenInvalid),
{
}

/// A token of the right kind whose expiry has passed is refused as expired.
pub proof fn elapsed_token_is_expired(c: Claims, expected: TokenType, now: i64)
    requires
        c.token_type == expected,
        c.exp < now,
    ensures
        token_verdict(Some(c), expected, now) matches Err(AppError::TokenExpired),
{
}

} // verus!
