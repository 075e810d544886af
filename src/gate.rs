//! Request-time authentication: a decoded bearer token or an API key becomes
//! an active account, or a typed failure; the optional variant degrades every
//! failure to no account.

use crate::api_key::{hash_api_key, key_digest, validate_api_key_format, well_formed_key};
use crate::error::AppError;
use crate::model::User;
use crate::session::AuthStore;
use crate::store::{has_id, UserRepository};
use crate::token::{extract_user_id, token_verdict, uuid_value, validate_token, Claims, TokenType};
use vstd::prelude::*;

verus! {

/// Whether `u` is an active account among `users` with the id the token's subject names.
pub open spec fn admits(users: Seq<User>, decoded: Option<Claims>, now: i64, u: User) -> bool {
    &&& token_verdict(decoded, TokenType::Access, now) matches Ok(c)
    &&& uuid_value(c.sub@) == Some(u.id)
    &&& exists|i: int| 0 <= i < users.len() && #[trigger] users[i] == u && has_id(u, u.id)
    &&& u.active()
}

/// Whether an account that is not soft-deleted has this id.
pub open spec fn owner_exists(users: Seq<User>, id: u128) -> bool {
    exists|i: int| 0 <= i < users.len() && has_id(#[trigger] users[i], id)
}

/// Whether an account that is not soft-deleted has this id and is active.
pub open spec fn active_with_id(users: Seq<User>, id: u128) -> bool {
    exists|i: int| 0 <= i < users.len() && has_id(#[trigger] users[i], id) && users[i].active()
}

/// Accepts a decoded bearer token as an access token and resolves its subject
/// to an active account.
pub fn authenticate(users: &UserRepository, decoded: Option<Claims>, now: i64) -> (r: Result<
    User,
    AppError,
>)
    requires
        users.wf(),
    ensures
        token_verdict(decoded, TokenType::Access, now) matches Err(e) ==> r == Err::<
            User,
            AppError,
        >(e),
        token_verdict(decoded, TokenType::Access, now) matches Ok(c) ==> match uuid_value(c.sub@) {
            None => r matches Err(AppError::TokenInvalid),
            Some(id) => {
                &&& (!exists|i: int|
                    0 <= i < users.users@.len() && has_id(#[trigger] users.users@[i], id)) ==> (r matches Err(
                    AppError::Unauthorized(_),
                ))
                &&& (exists|i: int|
                    0 <= i < users.users@.len() && has_id(#[trigger] users.users@[i], id))
                    && !active_with_id(users.users@, id) ==> (r matches Err(AppError::Forbidden))
            },
        },
        r matches Ok(u) ==> admits(users.users@, decoded, now, u),
        r matches Err(AppError::Forbidden) ==> token_verdict(decoded, TokenType::Access, now) matches Ok(c)
            && uuid_value(c.sub@) matches Some(id) && !active_with_id(users.users@, id),
        (token_verdict(decoded, TokenType::Access, now) matches Ok(c) && uuid_value(c.sub@) matches Some(id)
            && active_with_id(users.users@, id)) ==> r is Ok,
{
    let claims = validate_token(decoded, TokenType::Access, now)?;
    let user_id = extract_user_id(&claims)?;
    let user = match users.find_by_id(user_id) {
        Some(u) => u,
        None => return Err(AppError::Unauthorized(String::from_str("User not found"))),
    };
    proof {
        assert forall|i: int, j: int|
            0 <= i < users.users@.len() && 0 <= j < users.users@.len() && users.users@[i].id
                == users.users@[j].id implies i == j by {
            if i < j {
                assert(users.users@[i].id != users.users@[j].id);
            } else if j < i {
                assert(users.users@[j].id != users.users@[i].id);
            }
        }
    }
    if !user.is_active() {
        return Err(AppError::Forbidden);
    }
    Ok(user)
}

/// The same path as `authenticate`, with every failure read as no account.
pub fn authenticate_optional(users: &UserRepository, decoded: Option<Claims>, now: i64) -> (r: Option<
    User,
>)
    requires
        users.wf(),
    ensures
        r matches Some(u) ==> admits(users.users@, decoded, now, u),
        r is Some <==> (token_verdict(decoded, TokenType::Access, now) matches Ok(c)
            && uuid_value(c.sub@) matches Some(id) && active_with_id(users.users@, id)),
{
    match authenticate(users, decoded, now) {
        Ok(u) => Some(u),
        Err(_) => None,
    }
}

/// Authenticates an API key: its shape, a valid stored record with its hash,
/// and an active owner.
pub fn authenticate_api_key(store: &AuthStore, key: &str, now: i64) -> (r: Result<User, AppError>)
    requires
        store.wf(),
    ensures
        !well_formed_key(key@) ==> r matches Err(AppError::Unauthorized(_)),
        well_formed_key(key@) && !store.api_keys.has_valid(key_digest(key@), now) ==> r matches Err(
            AppError::Unauthorized(_),
        ),
        r matches Ok(u) ==> well_formed_key(key@) && u.active() && (exists|i: int|
            0 <= i < store.api_keys.keys@.len() && (#[trigger] store.api_keys.keys@[i]).key_hash@
                == key_digest(key@) && store.api_keys.keys@[i].valid_at(now)
                && store.api_keys.keys@[i].user_id == u.id) && (exists|i: int|
            0 <= i < store.users.users@.len() && #[trigger] store.users.users@[i] == u
                && has_id(u, u.id)),
        r matches Err(e) ==> e is Unauthorized || e is Forbidden,
        well_formed_key(key@) && store.api_keys.has_valid(key_digest(key@), now) && (forall|i: int|
            0 <= i < store.api_keys.keys@.len() && (#[trigger] store.api_keys.keys@[i]).key_hash@
                == key_digest(key@) && store.api_keys.keys@[i].valid_at(now) ==> active_with_id(
                store.users.users@,
                store.api_keys.keys@[i].user_id,
            )) ==> r is Ok,
        well_formed_key(key@) && store.api_keys.has_valid(key_digest(key@), now) && (forall|i: int|
            0 <= i < store.api_keys.keys@.len() && (#[trigger] store.api_keys.keys@[i]).key_hash@
                == key_digest(key@) && store.api_keys.keys@[i].valid_at(now) ==> owner_exists(
                store.users.users@,
                store.api_keys.keys@[i].user_id,
            ) && !active_with_id(store.users.users@, store.api_keys.keys@[i].user_id))
            ==> r matches Err(AppError::Forbidden),
        well_formed_key(key@) && store.api_keys.has_valid(key_digest(key@), now) && (forall|i: int|
            0 <= i < store.api_keys.keys@.len() && (#[trigger] store.api_keys.keys@[i]).key_hash@
                == key_digest(key@) && store.api_keys.keys@[i].valid_at(now) ==> !owner_exists(
                store.users.users@,
                store.api_keys.keys@[i].user_id,
            )) ==> r matches Err(AppError::Unauthorized(_)),
{
    if !validate_api_key_format(key) {
        return Err(AppError::Unauthorized(String::from_str("Invalid API key format")));
    }
    let key_hash = hash_api_key(key);
    let record = match store.api_keys.find_by_hash(key_hash.as_str(), now) {
        Some(k) => k,
        None => return Err(AppError::Unauthorized(String::from_str("Invalid API key"))),
    };
    if !record.is_valid(now) {
        return Err(AppError::Unauthorized(String::from_str("API key is revoked or expired")));
    }
    let user = match store.users.find_by_id(record.user_id) {
        Some(u) => u,
        None => return Err(AppError::Unauthorized(String::from_str("User not found"))),
    };
    proof {
        assert forall|i: int, j: int|
            0 <= i < store.users.users@.len() && 0 <= j < store.users.users@.len()
                && store.users.users@[i].id == store.users.users@[j].id implies i == j by {
            if i < j {
                assert(store.users.users@[i].id != store.users.users@[j].id);
            } else if j < i {
                assert(store.users.users@[j].id != store.users.users@[i].id);
            }
        }
    }
    if !user.is_active() {
        return Err(AppError::Forbidden);
    }
    Ok(user)
}

} // verus!
