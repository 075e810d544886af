//! Request and response bodies of the credential endpoints.

use crate::model::{ApiKey, SafeUser};
use vstd::prelude::*;

verus! {

pub struct RegisterRequest {
    pub email: String,
    pub username: String,
    pub full_name: String,
    pub password: String,
}

pub struct LoginRequest {
    pub email: String,
    pub password: String,
}

pub struct RefreshTokenRequest {
    pub refresh_token: String,
}

pub struct RefreshTokenResponse {
    pub access_token: String,
    pub refresh_token: String,
}

pub struct LogoutRequest {
    pub refresh_token: String,
}

pub struct LogoutResponse {
    pub message: String,
}

pub struct CreateApiKeyRequest {
    pub name: String,
    pub is_live: bool,
    pub expires_in_days: Option<i64>,
}

/// Key metadata as listed to its owner; it never holds the key itself.
pub struct ApiKeyListItem {
    pub id: u128,
    pub name: String,
    pub key_prefix: String,
    pub last_used_at: Option<i64>,
    pub created_at: i64,
    pub expires_at: Option<i64>,
}

/// The key is identified by the path, not the body.
pub struct RevokeApiKeyRequest {}

pub struct RevokeApiKeyResponse {
    pub message: String,
}

pub struct HealthResponse {
    pub status: String,
    pub version: String,
    pub database: DatabaseHealth,
}

pub struct DatabaseHealth {
    pub connected: bool,
    pub error: Option<String>,
}

/// `item` lists `k`.
pub open spec fn lists(item: ApiKeyListItem, k: ApiKey) -> bool {
    &&& item.id == k.id
    &&& item.name == k.name
    &&& item.key_prefix == k.key_prefix
    &&& item.last_used_at == k.last_used_at
    &&& item.created_at == k.created_at
    &&& item.expires_at == k.expires_at
}

impl ApiKeyListItem {
    pub fn from_key(k: &ApiKey) -> (r: ApiKeyListItem)
        ensures
            lists(r, *k),
    {
        ApiKeyListItem {
            id: k.id,
            name: k.name.clone(),
            key_prefix: k.key_prefix.clone(),
            last_used_at: k.last_used_at,
            created_at: k.created_at,
            expires_at: k.expires_at,
        }
    }
}

/// The current account, without its password hash.
pub struct MeResponse {
    pub user: SafeUser,
}

} // verus!
