//! Accounts, refresh sessions and API-key records, with their validity predicates.
//! Identifiers are 128-bit values; timestamps are seconds since the Unix epoch.

use vstd::prelude::*;

verus! {

#[derive(PartialEq, Eq, Structural, Clone, Copy, Debug)]
pub enum UserRole {
    Admin,
    User,
}

#[derive(PartialEq, Eq, Structural, Clone, Copy, Debug)]
pub enum UserStatus {
    Active,
    Suspended,
    Deleted,
}

/// Lowercase name of a role, as it appears in token claims and responses.
pub open spec fn role_text(role: UserRole) -> Seq<char> {
    match role {
        UserRole::Admin => seq!['a', 'd', 'm', 'i', 'n'],
        UserRole::User => seq!['u', 's', 'e', 'r'],
    }
}

pub fn role_name(role: UserRole) -> (r: &'static str)
    ensures
        r@ == role_text(role),
{
    proof {
        reveal_strlit("admin");
        reveal_strlit("user");
    }
    match role {
        UserRole::Admin => "admin",
        UserRole::User => "user",
    }
}

pub open spec fn status_text(status: UserStatus) -> Seq<char> {
    match status {
        UserStatus::Active => seq!['a', 'c', 't', 'i', 'v', 'e'],
        UserStatus::Suspended => seq!['s', 'u', 's', 'p', 'e', 'n', 'd', 'e', 'd'],
        UserStatus::Deleted => seq!['d', 'e', 'l', 'e', 't', 'e', 'd'],
    }
}

pub fn status_name(status: UserStatus) -> (r: &'static str)
    ensures
        r@ == status_text(status),
{
    proof {
        reveal_strlit("active");
        reveal_strlit("suspended");
        reveal_strlit("deleted");
    }
    match status {
        UserStatus::Active => "active",
        UserStatus::Suspended => "suspended",
        UserStatus::Deleted => "deleted",
    }
}

/// A copy of an optional text, equal to it.
pub fn copy_text(o: &Option<String>) -> (r: Option<String>)
    ensures
        r == *o,
{
    match o {
        Some(s) => Some(s.clone()),
        None => None,
    }
}

/// An account.
pub struct User {
    pub id: u128,
    pub email: Option<String>,
    pub username: String,
    pub full_name: String,
    pub password_hash: Option<String>,
    pub role: UserRole,
    pub status: UserStatus,
    pub created_at: i64,
    pub updated_at: i64,
    pub deleted_at: Option<i64>,
}

/// An account view without the password hash.
pub struct SafeUser {
    pub id: u128,
    pub email: Option<String>,
    pub username: String,
    pub full_name: String,
    pub role: UserRole,
    pub status: UserStatus,
    pub created_at: i64,
}

impl User {
    /// Active: not soft-deleted and with status active.
    pub open spec fn active(&self) -> bool {
        self.deleted_at.is_none() && self.status == UserStatus::Active
    }

    pub fn is_active(&self) -> (r: bool)
        ensures
            r == self.active(),
    {
        self.deleted_at.is_none() && self.status == UserStatus::Active
    }

    pub fn is_admin(&self) -> (r: bool)
        ensures
            r == (self.role == UserRole::Admin),
    {
        self.role == UserRole::Admin
    }

    /// Whether the account can sign in with email and password.
    pub fn has_dashboard_access(&self) -> (r: bool)
        ensures
            r == (self.email.is_some() && self.password_hash.is_some()),
    {
        self.email.is_some() && self.password_hash.is_some()
    }

    pub fn to_safe_user(&self) -> (r: SafeUser)
        ensures
            r.id == self.id,
            r.email == self.email,
            r.username == self.username,
            r.full_name == self.full_name,
            r.role == self.role,
            r.status == self.status,
            r.created_at == self.created_at,
    {
        SafeUser {
            id: self.id,
            email: copy_text(&self.email),
            username: self.username.clone(),
            full_name: self.full_name.clone(),
            role: self.role,
            status: self.status,
            created_at: self.created_at,
        }
    }

    pub fn copy(&self) -> (r: User)
        ensures
            r == *self,
    {
        User {
            id: self.id,
            email: copy_text(&self.email),
            username: self.username.clone(),
            full_name: self.full_name.clone(),
            password_hash: copy_text(&self.password_hash),
            role: self.role,
            status: self.status,
            created_at: self.created_at,
            updated_at: self.updated_at,
            deleted_at: self.deleted_at,
        }
    }
}

/// A persisted refresh session, keyed by the hash of its token.
pub struct RefreshToken {
    pub id: u128,
    pub user_id: u128,
    pub token_hash: String,
    pub device_info: Option<String>,
    pub ip_address: Option<String>,
    pub user_agent: Option<String>,
    pub expires_at: i64,
    pub revoked_at: Option<i64>,
    pub created_at: i64,
    pub last_used_at: Option<i64>,
}

impl RefreshToken {
    /// Valid: not revoked and expiring after `now`.
    pub open spec fn valid_at(&self, now: i64) -> bool {
        self.revoked_at.is_none() && self.expires_at > now
    }

    pub fn is_valid(&self, now: i64) -> (r: bool)
        ensures
            r == self.valid_at(now),
    {
        self.revoked_at.is_none() && self.expires_at > now
    }

    pub fn copy(&self) -> (r: RefreshToken)
        ensures
            r == *self,
    {
        RefreshToken {
            id: self.id,
            user_id: self.user_id,
            token_hash: self.token_hash.clone(),
            device_info: copy_text(&self.device_info),
            ip_address: copy_text(&self.ip_address),
            user_agent: copy_text(&self.user_agent),
            expires_at: self.expires_at,
            revoked_at: self.revoked_at,
            created_at: self.created_at,
            last_used_at: self.last_used_at,
        }
    }
}

/// A persisted API key, keyed by the hash of the full key.
pub struct ApiKey {
    pub id: u128,
    pub user_id: u128,
    pub name: String,
    pub key_prefix: String,
    pub key_hash: String,
    pub last_used_at: Option<i64>,
    pub expires_at: Option<i64>,
    pub revoked_at: Option<i64>,
    pub created_at: i64,
    pub updated_at: i64,
}

impl ApiKey {
    /// Valid: not revoked, and either without expiry or expiring after `now`.
    pub open spec fn valid_at(&self, now: i64) -> bool {
        self.revoked_at.is_none() && match self.expires_at {
            Some(exp) => exp > now,
            None => true,
        }
    }

    pub fn is_valid(&self, now: i64) -> (r: bool)
        ensures
            r == self.valid_at(now),
    {
        self.revoked_at.is_none() && match self.expires_at {
            Some(exp) => exp > now,
            None => true,
        }
    }

    pub fn copy(&self) -> (r: ApiKey)
        ensures
            r == *self,
    {
        ApiKey {
            id: self.id,
            user_id: self.user_id,
            name: self.name.clone(),
            key_prefix: self.key_prefix.clone(),
            key_hash: self.key_hash.clone(),
            last_used_at: self.last_used_at,
            expires_at: self.expires_at,
            revoked_at: self.revoked_at,
            created_at: self.created_at,
            updated_at: self.updated_at,
        }
    }
}

} // verus!

verus! {

/// Whether two texts are equal.
pub fn same_text(a: &str, b: &str) -> (r: bool)
    ensures
        r == (a@ == b@),
{
    let n = a.unicode_len();
    let m = b.unicode_len();
    if n != m {
        return false;
    }
    let r = crate::api_key::has_prefix(a, b);
    assert(a@ =~= a@.subrange(0, b@.len() as int));
    r
}

} // verus!
