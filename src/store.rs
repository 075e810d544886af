//! Persisted credential records: refresh sessions, API keys and accounts.
//! Records are never deleted; revocation marks them.

use crate::error::AppError;
use crate::model::{copy_text, same_text, ApiKey, RefreshToken, User, UserRole, UserStatus};
use vstd::prelude::*;

verus! {

/// Seconds in a day.
pub const SECONDS_PER_DAY: i64 = 86400;

/// `t` with its revocation time set to `at`.
pub open spec fn session_revoked(t: RefreshToken, at: i64) -> RefreshToken {
    RefreshToken { revoked_at: Some(at), ..t }
}

/// `tokens` after revoking, at `at`, every unrevoked session whose hash is `digest`.
pub open spec fn sessions_revoked(tokens: Seq<RefreshToken>, digest: Seq<char>, at: i64) -> Seq<
    RefreshToken,
> {
    Seq::new(
        tokens.len(),
        |i: int|
            if tokens[i].token_hash@ == digest && tokens[i].revoked_at.is_none() {
                session_revoked(tokens[i], at)
            } else {
                tokens[i]
            },
    )
}

/// `t` with its last-used time set to `at`.
pub open spec fn session_touched(t: RefreshToken, at: i64) -> RefreshToken {
    RefreshToken { last_used_at: Some(at), ..t }
}

/// `k` revoked at `at`.
pub open spec fn key_revoked(k: ApiKey, at: i64) -> ApiKey {
    ApiKey { revoked_at: Some(at), updated_at: at, ..k }
}

/// `k` with its last-used time set to `at`.
pub open spec fn key_touched(k: ApiKey, at: i64) -> ApiKey {
    ApiKey { last_used_at: Some(at), ..k }
}

/// Refresh sessions.
pub struct RefreshTokenRepository {
    pub tokens: Vec<RefreshToken>,
    pub next_id: u128,
}

impl RefreshTokenRepository {
    pub fn new() -> (r: RefreshTokenRepository)
        ensures
            r.tokens@.len() == 0,
    {
        RefreshTokenRepository { tokens: Vec::new(), next_id: 1 }
    }

    /// Whether some session with this hash is valid at `now`.
    pub open spec fn has_valid(&self, token_hash: Seq<char>, now: i64) -> bool {
        exists|i: int|
            0 <= i < self.tokens@.len() && (#[trigger] self.tokens@[i]).token_hash@ == token_hash
                && self.tokens@[i].valid_at(now)
    }

    /// Opens a session for `user_id`, expiring `expires_in_seconds` after `now`.
    /// Fails with `Database` only when identifiers are exhausted.
    pub fn create(
        &mut self,
        user_id: u128,
        token_hash: &str,
        expires_in_seconds: i64,
        device_info: Option<String>,
        ip_address: Option<String>,
        user_agent: Option<String>,
        now: i64,
    ) -> (r: Result<RefreshToken, AppError>)
        requires
            i64::MIN <= now + expires_in_seconds <= i64::MAX,
        ensures
            old(self).next_id == u128::MAX ==> r is Err && *final(self) == *old(self),
            old(self).next_id < u128::MAX ==> (r matches Ok(t) && final(self).tokens@
                == old(self).tokens@.push(t) && final(self).next_id == old(self).next_id + 1
                && t.id == old(self).next_id && t.user_id == user_id && t.token_hash@
                == token_hash@ && t.device_info == device_info && t.ip_address == ip_address
                && t.user_agent == user_agent && t.expires_at == now + expires_in_seconds
                && t.revoked_at.is_none() && t.created_at == now && t.last_used_at.is_none()),
    {
        if self.next_id == u128::MAX {
            return Err(AppError::Database);
        }
        let t = RefreshToken {
            id: self.next_id,
            user_id,
            token_hash: String::from_str(token_hash),
            device_info,
            ip_address,
            user_agent,
            expires_at: now + expires_in_seconds,
            revoked_at: None,
            created_at: now,
            last_used_at: None,
        };
        self.next_id = self.next_id + 1;
        self.tokens.push(t.copy());
        Ok(t)
    }

    /// A session with this hash that is valid at `now`, if there is one.
    pub fn find_by_hash(&self, token_hash: &str, now: i64) -> (r: Option<RefreshToken>)
        ensures
            r is Some <==> self.has_valid(token_hash@, now),
            r matches Some(t) ==> exists|i: int|
                0 <= i < self.tokens@.len() && #[trigger] self.tokens@[i] == t && t.token_hash@
                    == token_hash@ && t.valid_at(now),
    {
        let mut i: usize = 0;
        while i < self.tokens.len()
            invariant
                i <= self.tokens@.len(),
                forall|j: int|
                    0 <= j < i ==> !((#[trigger] self.tokens@[j]).token_hash@ == token_hash@
                        && self.tokens@[j].valid_at(now)),
            decreases self.tokens@.len() - i,
        {
            let t = &self.tokens[i];
            if same_text(t.token_hash.as_str(), token_hash) && t.is_valid(now) {
                return Some(t.copy());
            }
            i = i + 1;
        }
        None
    }

    /// Revokes every unrevoked session with this hash; revoking again, or an
    /// unknown hash, changes nothing and is no error.
    pub fn revoke(&mut self, token_hash: &str, now: i64)
        ensures
            final(self).tokens@ == sessions_revoked(old(self).tokens@, token_hash@, now),
            final(self).next_id == old(self).next_id,
            final(self).tokens@.len() == old(self).tokens@.len(),
            forall|i: int|
                0 <= i < old(self).tokens@.len() ==> #[trigger] final(self).tokens@[i] == if old(self).tokens@[i].token_hash@ == token_hash@ && old(self).tokens@[i].revoked_at.is_none() {
                    session_revoked(old(self).tokens@[i], now)
                } else {
                    old(self).tokens@[i]
                },
    {
        let ghost before = self.tokens@;
        let mut i: usize = 0;
        while i < self.tokens.len()
            invariant
                self.tokens@.len() == before.len(),
                self.next_id == old(self).next_id,
                before == old(self).tokens@,
                i <= before.len(),
                forall|j: int|
                    0 <= j < i ==> #[trigger] self.tokens@[j] == if before[j].token_hash@
                        == token_hash@ && before[j].revoked_at.is_none() {
                        session_revoked(before[j], now)
                    } else {
                        before[j]
                    },
                forall|j: int| i <= j < before.len() ==> #[trigger] self.tokens@[j] == before[j],
            decreases before.len() - i,
        {
            if same_text(self.tokens[i].token_hash.as_str(), token_hash)
                && self.tokens[i].revoked_at.is_none() {
                let mut t = self.tokens[i].copy();
                t.revoked_at = Some(now);
                self.tokens.set(i, t);
            }
            i = i + 1;
        }
        assert(self.tokens@ =~= sessions_revoked(before, token_hash@, now));
    }

    /// Revokes every unrevoked session of `user_id`.
    pub fn revoke_all_for_user(&mut self, user_id: u128, now: i64)
        ensures
            final(self).next_id == old(self).next_id,
            final(self).tokens@.len() == old(self).tokens@.len(),
            forall|i: int|
                0 <= i < old(self).tokens@.len() ==> #[trigger] final(self).tokens@[i] == if old(self).tokens@[i].user_id == user_id && old(self).tokens@[i].revoked_at.is_none() {
                    session_revoked(old(self).tokens@[i], now)
                } else {
                    old(self).tokens@[i]
                },
    {
        let ghost before = self.tokens@;
        let mut i: usize = 0;
        while i < self.tokens.len()
            invariant
                self.tokens@.len() == before.len(),
                self.next_id == old(self).next_id,
                before == old(self).tokens@,
                i <= before.len(),
                forall|j: int|
                    0 <= j < i ==> #[trigger] self.tokens@[j] == if before[j].user_id == user_id
                        && before[j].revoked_at.is_none() {
                        session_revoked(before[j], now)
                    } else {
                        before[j]
                    },
                forall|j: int| i <= j < before.len() ==> #[trigger] self.tokens@[j] == before[j],
            decreases before.len() - i,
        {
            if self.tokens[i].user_id == user_id && self.tokens[i].revoked_at.is_none() {
                let mut t = self.tokens[i].copy();
                t.revoked_at = Some(now);
                self.tokens.set(i, t);
            }
            i = i + 1;
        }
    }

    /// Records `now` as the last use of every session with this hash.
    pub fn update_last_used(&mut self, token_hash: &str, now: i64)
        ensures
            final(self).next_id == old(self).next_id,
            final(self).tokens@.len() == old(self).tokens@.len(),
            forall|i: int|
                0 <= i < old(self).tokens@.len() ==> #[trigger] final(self).tokens@[i] == if old(self).tokens@[i].token_hash@ == token_hash@ {
                    session_touched(old(self).tokens@[i], now)
                } else {
                    old(self).tokens@[i]
                },
    {
        let ghost before = self.tokens@;
        let mut i: usize = 0;
        while i < self.tokens.len()
            invariant
                self.tokens@.len() == before.len(),
                self.next_id == old(self).next_id,
                before == old(self).tokens@,
                i <= before.len(),
                forall|j: int|
                    0 <= j < i ==> #[trigger] self.tokens@[j] == if before[j].token_hash@
                        == token_hash@ {
                        session_touched(before[j], now)
                    } else {
                        before[j]
                    },
                forall|j: int| i <= j < before.len() ==> #[trigger] self.tokens@[j] == before[j],
            decreases before.len() - i,
        {
            if same_text(self.tokens[i].token_hash.as_str(), token_hash) {
                let mut t = self.tokens[i].copy();
                t.last_used_at = Some(now);
                self.tokens.set(i, t);
            }
            i = i + 1;
        }
    }
}

} // verus!

verus! {

/// The valid keys of `user_id` at `now`, newest (last stored) first.
pub open spec fn listed_keys(keys: Seq<ApiKey>, user_id: u128, now: i64) -> Seq<ApiKey>
    decreases keys.len(),
{
    if keys.len() == 0 {
        Seq::empty()
    } else {
        let k = keys.last();
        let rest = listed_keys(keys.drop_last(), user_id, now);
        if k.user_id == user_id && k.valid_at(now) {
            seq![k] + rest
        } else {
            rest
        }
    }
}

/// Whether a key with this id, owned by `user_id`, is still unrevoked.
pub open spec fn revocable(keys: Seq<ApiKey>, key_id: u128, user_id: u128) -> bool {
    exists|i: int|
        0 <= i < keys.len() && (#[trigger] keys[i]).id == key_id && keys[i].user_id == user_id
            && keys[i].revoked_at.is_none()
}

/// Whether an expiry `days` days after `now` can be computed in seconds without overflow.
pub open spec fn expiry_in_range(now: i64, days: Option<i64>) -> bool {
    match days {
        Some(d) => i64::MIN <= d * SECONDS_PER_DAY <= i64::MAX && i64::MIN <= now + d
            * SECONDS_PER_DAY <= i64::MAX,
        None => true,
    }
}

/// The creation time of a key stored at `now`: creation times never go
/// backwards, so a clock that steps back is held at the latest one.
pub open spec fn creation_stamp(keys: Seq<ApiKey>, now: i64) -> i64 {
    if keys.len() > 0 && keys.last().created_at > now {
        keys.last().created_at
    } else {
        now
    }
}

/// API keys, stored in order of creation.
pub struct ApiKeyRepository {
    pub keys: Vec<ApiKey>,
    pub next_id: u128,
}

impl ApiKeyRepository {
    /// Identifiers are distinct and below `next_id`.
    pub open spec fn wf(&self) -> bool {
        &&& forall|i: int| 0 <= i < self.keys@.len() ==> (#[trigger] self.keys@[i]).id < self.next_id
        &&& forall|i: int, j: int|
            0 <= i < j < self.keys@.len() ==> (#[trigger] self.keys@[i]).id != (
            #[trigger] self.keys@[j]).id
        &&& forall|i: int, j: int|
            0 <= i < j < self.keys@.len() ==> (#[trigger] self.keys@[i]).created_at <= (
            #[trigger] self.keys@[j]).created_at
    }

    pub fn new() -> (r: ApiKeyRepository)
        ensures
            r.wf(),
            r.keys@.len() == 0,
    {
        ApiKeyRepository { keys: Vec::new(), next_id: 1 }
    }

    /// Whether some key with this hash is valid at `now`.
    pub open spec fn has_valid(&self, key_hash: Seq<char>, now: i64) -> bool {
        exists|i: int|
            0 <= i < self.keys@.len() && (#[trigger] self.keys@[i]).key_hash@ == key_hash
                && self.keys@[i].valid_at(now)
    }

    /// Stores a key for `user_id`, expiring `expires_in_days` days after `now` if given.
    /// Fails with `ValidationError` when that expiry is out of range, and with
    /// `Database` when identifiers are exhausted; then nothing changes.
    pub fn create(
        &mut self,
        user_id: u128,
        name: &str,
        key_prefix: &str,
        key_hash: &str,
        expires_in_days: Option<i64>,
        now: i64,
    ) -> (r: Result<ApiKey, AppError>)
        requires
            old(self).wf(),
        ensures
            final(self).wf(),
            r is Err ==> *final(self) == *old(self),
            !expiry_in_range(now, expires_in_days) ==> r matches Err(AppError::ValidationError(_)),
            r matches Ok(k) ==> final(self).keys@ == old(self).keys@.push(k) && k.id == old(self).next_id && k.user_id == user_id && k.name@ == name@ && k.key_prefix@ == key_prefix@
                && k.key_hash@ == key_hash@ && k.last_used_at.is_none()
                && k.revoked_at.is_none() && k.created_at == creation_stamp(old(self).keys@, now)
                && k.updated_at == k.created_at && k.expires_at == match expires_in_days {
                Some(d) => Some((now + d * SECONDS_PER_DAY) as i64),
                None => None,
            },
            r is Err ==> old(self).next_id == u128::MAX || !expiry_in_range(now, expires_in_days),
    {
        let expires_at = match expires_in_days {
            Some(days) => {
                match days.checked_mul(SECONDS_PER_DAY) {
                    Some(secs) => match now.checked_add(secs) {
                        Some(at) => Some(at),
                        None => {
                            return Err(
                                AppError::ValidationError(
                                    String::from_str("expires_in_days is out of range"),
                                ),
                            );
                        },
                    },
                    None => {
                        return Err(
                            AppError::ValidationError(
                                String::from_str("expires_in_days is out of range"),
                            ),
                        );
                    },
                }
            },
            None => None,
        };
        if self.next_id == u128::MAX {
            return Err(AppError::Database);
        }
        let n = self.keys.len();
        let stamp = if n > 0 && self.keys[n - 1].created_at > now {
            self.keys[n - 1].created_at
        } else {
            now
        };
        let k = ApiKey {
            id: self.next_id,
            user_id,
            name: String::from_str(name),
            key_prefix: String::from_str(key_prefix),
            key_hash: String::from_str(key_hash),
            last_used_at: None,
            expires_at,
            revoked_at: None,
            created_at: stamp,
            updated_at: stamp,
        };
        self.next_id = self.next_id + 1;
        self.keys.push(k.copy());
        Ok(k)
    }

    /// A key with this hash that is valid at `now`, if there is one.
    pub fn find_by_hash(&self, key_hash: &str, now: i64) -> (r: Option<ApiKey>)
        ensures
            r is Some <==> self.has_valid(key_hash@, now),
            r matches Some(k) ==> exists|i: int|
                0 <= i < self.keys@.len() && #[trigger] self.keys@[i] == k && k.key_hash@
                    == key_hash@ && k.valid_at(now),
    {
        let mut i: usize = 0;
        while i < self.keys.len()
            invariant
                i <= self.keys@.len(),
                forall|j: int|
                    0 <= j < i ==> !((#[trigger] self.keys@[j]).key_hash@ == key_hash@
                        && self.keys@[j].valid_at(now)),
            decreases self.keys@.len() - i,
        {
            let k = &self.keys[i];
            if same_text(k.key_hash.as_str(), key_hash) && k.is_valid(now) {
                return Some(k.copy());
            }
            i = i + 1;
        }
        None
    }

    /// The valid keys of `user_id` at `now`, newest first: by creation time,
    /// latest first, and among equal times the one stored last first.
    pub fn list_for_user(&self, user_id: u128, now: i64) -> (r: Vec<ApiKey>)
        requires
            self.wf(),
        ensures
            r@ == listed_keys(self.keys@, user_id, now),
            forall|a: int, b: int|
                0 <= a < b < r@.len() ==> (#[trigger] r@[a]).created_at >= (#[trigger] r@[b]).created_at,
    {
        let mut out: Vec<ApiKey> = Vec::new();
        let mut i: usize = self.keys.len();
        assert(self.keys@.take(i as int) =~= self.keys@);
        while i > 0
            invariant
                i <= self.keys@.len(),
                out@ + listed_keys(self.keys@.take(i as int), user_id, now) == listed_keys(
                    self.keys@,
                    user_id,
                    now,
                ),
                self.wf(),
                forall|a: int, b: int|
                    0 <= a < b < out@.len() ==> (#[trigger] out@[a]).created_at >= (
                    #[trigger] out@[b]).created_at,
                forall|a: int, j: int|
                    0 <= a < out@.len() && 0 <= j < i ==> (#[trigger] out@[a]).created_at >= (
                    #[trigger] self.keys@[j]).created_at,
            decreases i,
        {
            let ghost pre = self.keys@.take(i as int);
            assert(pre.drop_last() =~= self.keys@.take(i - 1));
            let k = &self.keys[i - 1];
            if k.user_id == user_id && k.is_valid(now) {
                out.push(k.copy());
            }
            i = i - 1;
        }
        assert(self.keys@.take(0) =~= Seq::<ApiKey>::empty());
        out
    }

    /// Revokes the key `key_id` if `user_id` owns it and it is unrevoked;
    /// otherwise fails with `NotFound` and changes nothing.
    pub fn revoke(&mut self, key_id: u128, user_id: u128, now: i64) -> (r: Result<(), AppError>)
        requires
            old(self).wf(),
        ensures
            final(self).wf(),
            !revocable(old(self).keys@, key_id, user_id) ==> (r matches Err(AppError::NotFound)
                && *final(self) == *old(self)),
            revocable(old(self).keys@, key_id, user_id) ==> r is Ok && exists|i: int|
                0 <= i < old(self).keys@.len() && (#[trigger] old(self).keys@[i]).id == key_id
                    && final(self).keys@ == old(self).keys@.update(
                    i,
                    key_revoked(old(self).keys@[i], now),
                ) && final(self).next_id == old(self).next_id,
    {
        let mut i: usize = 0;
        while i < self.keys.len()
            invariant
                self.wf(),
                *self == *old(self),
                i <= self.keys@.len(),
                forall|j: int|
                    0 <= j < i ==> !((#[trigger] self.keys@[j]).id == key_id
                        && self.keys@[j].user_id == user_id && self.keys@[j].revoked_at.is_none()),
            decreases self.keys@.len() - i,
        {
            if self.keys[i].id == key_id && self.keys[i].user_id == user_id
                && self.keys[i].revoked_at.is_none() {
                let mut k = self.keys[i].copy();
                k.revoked_at = Some(now);
                k.updated_at = now;
                self.keys.set(i, k);
                assert(self.keys@[i as int].id == old(self).keys@[i as int].id);
                assert forall|a: int, b: int|
                    0 <= a < b < self.keys@.len() implies (#[trigger] self.keys@[a]).id != (
                    #[trigger] self.keys@[b]).id by {
                    assert(old(self).keys@[a].id == self.keys@[a].id);
                    assert(old(self).keys@[b].id == self.keys@[b].id);
                }
                assert(forall|a: int|
                    0 <= a < self.keys@.len() ==> (#[trigger] self.keys@[a]).id == old(self).keys@[a].id);
                assert forall|a: int, b: int|
                    0 <= a < b < self.keys@.len() implies (#[trigger] self.keys@[a]).created_at <= (
                    #[trigger] self.keys@[b]).created_at by {
                    assert(old(self).keys@[a].created_at == self.keys@[a].created_at);
                    assert(old(self).keys@[b].created_at == self.keys@[b].created_at);
                    assert(old(self).keys@[a].created_at <= old(self).keys@[b].created_at);
                }
                return Ok(());
            }
            i = i + 1;
        }
        Err(AppError::NotFound)
    }

    /// Records `now` as the last use of every key with this hash.
    pub fn update_last_used(&mut self, key_hash: &str, now: i64)
        requires
            old(self).wf(),
        ensures
            final(self).wf(),
            final(self).next_id == old(self).next_id,
            final(self).keys@.len() == old(self).keys@.len(),
            forall|i: int|
                0 <= i < old(self).keys@.len() ==> #[trigger] final(self).keys@[i] == if old(self).keys@[i].key_hash@ == key_hash@ {
                    key_touched(old(self).keys@[i], now)
                } else {
                    old(self).keys@[i]
                },
    {
        let ghost before = self.keys@;
        let mut i: usize = 0;
        while i < self.keys.len()
            invariant
                self.keys@.len() == before.len(),
                self.next_id == old(self).next_id,
                before == old(self).keys@,
                old(self).wf(),
                i <= before.len(),
                forall|j: int|
                    0 <= j < i ==> #[trigger] self.keys@[j] == if before[j].key_hash@ == key_hash@ {
                        key_touched(before[j], now)
                    } else {
                        before[j]
                    },
                forall|j: int| i <= j < before.len() ==> #[trigger] self.keys@[j] == before[j],
            decreases before.len() - i,
        {
            if same_text(self.keys[i].key_hash.as_str(), key_hash) {
                let mut k = self.keys[i].copy();
                k.last_used_at = Some(now);
                self.keys.set(i, k);
            }
            i = i + 1;
        }
        assert(forall|j: int| 0 <= j < before.len() ==> (#[trigger] self.keys@[j]).id == before[j].id);
        assert(forall|j: int|
            0 <= j < before.len() ==> (#[trigger] self.keys@[j]).created_at == before[j].created_at);
        assert forall|a: int, b: int|
            0 <= a < b < self.keys@.len() implies (#[trigger] self.keys@[a]).created_at <= (
            #[trigger] self.keys@[b]).created_at by {
            assert(before[a].created_at == self.keys@[a].created_at);
            assert(before[b].created_at == self.keys@[b].created_at);
            assert(before[a].created_at <= before[b].created_at);
        }
    }
}

/// Revoking a key a second time fails: once revoked, it is no longer revocable
/// by anyone, so `revoke` answers `NotFound` and leaves the records unchanged.
pub proof fn revoked_key_stays_revoked(repo: ApiKeyRepository, i: int, key_id: u128, user_id: u128, now: i64)
    requires
        repo.wf(),
        0 <= i < repo.keys@.len(),
        repo.keys@[i].id == key_id,
    ensures
        !revocable(repo.keys@.update(i, key_revoked(repo.keys@[i], now)), key_id, user_id),
{
    let after = repo.keys@.update(i, key_revoked(repo.keys@[i], now));
    assert forall|j: int| 0 <= j < after.len() && (#[trigger] after[j]).id == key_id implies after[j].revoked_at.is_some() by {
        if j != i {
            if j < i {
                assert(repo.keys@[j].id != repo.keys@[i].id);
            } else {
                assert(repo.keys@[i].id != repo.keys@[j].id);
            }
        }
    }
}

/// A key cannot be revoked by an account that does not own it: `revoke` answers
/// `NotFound` and leaves the records unchanged.
pub proof fn foreign_key_is_not_revocable(repo: ApiKeyRepository, i: int, other: u128)
    requires
        repo.wf(),
        0 <= i < repo.keys@.len(),
        repo.keys@[i].user_id != other,
    ensures
        !revocable(repo.keys@, repo.keys@[i].id, other),
{
    assert forall|j: int| 0 <= j < repo.keys@.len() && (#[trigger] repo.keys@[j]).id == repo.keys@[i].id implies repo.keys@[j].user_id != other by {
        if j < i {
            assert(repo.keys@[j].id != repo.keys@[i].id);
        } else if j > i {
            assert(repo.keys@[i].id != repo.keys@[j].id);
        }
    }
}

} // verus!

verus! {

/// Whether `u` is not soft-deleted and has this email.
pub open spec fn has_email(u: User, email: Seq<char>) -> bool {
    u.deleted_at.is_none() && match u.email {
        Some(e) => e@ == email,
        None => false,
    }
}

/// Whether `u` is not soft-deleted and has this username.
pub open spec fn has_username(u: User, username: Seq<char>) -> bool {
    u.deleted_at.is_none() && u.username@ == username
}

/// Whether `u` is not soft-deleted and has this id.
pub open spec fn has_id(u: User, id: u128) -> bool {
    u.deleted_at.is_none() && u.id == id
}

/// The fields of an account created now with these credentials.
pub open spec fn new_account(
    u: User,
    email: Seq<char>,
    username: Seq<char>,
    full_name: Seq<char>,
    password_hash: Seq<char>,
    now: i64,
) -> bool {
    &&& u.email is Some && u.email.unwrap()@ == email
    &&& u.username@ == username
    &&& u.full_name@ == full_name
    &&& u.password_hash is Some && u.password_hash.unwrap()@ == password_hash
    &&& u.role == UserRole::User
    &&& u.status == UserStatus::Active
    &&& u.created_at == now
    &&& u.updated_at == now
    &&& u.deleted_at.is_none()
}

fn email_is(u: &User, email: &str) -> (r: bool)
    ensures
        r == has_email(*u, email@),
{
    u.deleted_at.is_none() && match &u.email {
        Some(e) => same_text(e.as_str(), email),
        None => false,
    }
}

/// Accounts.
pub struct UserRepository {
    pub users: Vec<User>,
    pub next_id: u128,
}

impl UserRepository {
    /// Identifiers are distinct and below `next_id`.
    pub open spec fn wf(&self) -> bool {
        &&& forall|i: int|
            0 <= i < self.users@.len() ==> (#[trigger] self.users@[i]).id < self.next_id
        &&& forall|i: int, j: int|
            0 <= i < j < self.users@.len() ==> (#[trigger] self.users@[i]).id != (
            #[trigger] self.users@[j]).id
    }

    pub fn new() -> (r: UserRepository)
        ensures
            r.wf(),
            r.users@.len() == 0,
    {
        UserRepository { users: Vec::new(), next_id: 1 }
    }

    /// An account that is not soft-deleted and has this email, if there is one.
    pub fn find_by_email(&self, email: &str) -> (r: Option<User>)
        ensures
            r is Some <==> exists|i: int|
                0 <= i < self.users@.len() && has_email(#[trigger] self.users@[i], email@),
            r matches Some(u) ==> exists|i: int|
                0 <= i < self.users@.len() && #[trigger] self.users@[i] == u && has_email(u, email@),
    {
        let mut i: usize = 0;
        while i < self.users.len()
            invariant
                i <= self.users@.len(),
                forall|j: int| 0 <= j < i ==> !has_email(#[trigger] self.users@[j], email@),
            decreases self.users@.len() - i,
        {
            if email_is(&self.users[i], email) {
                return Some(self.users[i].copy());
            }
            i = i + 1;
        }
        None
    }

    /// The account with this id, unless it is soft-deleted or unknown.
    pub fn find_by_id(&self, user_id: u128) -> (r: Option<User>)
        ensures
            r is Some <==> exists|i: int|
                0 <= i < self.users@.len() && has_id(#[trigger] self.users@[i], user_id),
            r matches Some(u) ==> exists|i: int|
                0 <= i < self.users@.len() && #[trigger] self.users@[i] == u && has_id(u, user_id),
    {
        let mut i: usize = 0;
        while i < self.users.len()
            invariant
                i <= self.users@.len(),
                forall|j: int| 0 <= j < i ==> !has_id(#[trigger] self.users@[j], user_id),
            decreases self.users@.len() - i,
        {
            if self.users[i].deleted_at.is_none() && self.users[i].id == user_id {
                return Some(self.users[i].copy());
            }
            i = i + 1;
        }
        None
    }

    /// Stores an active account with the user role. Fails with `Database`, and
    /// changes nothing, only when identifiers are exhausted.
    pub fn create_with_password(
        &mut self,
        email: &str,
        username: &str,
        full_name: &str,
        password_hash: &str,
        now: i64,
    ) -> (r: Result<User, AppError>)
        requires
            old(self).wf(),
        ensures
            final(self).wf(),
            r is Err <==> old(self).next_id == u128::MAX,
            r is Err ==> (r matches Err(AppError::Database) && *final(self) == *old(self)),
            r matches Ok(u) ==> final(self).users@ == old(self).users@.push(u) && u.id == old(self).next_id && new_account(u, email@, username@, full_name@, password_hash@, now),
    {
        if self.next_id == u128::MAX {
            return Err(AppError::Database);
        }
        let u = User {
            id: self.next_id,
            email: Some(String::from_str(email)),
            username: String::from_str(username),
            full_name: String::from_str(full_name),
            password_hash: Some(String::from_str(password_hash)),
            role: UserRole::User,
            status: UserStatus::Active,
            created_at: now,
            updated_at: now,
            deleted_at: None,
        };
        self.next_id = self.next_id + 1;
        self.users.push(u.copy());
        Ok(u)
    }

    /// Whether an account that is not soft-deleted has this email.
    pub fn email_exists(&self, email: &str) -> (r: bool)
        ensures
            r == exists|i: int|
                0 <= i < self.users@.len() && has_email(#[trigger] self.users@[i], email@),
    {
        self.find_by_email(email).is_some()
    }

    /// Whether an account that is not soft-deleted has this username.
    pub fn username_exists(&self, username: &str) -> (r: bool)
        ensures
            r == exists|i: int|
                0 <= i < self.users@.len() && has_username(#[trigger] self.users@[i], username@),
    {
        let mut i: usize = 0;
        while i < self.users.len()
            invariant
                i <= self.users@.len(),
                forall|j: int| 0 <= j < i ==> !has_username(#[trigger] self.users@[j], username@),
            decreases self.users@.len() - i,
        {
            if self.users[i].deleted_at.is_none() && same_text(
                self.users[i].username.as_str(),
                username,
            ) {
                return true;
            }
            i = i + 1;
        }
        false
    }
}

} // verus!
