//! The login, register, refresh and logout workflow, and API-key management.
//! Tokens are signed around this module: it decides, checks claims that were
//! decoded, and records sessions under the hash of each signed refresh token.

use argon2::PasswordHasher;
use argon2::PasswordVerifier;
use validator::ValidateEmail;
use crate::api_key::{
    discriminator, display_prefix, generate_api_key, hash_api_key, hex_of, key_digest, key_text,
    lemma_hex_len,
    starts_with, GeneratedApiKey, API_KEY_LENGTH,
};
use crate::config::JwtConfig;
use crate::dto::{
    lists, ApiKeyListItem, CreateApiKeyRequest, LoginRequest, LogoutRequest, LogoutResponse,
    RegisterRequest, RevokeApiKeyResponse,
};
use crate::error::AppError;
use crate::gate::active_with_id;
use crate::model::{same_text, ApiKey, RefreshToken, User};
use crate::store::{
    creation_stamp, expiry_in_range, has_email, has_id, has_username, listed_keys, new_account,
    revocable, sessions_revoked, SECONDS_PER_DAY,
    ApiKeyRepository,
    RefreshTokenRepository, UserRepository,
};
use crate::token::{issue_claims, issued_as, token_verdict, uuid_value, Claims, TokenType};
use vstd::prelude::*;

verus! {

/// Whether a text is an acceptable email address.
pub uninterp spec fn valid_email(s: Seq<char>) -> bool;

/// What checking a password against a stored hash gives: whether it matches,
/// or `None` when the stored hash cannot be used.
pub uninterp spec fn password_check(password: Seq<char>, hash: Seq<char>) -> Option<bool>;

/// Relies on validator::ValidateEmail::validate_email: a check on the text alone.
#[verifier::external_body]
fn email_is_valid(s: &str) -> (r: bool)
    ensures
        r == valid_email(s@),
{
    s.validate_email()
}

/// Relies on argon2's PasswordHash::new and Argon2::verify_password: `Password`
/// is the mismatch error; a hash that does not parse or fails otherwise gives `None`.
#[verifier::external_body]
fn check_password(password: &str, hash: &str) -> (r: Option<bool>)
    ensures
        r == password_check(password@, hash@),
{
    let parsed = match argon2::PasswordHash::new(hash) {
        Ok(p) => p,
        Err(_) => return None,
    };
    match argon2::Argon2::default().verify_password(password.as_bytes(), &parsed) {
        Ok(()) => Some(true),
        Err(argon2::password_hash::Error::Password) => Some(false),
        Err(_) => None,
    }
}

/// Relies on argon2's Argon2::hash_password with a fresh random salt; a hash it
/// writes verifies against the same password.
#[verifier::external_body]
fn hash_password(password: &str) -> (r: Option<String>)
    ensures
        r matches Some(h) ==> password_check(password@, h@) == Some(true),
{
    let salt = argon2::password_hash::SaltString::generate(
        &mut argon2::password_hash::rand_core::OsRng,
    );
    argon2::Argon2::default().hash_password(password.as_bytes(), &salt).ok().map(|h| h.to_string())
}

/// The three record stores that the workflow reads and changes.
pub struct AuthStore {
    pub users: UserRepository,
    pub sessions: RefreshTokenRepository,
    pub api_keys: ApiKeyRepository,
}

impl AuthStore {
    pub open spec fn wf(&self) -> bool {
        self.users.wf() && self.api_keys.wf()
    }

    pub fn new() -> (r: AuthStore)
        ensures
            r.wf(),
            r.users.users@.len() == 0,
            r.sessions.tokens@.len() == 0,
            r.api_keys.keys@.len() == 0,
    {
        AuthStore {
            users: UserRepository::new(),
            sessions: RefreshTokenRepository::new(),
            api_keys: ApiKeyRepository::new(),
        }
    }
}

pub open spec fn length_between(s: Seq<char>, lo: int, hi: int) -> bool {
    lo <= s.len() <= hi
}

/// The shape constraints on a registration.
pub open spec fn register_input_ok(req: RegisterRequest) -> bool {
    &&& valid_email(req.email@)
    &&& length_between(req.username@, 3, 50)
    &&& length_between(req.full_name@, 1, 100)
    &&& req.password@.len() >= 8
}

/// The shape constraints on a login.
pub open spec fn login_input_ok(req: LoginRequest) -> bool {
    valid_email(req.email@) && req.password@.len() >= 1
}

fn invalid(msg: &str) -> (r: AppError)
    ensures
        r matches AppError::ValidationError(_),
{
    AppError::ValidationError(String::from_str(msg))
}

pub fn validate_register(req: &RegisterRequest) -> (r: Result<(), AppError>)
    ensures
        r is Ok <==> register_input_ok(*req),
        r matches Err(e) ==> e is ValidationError,
{
    if !email_is_valid(req.email.as_str()) {
        return Err(invalid("Invalid email format"));
    }
    let n = req.username.as_str().unicode_len();
    if n < 3 || n > 50 {
        return Err(invalid("Username must be between 3 and 50 characters"));
    }
    let n = req.full_name.as_str().unicode_len();
    if n < 1 || n > 100 {
        return Err(invalid("Full name must be between 1 and 100 characters"));
    }
    if req.password.as_str().unicode_len() < 8 {
        return Err(invalid("Password must be at least 8 characters"));
    }
    Ok(())
}

pub fn validate_login(req: &LoginRequest) -> (r: Result<(), AppError>)
    ensures
        r is Ok <==> login_input_ok(*req),
        r matches Err(e) ==> e is ValidationError,
{
    if !email_is_valid(req.email.as_str()) {
        return Err(invalid("Invalid email format"));
    }
    if req.password.as_str().unicode_len() < 1 {
        return Err(invalid("Password is required"));
    }
    Ok(())
}

/// Creates an account after checking the input and that the email and the
/// username are free; the password is stored only as a one-way hash.
pub fn register(store: &mut AuthStore, req: &RegisterRequest, now: i64) -> (r: Result<User, AppError>)
    requires
        old(store).wf(),
    ensures
        final(store).wf(),
        final(store).sessions == old(store).sessions,
        final(store).api_keys == old(store).api_keys,
        r is Err ==> final(store).users == old(store).users,
        !register_input_ok(*req) ==> r matches Err(AppError::ValidationError(_)),
        register_input_ok(*req) && (exists|i: int|
            0 <= i < old(store).users.users@.len() && has_email(
                #[trigger] old(store).users.users@[i],
                req.email@,
            )) ==> r matches Err(AppError::BadRequest(_)),
        register_input_ok(*req) && (exists|i: int|
            0 <= i < old(store).users.users@.len() && has_username(
                #[trigger] old(store).users.users@[i],
                req.username@,
            )) ==> r matches Err(AppError::BadRequest(_)),
        r matches Ok(u) ==> final(store).users.users@ == old(store).users.users@.push(u)
            && u.password_hash is Some && new_account(
            u,
            req.email@,
            req.username@,
            req.full_name@,
            u.password_hash.unwrap()@,
            now,
        ) && password_check(req.password@, u.password_hash.unwrap()@) == Some(true),
        r matches Err(e) ==> e is ValidationError || e is BadRequest || e is HashError
            || e is Database,
        r matches Err(AppError::ValidationError(_)) ==> !register_input_ok(*req),
        r matches Err(AppError::BadRequest(_)) ==> (exists|i: int|
            0 <= i < old(store).users.users@.len() && (has_email(
                #[trigger] old(store).users.users@[i],
                req.email@,
            ) || has_username(old(store).users.users@[i], req.username@))),
        r matches Err(AppError::Database) ==> old(store).users.next_id == u128::MAX,
        register_input_ok(*req) && !(exists|i: int|
            0 <= i < old(store).users.users@.len() && has_email(
                #[trigger] old(store).users.users@[i],
                req.email@,
            )) && !(exists|i: int|
            0 <= i < old(store).users.users@.len() && has_username(
                #[trigger] old(store).users.users@[i],
                req.username@,
            )) && old(store).users.next_id < u128::MAX ==> r is Ok || r matches Err(
            AppError::HashError,
        ),
{
    validate_register(req)?;
    if store.users.email_exists(req.email.as_str()) {
        return Err(AppError::BadRequest(String::from_str("Email already registered")));
    }
    if store.users.username_exists(req.username.as_str()) {
        return Err(AppError::BadRequest(String::from_str("Username already taken")));
    }
    let password_hash = match hash_password(req.password.as_str()) {
        Some(h) => h,
        None => return Err(AppError::HashError),
    };
    store.users.create_with_password(
        req.email.as_str(),
        req.username.as_str(),
        req.full_name.as_str(),
        password_hash.as_str(),
        now,
    )
}

/// Establishes identity by email and password. A wrong password and an
/// unknown email give the same `InvalidCredentials`.
pub fn login(store: &AuthStore, req: &LoginRequest) -> (r: Result<User, AppError>)
    ensures
        !login_input_ok(*req) ==> r matches Err(AppError::ValidationError(_)),
        login_input_ok(*req) && (forall|i: int|
            0 <= i < store.users.users@.len() && has_email(
                #[trigger] store.users.users@[i],
                req.email@,
            ) ==> match store.users.users@[i].password_hash {
                Some(h) => password_check(req.password@, h@) == Some(false),
                None => true,
            }) ==> r matches Err(AppError::InvalidCredentials),
        r matches Ok(u) ==> (exists|i: int|
            0 <= i < store.users.users@.len() && #[trigger] store.users.users@[i] == u)
            && has_email(u, req.email@) && u.active() && u.password_hash is Some && password_check(
            req.password@,
            u.password_hash.unwrap()@,
        ) == Some(true),
        r matches Err(e) ==> e is ValidationError || e is InvalidCredentials || e is Forbidden
            || e is HashError,
        login_input_ok(*req) && (exists|i: int|
            0 <= i < store.users.users@.len() && has_email(
                #[trigger] store.users.users@[i],
                req.email@,
            )) && (forall|i: int|
            0 <= i < store.users.users@.len() && has_email(
                #[trigger] store.users.users@[i],
                req.email@,
            ) ==> store.users.users@[i].active() && match store.users.users@[i].password_hash {
                Some(h) => password_check(req.password@, h@) == Some(true),
                None => false,
            }) ==> r is Ok,
        login_input_ok(*req) && (exists|i: int|
            0 <= i < store.users.users@.len() && has_email(
                #[trigger] store.users.users@[i],
                req.email@,
            )) && (forall|i: int|
            0 <= i < store.users.users@.len() && has_email(
                #[trigger] store.users.users@[i],
                req.email@,
            ) ==> !store.users.users@[i].active() && match store.users.users@[i].password_hash {
                Some(h) => password_check(req.password@, h@) == Some(true),
                None => false,
            }) ==> r matches Err(AppError::Forbidden),
{
    validate_login(req)?;
    let user = match store.users.find_by_email(req.email.as_str()) {
        Some(u) => u,
        None => return Err(AppError::InvalidCredentials),
    };
    if !user.has_dashboard_access() {
        return Err(AppError::InvalidCredentials);
    }
    let matched = match &user.password_hash {
        Some(h) => check_password(req.password.as_str(), h.as_str()),
        None => Some(false),
    };
    match matched {
        None => Err(AppError::HashError),
        Some(false) => Err(AppError::InvalidCredentials),
        Some(true) => {
            if !user.is_active() {
                Err(AppError::Forbidden)
            } else {
                Ok(user)
            }
        },
    }
}

/// The email that tokens of `u` carry: empty for an account without one.
pub open spec fn token_email(u: User) -> Seq<char> {
    match u.email {
        Some(e) => e@,
        None => Seq::empty(),
    }
}

/// Claims of an access token and of a refresh token for `user`, issued at `now`.
/// Both carry `token_id`; callers pass the identifier the refresh session will get.
pub fn issue_token_pair(user: &User, jwt: &JwtConfig, token_id: u128, now: i64) -> (r: (Claims, Claims))
    requires
        i64::MIN <= now + jwt.access_expiry_seconds <= i64::MAX,
        i64::MIN <= now + jwt.refresh_expiry_seconds <= i64::MAX,
    ensures
        issued_as(
            r.0,
            TokenType::Access,
            user.id,
            token_id,
            token_email(*user),
            user.role,
            now as int,
            jwt.access_expiry_seconds as int,
        ),
        issued_as(
            r.1,
            TokenType::Refresh,
            user.id,
            token_id,
            token_email(*user),
            user.role,
            now as int,
            jwt.refresh_expiry_seconds as int,
        ),
{
    let empty = String::new();
    let email = match &user.email {
        Some(e) => e.as_str(),
        None => empty.as_str(),
    };
    let access = issue_claims(
        TokenType::Access,
        user.id,
        token_id,
        email,
        user.role,
        now,
        jwt.access_expiry_seconds,
    );
    let refresh = issue_claims(
        TokenType::Refresh,
        user.id,
        token_id,
        email,
        user.role,
        now,
        jwt.refresh_expiry_seconds,
    );
    (access, refresh)
}

/// The secret that signs and checks tokens of `kind`: each kind has its own.
pub fn signing_secret(jwt: &JwtConfig, kind: TokenType) -> (r: &str)
    ensures
        r@ == match kind {
            TokenType::Access => jwt.access_secret@,
            TokenType::Refresh => jwt.refresh_secret@,
        },
{
    match kind {
        TokenType::Access => jwt.access_secret.as_str(),
        TokenType::Refresh => jwt.refresh_secret.as_str(),
    }
}

/// Records a new refresh session for `user_id`, keyed by the hash of its signed token.
pub fn start_session(
    store: &mut AuthStore,
    user_id: u128,
    refresh_token: &str,
    ttl: i64,
    now: i64,
) -> (r: Result<RefreshToken, AppError>)
    requires
        old(store).wf(),
        i64::MIN <= now + ttl <= i64::MAX,
    ensures
        final(store).wf(),
        final(store).users == old(store).users,
        final(store).api_keys == old(store).api_keys,
        r is Err <==> old(store).sessions.next_id == u128::MAX,
        r is Err ==> final(store).sessions == old(store).sessions,
        r matches Ok(t) ==> final(store).sessions.tokens@ == old(store).sessions.tokens@.push(t)
            && t.user_id == user_id && t.token_hash@ == key_digest(refresh_token@) && t.expires_at
            == now + ttl && t.revoked_at.is_none(),
        r is Ok && ttl > 0 ==> final(store).sessions.has_valid(key_digest(refresh_token@), now),
{
    let token_hash = hash_api_key(refresh_token);
    let r = store.sessions.create(user_id, token_hash.as_str(), ttl, None, None, None, now);
    proof {
        if r is Ok && ttl > 0 {
            let n = old(store).sessions.tokens@.len() as int;
            assert(store.sessions.tokens@[n].token_hash@ == key_digest(refresh_token@));
        }
    }
    r
}

/// Checks a presented refresh token: its decoded claims, its session, and the
/// account it names. On success gives the account and the session it rotates.
pub fn refresh(store: &AuthStore, presented: &str, decoded: Option<Claims>, now: i64) -> (r: Result<
    (User, RefreshToken),
    AppError,
>)
    requires
        store.wf(),
    ensures
        presented@.len() > 0 && store.sessions.has_valid(key_digest(presented@), now) && (
        token_verdict(decoded, TokenType::Refresh, now) matches Ok(c) && uuid_value(c.sub@) matches Some(
            id,
        ) && active_with_id(store.users.users@, id)) ==> r is Ok,
        presented@.len() == 0 ==> r matches Err(AppError::ValidationError(_)),
        presented@.len() > 0 ==> (token_verdict(decoded, TokenType::Refresh, now) matches Ok(c)
            ==> match uuid_value(c.sub@) {
            None => r matches Err(AppError::TokenInvalid),
            Some(id) => {
                &&& !store.sessions.has_valid(key_digest(presented@), now) ==> (r matches Err(
                    AppError::TokenInvalid,
                ))
                &&& store.sessions.has_valid(key_digest(presented@), now) && !(exists|i: int|
                    0 <= i < store.users.users@.len() && has_id(#[trigger] store.users.users@[i], id))
                    ==> (r matches Err(AppError::Unauthorized(_)))
                &&& store.sessions.has_valid(key_digest(presented@), now) && (exists|i: int|
                    0 <= i < store.users.users@.len() && has_id(#[trigger] store.users.users@[i], id))
                    && !active_with_id(store.users.users@, id) ==> (r matches Err(AppError::Forbidden))
            },
        }),
        presented@.len() > 0 ==> (token_verdict(decoded, TokenType::Refresh, now) matches Err(e)
            ==> r == Err::<(User, RefreshToken), AppError>(e)),
        !store.sessions.has_valid(key_digest(presented@), now) ==> r is Err,
        r matches Ok((u, t)) ==> (token_verdict(decoded, TokenType::Refresh, now) matches Ok(c)
            && uuid_value(c.sub@) == Some(u.id)) && u.active() && (exists|i: int|
            0 <= i < store.users.users@.len() && #[trigger] store.users.users@[i] == u) && (exists|
            i: int,
        |
            0 <= i < store.sessions.tokens@.len() && #[trigger] store.sessions.tokens@[i] == t)
            && t.token_hash@ == key_digest(presented@) && t.valid_at(now),
{
    if presented.unicode_len() < 1 {
        return Err(invalid("Refresh token is required"));
    }
    let claims = crate::token::validate_token(decoded, TokenType::Refresh, now)?;
    let user_id = crate::token::extract_user_id(&claims)?;
    let token_hash = hash_api_key(presented);
    let session = match store.sessions.find_by_hash(token_hash.as_str(), now) {
        Some(t) => t,
        None => return Err(AppError::TokenInvalid),
    };
    let user = match store.users.find_by_id(user_id) {
        Some(u) => u,
        None => return Err(AppError::Unauthorized(String::from_str("User not found"))),
    };
    proof {
        assert forall|i: int, j: int|
            0 <= i < store.users.users@.len() && 0 <= j < store.users.users@.len()
                && store.users.users@[i].id == store.users.users@[j].id implies i == j by {
            if i < j {
                assert(store.users.users@[i].id != store.users.users@[j].id);
            } else if j < i {
                assert(store.users.users@[j].id != store.users.users@[i].id);
            }
        }
    }
    if !user.is_active() {
        return Err(AppError::Forbidden);
    }
    Ok((user, session))
}

/// `t` continues `prev`, a session valid at `now` under `digest`: same owner, device, address and agent.
pub open spec fn succeeds(t: RefreshToken, prev: RefreshToken, digest: Seq<char>, now: i64) -> bool {
    &&& prev.token_hash@ == digest
    &&& prev.valid_at(now)
    &&& t.user_id == prev.user_id
    &&& t.device_info == prev.device_info
    &&& t.ip_address == prev.ip_address
    &&& t.user_agent == prev.user_agent
}

/// Retires the session of `presented` and opens its successor for
/// `new_refresh_token`, carrying over the device, address and agent, as one
/// step: only a caller that finds the old session still valid succeeds, a
/// successor whose token hashes like the old one is refused, and on failure
/// nothing changes.
pub fn rotate_session(
    store: &mut AuthStore,
    presented: &str,
    new_refresh_token: &str,
    ttl: i64,
    now: i64,
) -> (r: Result<RefreshToken, AppError>)
    requires
        old(store).wf(),
        i64::MIN <= now + ttl <= i64::MAX,
    ensures
        final(store).wf(),
        final(store).users == old(store).users,
        final(store).api_keys == old(store).api_keys,
        r is Err ==> *final(store) == *old(store),
        !old(store).sessions.has_valid(key_digest(presented@), now) ==> r matches Err(
            AppError::TokenInvalid,
        ),
        key_digest(presented@) == key_digest(new_refresh_token@) ==> r matches Err(
            AppError::TokenInvalid,
        ),
        r matches Err(e) ==> e is TokenInvalid || e is Database,
        old(store).sessions.has_valid(key_digest(presented@), now) && key_digest(presented@)
            != key_digest(new_refresh_token@) && old(store).sessions.next_id < u128::MAX ==> r is Ok,
        r matches Ok(t) ==> final(store).sessions.tokens@ == sessions_revoked(
            old(store).sessions.tokens@,
            key_digest(presented@),
            now,
        ).push(t) && final(store).sessions.next_id == old(store).sessions.next_id + 1 && t.id
            == old(store).sessions.next_id && t.token_hash@ == key_digest(new_refresh_token@)
            && t.expires_at == now + ttl && t.revoked_at.is_none() && t.created_at == now
            && t.last_used_at.is_none() && exists|i: int|
            0 <= i < old(store).sessions.tokens@.len() && succeeds(
                t,
                #[trigger] old(store).sessions.tokens@[i],
                key_digest(presented@),
                now,
            ),
        r is Ok ==> !final(store).sessions.has_valid(key_digest(presented@), now),
        r is Ok && ttl > 0 ==> final(store).sessions.has_valid(key_digest(new_refresh_token@), now),
{
    let old_hash = hash_api_key(presented);
    let new_hash = hash_api_key(new_refresh_token);
    let previous = match store.sessions.find_by_hash(old_hash.as_str(), now) {
        Some(t) => t,
        None => return Err(AppError::TokenInvalid),
    };
    if same_text(old_hash.as_str(), new_hash.as_str()) {
        return Err(AppError::TokenInvalid);
    }
    if store.sessions.next_id == u128::MAX {
        return Err(AppError::Database);
    }
    store.sessions.revoke(old_hash.as_str(), now);
    let ghost revoked = store.sessions.tokens@;
    let r = store.sessions.create(
        previous.user_id,
        new_hash.as_str(),
        ttl,
        previous.device_info,
        previous.ip_address,
        previous.user_agent,
        now,
    );
    proof {
        let n = revoked.len() as int;
        assert(store.sessions.tokens@ == revoked.push(store.sessions.tokens@[n]));
        assert forall|i: int|
            0 <= i < store.sessions.tokens@.len() && (#[trigger] store.sessions.tokens@[i]).token_hash@
                == key_digest(presented@) implies !store.sessions.tokens@[i].valid_at(now) by {
            if i < n {
                assert(store.sessions.tokens@[i] == revoked[i]);
            }
        }
        if ttl > 0 {
            assert(store.sessions.tokens@[n].token_hash@ == key_digest(new_refresh_token@));
        }
    }
    r
}

/// Revokes the session of a refresh token. Idempotent, and silent on whether
/// the token was known.
pub fn logout(store: &mut AuthStore, req: &LogoutRequest, now: i64) -> (r: Result<LogoutResponse, AppError>)
    requires
        old(store).wf(),
    ensures
        final(store).wf(),
        final(store).users == old(store).users,
        final(store).api_keys == old(store).api_keys,
        r is Ok <==> req.refresh_token@.len() > 0,
        r is Err ==> *final(store) == *old(store),
        r is Ok ==> final(store).sessions.tokens@ == sessions_revoked(
            old(store).sessions.tokens@,
            key_digest(req.refresh_token@),
            now,
        ) && final(store).sessions.next_id == old(store).sessions.next_id,
        r is Ok ==> forall|i: int|
            0 <= i < final(store).sessions.tokens@.len() && (#[trigger] final(store).sessions.tokens@[i]).token_hash@ == key_digest(req.refresh_token@) ==> final(store).sessions.tokens@[i].revoked_at.is_some(),
        !old(store).sessions.has_valid(key_digest(req.refresh_token@), now) ==> forall|i: int|
            0 <= i < final(store).sessions.tokens@.len() ==> (#[trigger] final(store).sessions.tokens@[i]).valid_at(now) == old(store).sessions.tokens@[i].valid_at(now),
{
    if req.refresh_token.as_str().unicode_len() < 1 {
        return Err(invalid("Refresh token is required"));
    }
    let token_hash = hash_api_key(req.refresh_token.as_str());
    store.sessions.revoke(token_hash.as_str(), now);
    Ok(LogoutResponse { message: String::from_str("Logged out successfully") })
}

/// Issues a key for `user` and stores its hash and display prefix; the key
/// itself is returned once and never stored.
pub fn create_api_key(store: &mut AuthStore, user: &User, req: &CreateApiKeyRequest, now: i64) -> (r:
    Result<(ApiKey, GeneratedApiKey), AppError>)
    requires
        old(store).wf(),
    ensures
        final(store).wf(),
        final(store).users == old(store).users,
        final(store).sessions == old(store).sessions,
        r is Err ==> *final(store) == *old(store),
        !length_between(req.name@, 1, 100) ==> r matches Err(AppError::ValidationError(_)),
        length_between(req.name@, 1, 100) && expiry_in_range(now, req.expires_in_days) && old(store).api_keys.next_id < u128::MAX ==> r is Ok,
        r matches Ok((k, g)) ==> final(store).api_keys.keys@ == old(store).api_keys.keys@.push(k)
            && k.user_id == user.id && k.name@ == req.name@ && k.key_prefix@ == g.key_prefix@
            && k.key_hash@ == key_digest(g.key@) && g.key_hash@ == k.key_hash@ && (exists|
            random: Seq<u8>,
        | random.len() == API_KEY_LENGTH && g.key@ == #[trigger] key_text(req.is_live, random))
            && g.key_prefix@ == display_prefix(g.key@) && starts_with(
            g.key_prefix@,
            discriminator(req.is_live),
        ) && k.last_used_at.is_none() && k.revoked_at.is_none() && k.created_at
            == creation_stamp(old(store).api_keys.keys@, now) && k.expires_at
            == match req.expires_in_days {
            Some(d) => Some((now + d * SECONDS_PER_DAY) as i64),
            None => None,
        },
{
    let n = req.name.as_str().unicode_len();
    if n < 1 || n > 100 {
        return Err(invalid("Name must be between 1 and 100 characters"));
    }
    let generated = generate_api_key(req.is_live)?;
    proof {
        let random = choose|random: Seq<u8>|
            random.len() == API_KEY_LENGTH && generated.key@ == #[trigger] key_text(
                req.is_live,
                random,
            );
        lemma_hex_len(random);
        let d = discriminator(req.is_live);
        assert(generated.key_prefix@ =~= generated.key@.take(16));
        assert(generated.key_prefix@.subrange(0, d.len() as int) =~= d);
    }
    let record = store.api_keys.create(
        user.id,
        req.name.as_str(),
        generated.key_prefix.as_str(),
        generated.key_hash.as_str(),
        req.expires_in_days,
        now,
    )?;
    Ok((record, generated))
}

/// The owner's valid keys, newest first, as metadata without the keys themselves.
pub fn list_api_keys(store: &AuthStore, user_id: u128, now: i64) -> (r: Vec<ApiKeyListItem>)
    requires
        store.wf(),
    ensures
        forall|a: int, b: int|
            0 <= a < b < r@.len() ==> (#[trigger] r@[a]).created_at >= (#[trigger] r@[b]).created_at,
        r@.len() == listed_keys(store.api_keys.keys@, user_id, now).len(),
        forall|i: int|
            0 <= i < r@.len() ==> lists(
                #[trigger] r@[i],
                listed_keys(store.api_keys.keys@, user_id, now)[i],
            ),
{
    let keys = store.api_keys.list_for_user(user_id, now);
    let mut items: Vec<ApiKeyListItem> = Vec::new();
    let mut i: usize = 0;
    while i < keys.len()
        invariant
            i <= keys@.len(),
            items@.len() == i,
            forall|j: int| 0 <= j < i ==> lists(#[trigger] items@[j], keys@[j]),
            forall|a: int, b: int|
                0 <= a < b < keys@.len() ==> (#[trigger] keys@[a]).created_at >= (
                #[trigger] keys@[b]).created_at,
        decreases keys@.len() - i,
    {
        items.push(ApiKeyListItem::from_key(&keys[i]));
        i = i + 1;
    }
    assert forall|a: int, b: int|
        0 <= a < b < items@.len() implies (#[trigger] items@[a]).created_at >= (
        #[trigger] items@[b]).created_at by {
        assert(lists(items@[a], keys@[a]) && lists(items@[b], keys@[b]));
    }
    items
}

/// Revokes a key of `user_id`; a key of another account, an unknown one, or
/// one already revoked gives `NotFound` and changes nothing.
pub fn revoke_api_key(store: &mut AuthStore, user_id: u128, key_id: u128, now: i64) -> (r: Result<
    RevokeApiKeyResponse,
    AppError,
>)
    requires
        old(store).wf(),
    ensures
        final(store).wf(),
        final(store).users == old(store).users,
        final(store).sessions == old(store).sessions,
        r is Ok <==> revocable(old(store).api_keys.keys@, key_id, user_id),
        r is Err ==> (r matches Err(AppError::NotFound) && *final(store) == *old(store)),
{
    store.api_keys.revoke(key_id, user_id, now)?;
    Ok(RevokeApiKeyResponse { message: String::from_str("API key revoked successfully") })
}

} // verus!
