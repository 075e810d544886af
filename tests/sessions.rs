use mintora_auth::api_key::hash_api_key;
use mintora_auth::config::JwtConfig;
use mintora_auth::dto::{CreateApiKeyRequest, LoginRequest, LogoutRequest, RegisterRequest};
use mintora_auth::error::AppError;
use mintora_auth::gate::{authenticate, authenticate_api_key, authenticate_optional};
use mintora_auth::model::{UserStatus, User};
use mintora_auth::session::{
    create_api_key, issue_token_pair, list_api_keys, login, logout, refresh, register,
    revoke_api_key, rotate_session, start_session, AuthStore,
};
use mintora_auth::store::{ApiKeyRepository, RefreshTokenRepository};
use mintora_auth::token::TokenType;

const NOW: i64 = 1_700_000_000;

fn jwt() -> JwtConfig {
    JwtConfig {
        access_secret: "access".to_string(),
        refresh_secret: "refresh".to_string(),
        access_expiry_seconds: 900,
        refresh_expiry_seconds: 604_800,
    }
}

fn alice() -> RegisterRequest {
    RegisterRequest {
        email: "a@example.com".to_string(),
        username: "alice".to_string(),
        full_name: "Alice".to_string(),
        password: "password123".to_string(),
    }
}

fn registered(store: &mut AuthStore) -> User {
    register(store, &alice(), NOW).unwrap()
}

#[test]
fn register_then_me_returns_same_account() {
    let mut store = AuthStore::new();
    let user = registered(&mut store);
    let safe = user.to_safe_user();
    assert_eq!(safe.email.as_deref(), Some("a@example.com"));
    assert_eq!(safe.username, "alice");
    let (access, refresh_claims) = issue_token_pair(&user, &jwt(), store.sessions.next_id, NOW);
    assert_eq!(access.token_type, TokenType::Access);
    assert_eq!(refresh_claims.token_type, TokenType::Refresh);
    assert_eq!(refresh_claims.exp, NOW + 604_800);
    let me = authenticate(&store.users, Some(access), NOW + 1).unwrap();
    assert_eq!(me.id, user.id);
}

#[test]
fn register_rejects_duplicates_and_bad_input() {
    let mut store = AuthStore::new();
    registered(&mut store);
    assert!(matches!(register(&mut store, &alice(), NOW), Err(AppError::BadRequest(_))));
    let mut other = alice();
    other.email = "b@example.com".to_string();
    assert!(matches!(register(&mut store, &other, NOW), Err(AppError::BadRequest(_))));
    let mut short = alice();
    short.email = "c@example.com".to_string();
    short.username = "carol".to_string();
    short.password = "1234567".to_string();
    assert!(matches!(register(&mut store, &short, NOW), Err(AppError::ValidationError(_))));
    let mut bad_email = alice();
    bad_email.email = "not-an-email".to_string();
    assert!(matches!(register(&mut store, &bad_email, NOW), Err(AppError::ValidationError(_))));
    assert_eq!(store.users.users.len(), 1);
}

#[test]
fn login_with_wrong_password_is_invalid_credentials() {
    let mut store = AuthStore::new();
    registered(&mut store);
    let wrong = LoginRequest {
        email: "a@example.com".to_string(),
        password: "password124".to_string(),
    };
    assert!(matches!(login(&store, &wrong), Err(AppError::InvalidCredentials)));
    let unknown = LoginRequest {
        email: "z@example.com".to_string(),
        password: "password123".to_string(),
    };
    assert!(matches!(login(&store, &unknown), Err(AppError::InvalidCredentials)));
    let right = LoginRequest {
        email: "a@example.com".to_string(),
        password: "password123".to_string(),
    };
    assert!(login(&store, &right).is_ok());
}

#[test]
fn login_of_suspended_account_is_forbidden() {
    let mut store = AuthStore::new();
    registered(&mut store);
    store.users.users[0].status = UserStatus::Suspended;
    let right = LoginRequest {
        email: "a@example.com".to_string(),
        password: "password123".to_string(),
    };
    assert!(matches!(login(&store, &right), Err(AppError::Forbidden)));
}

#[test]
fn rotation_retires_the_old_refresh_token() {
    let mut store = AuthStore::new();
    let user = registered(&mut store);
    let (_, claims) = issue_token_pair(&user, &jwt(), store.sessions.next_id, NOW);
    start_session(&mut store, user.id, "refresh-token-1", 604_800, NOW).unwrap();
    let (u, _) = refresh(&store, "refresh-token-1", Some(claims), NOW + 5).unwrap();
    assert_eq!(u.id, user.id);
    let t = rotate_session(&mut store, "refresh-token-1", "refresh-token-2", 604_800, NOW + 5).unwrap();
    assert_eq!(t.user_id, user.id);
    assert_eq!(t.token_hash, hash_api_key("refresh-token-2"));

    let (_, old_claims) = issue_token_pair(&user, &jwt(), store.sessions.next_id, NOW);
    assert!(matches!(
        refresh(&store, "refresh-token-1", Some(old_claims), NOW + 6),
        Err(AppError::TokenInvalid)
    ));
    assert!(matches!(
        rotate_session(&mut store, "refresh-token-1", "refresh-token-3", 604_800, NOW + 6),
        Err(AppError::TokenInvalid)
    ));
    let (_, new_claims) = issue_token_pair(&user, &jwt(), store.sessions.next_id, NOW + 5);
    assert!(refresh(&store, "refresh-token-2", Some(new_claims), NOW + 6).is_ok());
}

#[test]
fn refresh_with_access_token_is_invalid() {
    let mut store = AuthStore::new();
    let user = registered(&mut store);
    let (access, _) = issue_token_pair(&user, &jwt(), store.sessions.next_id, NOW);
    start_session(&mut store, user.id, "t", 100, NOW).unwrap();
    assert!(matches!(refresh(&store, "t", Some(access), NOW), Err(AppError::TokenInvalid)));
    assert!(matches!(refresh(&store, "", None, NOW), Err(AppError::ValidationError(_))));
}

#[test]
fn logout_is_idempotent() {
    let mut store = AuthStore::new();
    let user = registered(&mut store);
    start_session(&mut store, user.id, "t1", 100, NOW).unwrap();
    let req = LogoutRequest { refresh_token: "t1".to_string() };
    logout(&mut store, &req, NOW + 1).unwrap();
    assert_eq!(store.sessions.tokens[0].revoked_at, Some(NOW + 1));
    logout(&mut store, &req, NOW + 2).unwrap();
    assert_eq!(store.sessions.tokens[0].revoked_at, Some(NOW + 1));
    let unknown = LogoutRequest { refresh_token: "never-issued".to_string() };
    assert!(logout(&mut store, &unknown, NOW).is_ok());
    let empty = LogoutRequest { refresh_token: String::new() };
    assert!(matches!(logout(&mut store, &empty, NOW), Err(AppError::ValidationError(_))));
}

#[test]
fn test_key_listing_shows_prefix_only() {
    let mut store = AuthStore::new();
    let user = registered(&mut store);
    let req = CreateApiKeyRequest {
        name: "ci".to_string(),
        is_live: false,
        expires_in_days: None,
    };
    let (record, generated) = create_api_key(&mut store, &user, &req, NOW).unwrap();
    assert_eq!(record.key_prefix, generated.key_prefix);
    let items = list_api_keys(&store, user.id, NOW);
    assert_eq!(items.len(), 1);
    assert!(items[0].key_prefix.starts_with("mnt_test_"));
    assert_eq!(items[0].key_prefix.len(), 16);
    assert_ne!(items[0].key_prefix, generated.key);
    assert!(!store.api_keys.keys.iter().any(|k| k.key_hash == generated.key || k.key_prefix == generated.key));
    let me = authenticate_api_key(&store, &generated.key, NOW).unwrap();
    assert_eq!(me.id, user.id);
}

#[test]
fn keys_are_listed_newest_first() {
    let mut store = AuthStore::new();
    let user = registered(&mut store);
    for name in ["first", "second", "third"] {
        let req = CreateApiKeyRequest { name: name.to_string(), is_live: true, expires_in_days: Some(1) };
        create_api_key(&mut store, &user, &req, NOW).unwrap();
    }
    let names: Vec<String> = list_api_keys(&store, user.id, NOW).into_iter().map(|i| i.name).collect();
    assert_eq!(names, vec!["third", "second", "first"]);
    assert!(list_api_keys(&store, user.id, NOW + 86_400).is_empty());
}

#[test]
fn revoking_twice_or_foreign_key_is_not_found() {
    let mut store = AuthStore::new();
    let user = registered(&mut store);
    let req = CreateApiKeyRequest { name: "k".to_string(), is_live: true, expires_in_days: None };
    let (record, generated) = create_api_key(&mut store, &user, &req, NOW).unwrap();
    assert!(matches!(revoke_api_key(&mut store, user.id + 1, record.id, NOW), Err(AppError::NotFound)));
    assert!(store.api_keys.keys[0].revoked_at.is_none());
    revoke_api_key(&mut store, user.id, record.id, NOW + 1).unwrap();
    assert_eq!(store.api_keys.keys[0].revoked_at, Some(NOW + 1));
    assert!(matches!(revoke_api_key(&mut store, user.id, record.id, NOW + 2), Err(AppError::NotFound)));
    assert_eq!(store.api_keys.keys[0].revoked_at, Some(NOW + 1));
    assert!(matches!(
        authenticate_api_key(&store, &generated.key, NOW + 3),
        Err(AppError::Unauthorized(_))
    ));
}

#[test]
fn api_key_gate_failures() {
    let mut store = AuthStore::new();
    let user = registered(&mut store);
    assert!(matches!(authenticate_api_key(&store, "bad", NOW), Err(AppError::Unauthorized(_))));
    let unknown = format!("mnt_live_{}", "0".repeat(64));
    assert!(matches!(authenticate_api_key(&store, &unknown, NOW), Err(AppError::Unauthorized(_))));
    let req = CreateApiKeyRequest { name: "k".to_string(), is_live: true, expires_in_days: None };
    let (_, generated) = create_api_key(&mut store, &user, &req, NOW).unwrap();
    store.users.users[0].status = UserStatus::Suspended;
    assert!(matches!(authenticate_api_key(&store, &generated.key, NOW), Err(AppError::Forbidden)));
    let empty_name = CreateApiKeyRequest { name: String::new(), is_live: true, expires_in_days: None };
    assert!(matches!(create_api_key(&mut store, &user, &empty_name, NOW), Err(AppError::ValidationError(_))));
    let huge = CreateApiKeyRequest { name: "k".to_string(), is_live: true, expires_in_days: Some(i64::MAX) };
    assert!(matches!(create_api_key(&mut store, &user, &huge, NOW), Err(AppError::ValidationError(_))));
}

#[test]
fn bearer_gate_failures() {
    let mut store = AuthStore::new();
    let user = registered(&mut store);
    let (access, refresh_claims) = issue_token_pair(&user, &jwt(), store.sessions.next_id, NOW);
    assert!(matches!(authenticate(&store.users, None, NOW), Err(AppError::TokenInvalid)));
    assert!(matches!(authenticate(&store.users, Some(refresh_claims), NOW), Err(AppError::TokenInvalid)));
    let (expired, _) = issue_token_pair(&user, &jwt(), store.sessions.next_id, NOW);
    assert!(matches!(authenticate(&store.users, Some(expired), NOW + 901), Err(AppError::TokenExpired)));
    let mut stranger = User { id: user.id + 99, ..user.copy() };
    stranger.email = None;
    let (foreign, _) = issue_token_pair(&stranger, &jwt(), store.sessions.next_id, NOW);
    assert!(matches!(authenticate(&store.users, Some(foreign), NOW), Err(AppError::Unauthorized(_))));
    store.users.users[0].status = UserStatus::Suspended;
    assert!(matches!(authenticate(&store.users, Some(access), NOW), Err(AppError::Forbidden)));
    let (again, _) = issue_token_pair(&user, &jwt(), store.sessions.next_id, NOW);
    assert!(authenticate_optional(&store.users, Some(again), NOW).is_none());
    store.users.users[0].status = UserStatus::Active;
    let (ok, _) = issue_token_pair(&user, &jwt(), store.sessions.next_id, NOW);
    assert_eq!(authenticate_optional(&store.users, Some(ok), NOW).unwrap().id, user.id);
    assert!(authenticate_optional(&store.users, None, NOW).is_none());
}

#[test]
fn session_store_filters_revoked_and_expired() {
    let mut sessions = RefreshTokenRepository::new();
    sessions.create(7, "h1", 10, None, None, None, 100).unwrap();
    sessions.create(7, "h2", 10, Some("phone".to_string()), None, None, 100).unwrap();
    sessions.create(8, "h3", 10, None, None, None, 100).unwrap();
    assert!(sessions.find_by_hash("h1", 109).is_some());
    assert!(sessions.find_by_hash("h1", 110).is_none());
    sessions.revoke_all_for_user(7, 105);
    assert!(sessions.find_by_hash("h1", 106).is_none());
    assert!(sessions.find_by_hash("h2", 106).is_none());
    assert!(sessions.find_by_hash("h3", 106).is_some());
    sessions.update_last_used("h3", 107);
    assert_eq!(sessions.tokens[2].last_used_at, Some(107));
    let mut keys = ApiKeyRepository::new();
    let k = keys.create(1, "n", "p", "h", Some(2), 0).unwrap();
    assert_eq!(k.expires_at, Some(172_800));
    keys.update_last_used("h", 5);
    assert_eq!(keys.keys[0].last_used_at, Some(5));
    assert!(keys.find_by_hash("h", 172_799).is_some());
    assert!(keys.find_by_hash("h", 172_800).is_none());
}

#[test]
fn rotation_refuses_a_successor_equal_to_the_old_token() {
    let mut store = AuthStore::new();
    let user = registered(&mut store);
    start_session(&mut store, user.id, "same", 100, NOW).unwrap();
    assert!(matches!(
        rotate_session(&mut store, "same", "same", 100, NOW),
        Err(AppError::TokenInvalid)
    ));
    assert_eq!(store.sessions.tokens.len(), 1);
    assert!(store.sessions.find_by_hash(&hash_api_key("same"), NOW).is_some());
}

#[test]
fn tokens_of_one_second_differ_by_id() {
    let mut store = AuthStore::new();
    let user = registered(&mut store);
    let (_, first) = issue_token_pair(&user, &jwt(), 1, NOW);
    let (_, second) = issue_token_pair(&user, &jwt(), 2, NOW);
    assert_ne!(first.jti, second.jti);
    assert_eq!(first.iat, second.iat);
}

#[test]
fn key_creation_times_never_go_backwards() {
    let mut keys = ApiKeyRepository::new();
    keys.create(1, "a", "p", "h1", None, 500).unwrap();
    let late = keys.create(1, "b", "p", "h2", None, 400).unwrap();
    assert_eq!(late.created_at, 500);
    keys.create(1, "c", "p", "h3", None, 600).unwrap();
    let listed = keys.list_for_user(1, 600);
    let names: Vec<&str> = listed.iter().map(|k| k.name.as_str()).collect();
    assert_eq!(names, vec!["c", "b", "a"]);
}

#[test]
fn stored_hash_has_fixed_length() {
    let h = hash_api_key("");
    assert_eq!(h, "e3b0c44298fc1c149afbf4c8996fb92427ae41e4649b934ca495991b7852b855");
    assert_eq!(hash_api_key("mnt_live_x").len(), 64);
}
