use mintora_auth::error::AppError;
use mintora_auth::model::UserRole;
use mintora_auth::token::{extract_user_id, issue_claims, validate_token, Claims, TokenType};

const ID: u128 = 0x67e5_5044_10b1_426f_9247_bb68_0e5f_e0c8;

fn claims(kind: TokenType, now: i64, ttl: i64) -> Claims {
    issue_claims(kind, ID, 42, "a@example.com", UserRole::User, now, ttl)
}

#[test]
fn issued_claims_fields() {
    let c = claims(TokenType::Access, 1_000, 900);
    assert_eq!(c.sub, "67e55044-10b1-426f-9247-bb680e5fe0c8");
    assert_eq!(c.email, "a@example.com");
    assert_eq!(c.role, "user");
    assert_eq!(c.iat, 1_000);
    assert_eq!(c.exp, 1_900);
    assert_eq!(c.token_type, TokenType::Access);
    assert_eq!(c.jti, "00000000-0000-0000-0000-00000000002a");
    let admin = issue_claims(TokenType::Refresh, ID, 43, "b@example.com", UserRole::Admin, 5, 10);
    assert_eq!(admin.role, "admin");
    assert_eq!(admin.token_type, TokenType::Refresh);
}

#[test]
fn issued_token_verifies_immediately() {
    for kind in [TokenType::Access, TokenType::Refresh] {
        let c = claims(kind, 1_000, 900);
        let back = validate_token(Some(c), kind, 1_000).unwrap();
        assert_eq!(back.email, "a@example.com");
        assert_eq!(back.role, "user");
        assert_eq!(extract_user_id(&back).unwrap(), ID);
    }
    let zero_ttl = claims(TokenType::Access, 1_000, 0);
    assert!(validate_token(Some(zero_ttl), TokenType::Access, 1_000).is_ok());
}

#[test]
fn wrong_kind_is_invalid_not_expired() {
    let c = claims(TokenType::Refresh, 1_000, 900);
    let r = validate_token(Some(c), TokenType::Access, 1_000);
    assert!(matches!(r, Err(AppError::TokenInvalid)));
    let expired = claims(TokenType::Access, 1_000, 10);
    let r = validate_token(Some(expired), TokenType::Refresh, 5_000);
    assert!(matches!(r, Err(AppError::TokenInvalid)));
}

#[test]
fn elapsed_token_is_expired() {
    let c = claims(TokenType::Access, 1_000, 10);
    assert!(matches!(
        validate_token(Some(c), TokenType::Access, 1_011),
        Err(AppError::TokenExpired)
    ));
    let c = claims(TokenType::Access, 1_000, 10);
    assert!(validate_token(Some(c), TokenType::Access, 1_010).is_ok());
}

#[test]
fn undecodable_token_is_invalid() {
    assert!(matches!(
        validate_token(None, TokenType::Access, 0),
        Err(AppError::TokenInvalid)
    ));
}

#[test]
fn malformed_subject_is_invalid() {
    let mut c = claims(TokenType::Access, 0, 10);
    c.sub = "not-a-uuid".to_string();
    assert!(matches!(extract_user_id(&c), Err(AppError::TokenInvalid)));
}

#[test]
fn failures_map_to_http_statuses() {
    assert_eq!(AppError::TokenExpired.status_code(), 401);
    assert_eq!(AppError::Forbidden.status_code(), 403);
    assert_eq!(AppError::NotFound.status_code(), 404);
    assert_eq!(AppError::Database.status_code(), 500);
    assert_eq!(AppError::ValidationError(String::new()).status_code(), 400);
}
