use auth_service::credentials::Email;
use auth_service::errors::BannedTokenStoreError;
use auth_service::memory::HashsetBannedTokenStore;
use auth_service::token::{
    check_revocation, claims_from_decoded, create_auth_cookie, create_token, expiry_at,
    generate_auth_cookie, generate_auth_cookie_at, generate_auth_token, issue_token_at, validate_token, Claims, DecodeFault,
    SameSite, SigningSecret, TokenError, JWT_COOKIE_NAME, TOKEN_TTL_SECONDS,
};

fn secret() -> SigningSecret {
    SigningSecret::parse("test-signing-secret".to_string()).unwrap()
}

fn now() -> i64 {
    std::time::SystemTime::now().duration_since(std::time::UNIX_EPOCH).unwrap().as_secs() as i64
}

#[test]
fn test_generate_auth_cookie() {
    let email = Email::parse("test@example.com".to_string()).ok().unwrap();
    let cookie = generate_auth_cookie(&email, &secret()).unwrap();
    assert_eq!(cookie.name, JWT_COOKIE_NAME);
    assert_eq!(cookie.value.split('.').count(), 3);
    assert_eq!(cookie.path, "/");
    assert_eq!(cookie.http_only, true);
    assert_eq!(cookie.same_site, SameSite::Lax);
}

#[test]
fn test_create_auth_cookie() {
    let token = "test_token".to_owned();
    let cookie = create_auth_cookie(token.clone());
    assert_eq!(cookie.name, JWT_COOKIE_NAME);
    assert_eq!(cookie.value, token);
    assert_eq!(cookie.path, "/");
    assert_eq!(cookie.http_only, true);
    assert_eq!(cookie.same_site, SameSite::Lax);
    assert_eq!(cookie.max_age_seconds, 600);
}

#[test]
fn test_generate_auth_token() {
    let email = Email::parse("test@example.com".to_string()).ok().unwrap();
    let result = generate_auth_token(&email, &secret()).unwrap();
    assert_eq!(result.split('.').count(), 3);
}

#[test]
fn test_validate_token_with_valid_token() {
    let email = Email::parse("test@example.com".to_string()).ok().unwrap();
    let token = generate_auth_token(&email, &secret()).unwrap();
    let banned_token_store = HashsetBannedTokenStore::default();
    let result = validate_token(&token, &banned_token_store, &secret()).unwrap();
    assert_eq!(result.sub, "test@example.com");

    let exp = now() + 9 * 60;

    assert!(result.exp > exp as usize);
}

#[test]
fn test_validate_token_with_invalid_token() {
    let token = "invalid_token".to_owned();
    let banned_token_store = HashsetBannedTokenStore::default();
    let result = validate_token(&token, &banned_token_store, &secret());
    assert!(result.is_err());
}

#[test]
fn token_ttl_is_ten_minutes() {
    assert_eq!(TOKEN_TTL_SECONDS, 600);
    assert_eq!(JWT_COOKIE_NAME, "jwt");
}

#[test]
fn expiry_is_now_plus_ttl() {
    assert_eq!(expiry_at(0), Some(600));
    assert_eq!(expiry_at(1_700_000_000), Some(1_700_000_600));
    assert_eq!(expiry_at(-600), Some(0));
    assert_eq!(expiry_at(-601), None);
    assert_eq!(expiry_at(i64::MIN), None);
    assert_eq!(expiry_at(i64::MAX), None);
    assert_eq!(expiry_at(i64::MAX - 599), None);
    assert_eq!(expiry_at(i64::MAX - 600), Some(i64::MAX as usize));
}

#[test]
fn signing_secret_must_not_be_empty() {
    assert!(SigningSecret::parse(String::new()).is_none());
    let s = SigningSecret::parse("s".to_string()).unwrap();
    assert_eq!(s.expose(), "s");
}

#[test]
fn issued_token_carries_subject_and_expiry() {
    let email = Email::parse("test@example.com".to_string()).ok().unwrap();
    let at = now();
    let token = issue_token_at(&email, at, &secret()).unwrap();
    assert_ne!(token, "test@example.com");
    let claims = validate_token(&token, &HashsetBannedTokenStore::default(), &secret()).unwrap();
    assert_eq!(claims.sub, "test@example.com");
    assert_eq!(claims.exp, (at + 600) as usize);
    assert_eq!(issue_token_at(&email, i64::MAX, &secret()), Err(TokenError::ExpiryOutOfRange));
}

#[test]
fn signing_is_a_function_of_claims_and_secret() {
    let claims = Claims { sub: "a@example.com".to_string(), exp: 2_000_000_000 };
    let a = create_token(&claims, &secret()).unwrap();
    let b = create_token(&claims, &secret()).unwrap();
    assert_eq!(a, b);
    let other = SigningSecret::parse("another-secret".to_string()).unwrap();
    assert_ne!(create_token(&claims, &other).unwrap(), a);
    let later = Claims { sub: "a@example.com".to_string(), exp: 2_000_000_001 };
    assert_ne!(create_token(&later, &secret()).unwrap(), a);
    // the header says HS256 and JWT
    assert!(a.starts_with("eyJ0eXAiOiJKV1QiLCJhbGciOiJIUzI1NiJ9."));
}

#[test]
fn expired_token_is_told_apart() {
    let email = Email::parse("test@example.com".to_string()).ok().unwrap();
    let token = issue_token_at(&email, now() - 3600, &secret()).unwrap();
    let r = validate_token(&token, &HashsetBannedTokenStore::default(), &secret());
    assert_eq!(r.err(), Some(TokenError::Expired));
}

#[test]
fn token_signed_with_another_secret_is_malformed() {
    let email = Email::parse("test@example.com".to_string()).ok().unwrap();
    let other = SigningSecret::parse("another-secret".to_string()).unwrap();
    let token = generate_auth_token(&email, &other).unwrap();
    let r = validate_token(&token, &HashsetBannedTokenStore::default(), &secret());
    assert_eq!(r.err(), Some(TokenError::Malformed));
    let r = validate_token("invalid_token", &HashsetBannedTokenStore::default(), &secret());
    assert_eq!(r.err(), Some(TokenError::Malformed));
}

#[test]
fn revoked_token_is_banned_before_its_signature_is_checked() {
    let email = Email::parse("test@example.com".to_string()).ok().unwrap();
    let token = generate_auth_token(&email, &secret()).unwrap();
    let mut store = HashsetBannedTokenStore::default();
    assert!(validate_token(&token, &store, &secret()).is_ok());
    store.add_token(token.clone()).unwrap();
    assert_eq!(validate_token(&token, &store, &secret()).err(), Some(TokenError::Banned));
    // a revoked text that is no token at all is banned too, not malformed
    store.add_token("invalid_token".to_string()).unwrap();
    assert_eq!(validate_token("invalid_token", &store, &secret()).err(), Some(TokenError::Banned));
}

#[test]
fn revocation_check_outcomes() {
    assert_eq!(check_revocation(Ok(true)), Err(TokenError::Banned));
    assert_eq!(check_revocation(Ok(false)), Ok(()));
    assert_eq!(
        check_revocation(Err(BannedTokenStoreError::UnexpectedError)),
        Err(TokenError::StoreFailure)
    );
}

#[test]
fn decoded_claims_outcomes() {
    let ok = claims_from_decoded(Ok((Some("a@example.com".to_string()), Some(42)))).unwrap();
    assert_eq!(ok.sub, "a@example.com");
    assert_eq!(ok.exp, 42);
    assert_eq!(claims_from_decoded(Ok((None, Some(42)))).err(), Some(TokenError::Malformed));
    assert_eq!(
        claims_from_decoded(Ok((Some("a".to_string()), None))).err(),
        Some(TokenError::Malformed)
    );
    assert_eq!(claims_from_decoded(Ok((None, None))).err(), Some(TokenError::Malformed));
    assert_eq!(claims_from_decoded(Err(DecodeFault::Expired)).err(), Some(TokenError::Expired));
    assert_eq!(claims_from_decoded(Err(DecodeFault::Rejected)).err(), Some(TokenError::Malformed));
}

#[test]
fn cookie_at_a_given_time_carries_the_token_of_that_time() {
    let email = Email::parse("test@example.com".to_string()).ok().unwrap();
    let at = now();
    let cookie = generate_auth_cookie_at(&email, at, &secret()).ok().unwrap();
    assert_eq!(cookie.name, JWT_COOKIE_NAME);
    assert_eq!(cookie.value, issue_token_at(&email, at, &secret()).unwrap());
    assert_eq!(cookie.max_age_seconds, 600);
    let r = generate_auth_cookie_at(&email, i64::MAX, &secret());
    assert_eq!(r.err(), Some(TokenError::ExpiryOutOfRange));
}
