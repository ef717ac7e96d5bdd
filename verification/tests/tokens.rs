use jwt_auth::{AuthError, JwtManager, TokenClaims, TokenError, UserRole};

fn issued_at(manager: &JwtManager, role: UserRole, lifetime: i64, now: i64) -> String {
    manager
        .generate_jwt_at("u1", "Alice", role, None, lifetime, now)
        .expect("a token is issued")
}

#[test]
fn issue_then_verify_returns_the_claims() {
    let manager = JwtManager::new("secret");
    let token = manager
        .generate_jwt("u1", "Alice", UserRole::STUDENT, None, 3600)
        .expect("a token is issued");
    let claims = manager.decode_jwt(&token).expect("the token verifies");
    assert_eq!(claims.user_id, "u1");
    assert_eq!(claims.user_name, "Alice");
    assert_eq!(claims.role, UserRole::STUDENT);
    assert_eq!(claims.iap, None);
    assert_eq!(claims.exp, claims.iat + 3600);
}

#[test]
fn issue_then_verify_keeps_the_auxiliary_id() {
    let manager = JwtManager::new("secret");
    let token = manager
        .generate_jwt("u2", "Bob", UserRole::TEACHER, Some(42), 60)
        .expect("a token is issued");
    let claims = manager.decode_jwt(&token).expect("the token verifies");
    assert_eq!(claims.user_id, "u2");
    assert_eq!(claims.user_name, "Bob");
    assert_eq!(claims.role, UserRole::TEACHER);
    assert_eq!(claims.iap, Some(42));
    assert_eq!(claims.exp, claims.iat + 60);
}

#[test]
fn issue_at_a_given_time_gives_exact_claims() {
    let manager = JwtManager::new("secret");
    let token = manager
        .generate_jwt_at("u1", "Alice", UserRole::ADMIN, Some(7), 3600, 1_000_000)
        .expect("a token is issued");
    let claims = manager
        .decode_jwt_at(&token, 1_000_000)
        .expect("the token verifies");
    assert_eq!(
        claims,
        TokenClaims {
            user_id: "u1".to_string(),
            user_name: "Alice".to_string(),
            iap: Some(7),
            iat: 1_000_000,
            exp: 1_003_600,
            role: UserRole::ADMIN,
        }
    );
}

#[test]
fn issuing_twice_at_one_time_gives_one_token() {
    let manager = JwtManager::new("secret");
    let first = issued_at(&manager, UserRole::MANAGER, 10, 500);
    let second = issued_at(&manager, UserRole::MANAGER, 10, 500);
    assert_eq!(first, second);
    let other = issued_at(&manager, UserRole::MANAGER, 11, 500);
    assert_ne!(first, other);
}

#[test]
fn token_has_three_segments() {
    let manager = JwtManager::new("secret");
    let token = issued_at(&manager, UserRole::STUDENT, 3600, 1_000_000);
    assert_eq!(token.split('.').count(), 3);
    assert!(token.split('.').all(|segment| !segment.is_empty()));
}

#[test]
fn token_is_valid_until_just_before_expiry() {
    let manager = JwtManager::new("secret");
    let token = issued_at(&manager, UserRole::STUDENT, 3600, 1_000_000);
    assert!(manager.decode_jwt_at(&token, 1_000_000).is_ok());
    assert!(manager.decode_jwt_at(&token, 1_003_599).is_ok());
    assert!(manager.decode_jwt_at(&token, 0).is_ok());
    assert!(manager.decode_jwt_at(&token, -5).is_ok());
}

#[test]
fn token_is_refused_at_expiry_and_after() {
    let manager = JwtManager::new("secret");
    let token = issued_at(&manager, UserRole::STUDENT, 3600, 1_000_000);
    assert_eq!(
        manager.decode_jwt_at(&token, 1_003_600),
        Err(TokenError::InvalidOrExpired)
    );
    assert_eq!(
        manager.decode_jwt_at(&token, 1_003_601),
        Err(TokenError::InvalidOrExpired)
    );
    assert_eq!(
        manager.decode_jwt_at(&token, i64::MAX),
        Err(TokenError::InvalidOrExpired)
    );
}

#[test]
fn token_expired_half_a_minute_ago_is_refused() {
    let manager = JwtManager::new("secret");
    let probe = manager
        .generate_jwt("u1", "Alice", UserRole::STUDENT, None, 3600)
        .expect("a token is issued");
    let now = manager.decode_jwt(&probe).expect("the token verifies").iat as i64;
    let token = issued_at(&manager, UserRole::STUDENT, 70, now - 100);
    assert_eq!(manager.decode_jwt(&token), Err(TokenError::InvalidOrExpired));
    assert!(!manager.has_role(&token, &[UserRole::STUDENT]));
    assert_eq!(
        manager.authorize_roles(&token, &[UserRole::STUDENT]),
        Err(AuthError::Jwt(TokenError::InvalidOrExpired))
    );
}

#[test]
fn zero_lifetime_expires_at_once() {
    let manager = JwtManager::new("secret");
    let token = issued_at(&manager, UserRole::STUDENT, 0, 1_000_000);
    assert_eq!(
        manager.decode_jwt_at(&token, 1_000_000),
        Err(TokenError::InvalidOrExpired)
    );
    assert!(manager.decode_jwt_at(&token, 999_999).is_ok());
    let fresh = manager
        .generate_jwt("u1", "Alice", UserRole::STUDENT, None, 0)
        .expect("a token is issued");
    assert_eq!(manager.decode_jwt(&fresh), Err(TokenError::InvalidOrExpired));
}

#[test]
fn negative_lifetime_gives_an_expired_token() {
    let manager = JwtManager::new("secret");
    let token = issued_at(&manager, UserRole::STUDENT, -10, 1_000_000);
    let claims = manager
        .decode_jwt_at(&token, 999_989)
        .expect("valid before its expiry");
    assert_eq!(claims.iat, 1_000_000);
    assert_eq!(claims.exp, 999_990);
    assert_eq!(
        manager.decode_jwt_at(&token, 1_000_000),
        Err(TokenError::InvalidOrExpired)
    );
    let fresh = manager
        .generate_jwt("u1", "Alice", UserRole::STUDENT, None, -10)
        .expect("a token is issued");
    assert_eq!(manager.decode_jwt(&fresh), Err(TokenError::InvalidOrExpired));
}

#[test]
fn times_that_do_not_fit_fail_to_sign() {
    let manager = JwtManager::new("secret");
    assert_eq!(
        manager.generate_jwt_at("u1", "Alice", UserRole::STUDENT, None, 3600, -1),
        Err(TokenError::SigningFailure)
    );
    assert_eq!(
        manager.generate_jwt_at("u1", "Alice", UserRole::STUDENT, None, -1001, 1000),
        Err(TokenError::SigningFailure)
    );
    assert_eq!(
        manager.generate_jwt_at("u1", "Alice", UserRole::STUDENT, None, i64::MIN, 1000),
        Err(TokenError::SigningFailure)
    );
    assert!(manager
        .generate_jwt_at("u1", "Alice", UserRole::STUDENT, None, -1000, 1000)
        .is_ok());
}

#[test]
fn token_signed_with_another_secret_is_refused() {
    let issuer = JwtManager::new("secret-a");
    let verifier = JwtManager::new("secret-b");
    let token = issued_at(&issuer, UserRole::ADMIN, 3600, 1_000_000);
    assert!(issuer.decode_jwt_at(&token, 1_000_000).is_ok());
    assert_eq!(
        verifier.decode_jwt_at(&token, 1_000_000),
        Err(TokenError::InvalidOrExpired)
    );
    let fresh = issuer
        .generate_jwt("u1", "Alice", UserRole::ADMIN, None, 3600)
        .expect("a token is issued");
    assert_eq!(verifier.decode_jwt(&fresh), Err(TokenError::InvalidOrExpired));
}

#[test]
fn malformed_tokens_are_refused() {
    let manager = JwtManager::new("secret");
    for text in ["", "abc", "a.b", "a.b.c", "a.b.c.d", "not a token", ".."] {
        assert_eq!(
            manager.decode_jwt_at(text, 0),
            Err(TokenError::InvalidOrExpired)
        );
        assert_eq!(manager.decode_jwt(text), Err(TokenError::InvalidOrExpired));
    }
}

#[test]
fn tampered_token_is_refused() {
    let manager = JwtManager::new("secret");
    let token = issued_at(&manager, UserRole::STUDENT, 3600, 1_000_000);
    let other = issued_at(&manager, UserRole::ADMIN, 3600, 1_000_000);
    let signature = token.rsplit('.').next().expect("a signature");
    let mut parts = other.rsplitn(2, '.');
    parts.next();
    let message = parts.next().expect("a header and a payload");
    let forged = format!("{}.{}", message, signature);
    assert_eq!(
        manager.decode_jwt_at(&forged, 1_000_000),
        Err(TokenError::InvalidOrExpired)
    );
    let cut = &token[..token.len() - 1];
    assert_eq!(
        manager.decode_jwt_at(cut, 1_000_000),
        Err(TokenError::InvalidOrExpired)
    );
}

#[test]
fn manager_clone_shares_the_secret() {
    let manager = JwtManager::new("secret");
    let copy = manager.clone();
    let token = issued_at(&manager, UserRole::TEACHER, 3600, 1_000_000);
    assert_eq!(issued_at(&copy, UserRole::TEACHER, 3600, 1_000_000), token);
    assert!(copy.decode_jwt_at(&token, 1_000_000).is_ok());
}

#[test]
fn fresh_token_is_issued_at_the_current_time() {
    let manager = JwtManager::new("secret");
    let first = manager
        .generate_jwt("u1", "Alice", UserRole::STUDENT, None, 3600)
        .expect("a token is issued");
    let claims = manager.decode_jwt(&first).expect("the token verifies");
    assert!(claims.iat > 1_600_000_000);
    assert!(claims.iat < 32_503_680_000);
    let at_issue = manager
        .decode_jwt_at(&first, claims.iat as i64)
        .expect("valid when issued");
    assert_eq!(at_issue, claims);
}
