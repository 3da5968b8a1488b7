use auth_core::error::{Error, TokenFault};
use auth_core::jwt::{issue_token, token_expiry, validate_token, CanDecodeJwt, TOKEN_TTL_SECS};

#[test]
fn issue_then_validate_round_trips_the_identity() {
    let now = jsonwebtoken::get_current_timestamp();
    let id: u128 = 0x0123_4567_89ab_cdef_0123_4567_89ab_cdef;
    let exp = token_expiry(now);
    let token = issue_token(id, exp, "round-trip-secret").expect("signing succeeds");
    let claims = validate_token(&token, "round-trip-secret").expect("fresh token validates");
    assert_eq!(claims.user_id, id);
    assert_eq!(claims.expires_at, exp);
}

#[test]
fn decode_jwt_on_string_matches_validate_token() {
    let now = jsonwebtoken::get_current_timestamp();
    let token = issue_token(9, token_expiry(now), "secret").expect("signing succeeds");
    let claims = token.decode_jwt("secret").expect("fresh token validates");
    assert_eq!(claims.user_id, 9);
}

#[test]
fn expired_token_fails_with_unauthorized() {
    let now = jsonwebtoken::get_current_timestamp();
    // Well past the decoder's clock-skew leeway.
    let token = issue_token(5, (now - 3600) as i64, "secret").expect("signing succeeds");
    match validate_token(&token, "secret") {
        Err(Error::Unauthorized(_)) => {},
        other => panic!("expected Unauthorized, got {:?}", other),
    }
}

#[test]
fn wrong_secret_fails_with_unauthorized_never_internal() {
    let now = jsonwebtoken::get_current_timestamp();
    let token = issue_token(5, token_expiry(now), "secret-a").expect("signing succeeds");
    let r = validate_token(&token, "secret-b");
    assert!(!matches!(r, Err(Error::InternalServerError)));
    assert!(matches!(r, Err(Error::Unauthorized(_))));
}

#[test]
fn garbage_token_fails_with_unauthorized() {
    match validate_token("not.a.token", "secret") {
        Err(Error::Unauthorized(_)) => {},
        other => panic!("expected Unauthorized, got {:?}", other),
    }
}

#[test]
fn token_expiry_is_now_plus_ttl_and_clamps() {
    assert_eq!(token_expiry(1_700_000_000), 1_700_000_000 + TOKEN_TTL_SECS as i64);
    assert_eq!(token_expiry(u64::MAX), i64::MAX);
}

#[test]
fn token_fault_messages_are_category_specific() {
    match Error::from_token_fault(TokenFault::InvalidToken) {
        Error::Unauthorized(m) => assert_eq!(m, "Token is invalid"),
        other => panic!("expected Unauthorized, got {:?}", other),
    }
    match Error::from_token_fault(TokenFault::InvalidIssuer) {
        Error::Unauthorized(m) => assert_eq!(m, "Issuer is invalid"),
        other => panic!("expected Unauthorized, got {:?}", other),
    }
    match Error::from_token_fault(TokenFault::Other) {
        Error::Unauthorized(m) => assert_eq!(m, "An issue was found with the token provided"),
        other => panic!("expected Unauthorized, got {:?}", other),
    }
}

#[test]
fn status_codes_match_the_taxonomy() {
    assert_eq!(Error::Unauthorized(String::new()).status_code(), 401);
    assert_eq!(Error::Forbidden(String::new()).status_code(), 403);
    assert_eq!(Error::NotFound(String::new()).status_code(), 404);
    assert_eq!(Error::UnprocessableEntity(String::new()).status_code(), 422);
    assert_eq!(Error::ValidationFailed(Vec::new()).status_code(), 400);
    assert_eq!(Error::InternalServerError.status_code(), 500);
    assert_eq!(Error::from_pool_failure().status_code(), 500);
    assert_eq!(Error::from_hash_failure().status_code(), 500);
}
