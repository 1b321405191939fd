use backend::auth::errors::AuthError;
use backend::auth::extractors::parse_bearer_token;
use backend::auth::models::{Session, SESSION_LIFETIME_NANOS};
use backend::auth::services::{check_session, login, refresh_session, validate_session};
use backend::crypto::hash_password;
use backend::errors::AppError;
use backend::users::models::User;

const TOKEN_TEXT: &str = "550e8400-e29b-41d4-a716-446655440000";
const TOKEN: u128 = 0x550e8400_e29b_41d4_a716_446655440000;

fn user_with_password(password: &str) -> User {
    let hash = hash_password(password).expect("hashing works");
    User::new(
        "Tester".to_string(),
        String::new(),
        "tester@test.com".to_string(),
        "tester".to_string(),
        hash,
    )
}

fn unauthorized_message(res: Result<u128, AppError>) -> String {
    match res {
        Err(AppError::Unauthorized(m)) => m,
        other => panic!("expected unauthorized, got {:?}", other),
    }
}

#[test]
fn bearer_token_is_read() {
    let header = format!("Bearer {}", TOKEN_TEXT);
    assert_eq!(parse_bearer_token(Some(&header)).unwrap(), TOKEN);
    let simple = "Bearer 550e8400e29b41d4a716446655440000";
    assert_eq!(parse_bearer_token(Some(simple)).unwrap(), TOKEN);
}

#[test]
fn missing_or_foreign_authorization_is_refused() {
    let msg = "missing or invalid authorization header";
    assert_eq!(unauthorized_message(parse_bearer_token(None)), msg);
    let basic = format!("Basic {}", TOKEN_TEXT);
    assert_eq!(unauthorized_message(parse_bearer_token(Some(&basic))), msg);
    let lower = format!("bearer {}", TOKEN_TEXT);
    assert_eq!(unauthorized_message(parse_bearer_token(Some(&lower))), msg);
    assert_eq!(unauthorized_message(parse_bearer_token(Some("Bearer"))), msg);
}

#[test]
fn malformed_token_is_refused() {
    let msg = "invalid token format";
    assert_eq!(unauthorized_message(parse_bearer_token(Some("Bearer nope"))), msg);
    assert_eq!(unauthorized_message(parse_bearer_token(Some("Bearer "))), msg);
    let extra_space = format!("Bearer  {}", TOKEN_TEXT);
    assert_eq!(unauthorized_message(parse_bearer_token(Some(&extra_space))), msg);
}

#[test]
fn session_expires_a_week_after_creation() {
    let s = Session::new_at(7, 9, 1_000);
    assert_eq!(s.token, 7);
    assert_eq!(s.user_id, 9);
    assert_eq!(s.created_at, 1_000);
    assert_eq!(s.expires_at, 1_000 + 604_800_000_000_000);
    assert_eq!(SESSION_LIFETIME_NANOS, 7 * 24 * 60 * 60 * 1_000_000_000);
    assert!(!s.is_expired_at(1_000));
    assert!(!s.is_expired_at(s.expires_at));
    assert!(s.is_expired_at(s.expires_at + 1));
}

#[test]
fn session_expiry_saturates() {
    let s = Session::new_at(1, 1, i128::MAX - 5);
    assert_eq!(s.expires_at, i128::MAX);
    assert!(!s.is_expired_at(i128::MAX));
}

#[test]
fn instants_keep_nanoseconds() {
    assert_eq!(backend::clock::instant_nanos(1, 5), 1_000_000_005);
    assert_eq!(backend::clock::instant_nanos(-1, 999_999_999), -1);
    assert_eq!(backend::clock::instant_nanos(1_700_000_000, 123_456_789), 1_700_000_000_123_456_789);
}

#[test]
fn new_session_has_fresh_token_and_full_lifetime() {
    let a = Session::new(42);
    let b = Session::new(42);
    assert_eq!(a.user_id, 42);
    assert_eq!(a.expires_at, a.created_at + SESSION_LIFETIME_NANOS);
    assert_ne!(a.token, b.token);
}

#[test]
fn login_by_email_with_right_password() {
    let user = user_with_password("Password123!");
    let id = user.id;
    let session = login(Some(user), None, "Password123!").expect("login succeeds");
    assert_eq!(session.user_id, id);
}

#[test]
fn login_by_username_with_right_password() {
    let user = user_with_password("Password123!");
    let id = user.id;
    let session = login(None, Some(user), "Password123!").expect("login succeeds");
    assert_eq!(session.user_id, id);
}

#[test]
fn login_prefers_the_email_match() {
    let by_email = user_with_password("Password123!");
    let by_username = user_with_password("Other456!x");
    let id = by_email.id;
    let session = login(Some(by_email), Some(by_username), "Password123!").unwrap();
    assert_eq!(session.user_id, id);
    let by_email = user_with_password("Password123!");
    let by_username = user_with_password("Other456!x");
    assert!(matches!(
        login(Some(by_email), Some(by_username), "Other456!x"),
        Err(AuthError::InvalidCredentials)
    ));
}

#[test]
fn login_with_unknown_identifier_is_refused() {
    assert!(matches!(login(None, None, "wrongpass"), Err(AuthError::InvalidCredentials)));
}

#[test]
fn login_with_wrong_password_is_refused() {
    let user = user_with_password("Password123!");
    assert!(matches!(
        login(Some(user), None, "WrongPassword999!"),
        Err(AuthError::InvalidCredentials)
    ));
}

#[test]
fn login_against_unreadable_hash_fails() {
    let user = User::new(
        "x".to_string(),
        String::new(),
        "x@y.z".to_string(),
        "xyz".to_string(),
        "not-a-hash".to_string(),
    );
    assert!(matches!(login(Some(user), None, "Password123!"), Err(AuthError::Password(_))));
}

#[test]
fn logging_in_twice_gives_different_tokens() {
    let first = login(Some(user_with_password("Password123!")), None, "Password123!").unwrap();
    let second = login(Some(user_with_password("Password123!")), None, "Password123!").unwrap();
    assert_ne!(first.token, second.token);
}

#[test]
fn session_check_order() {
    let user = || user_with_password("Password123!");
    let live = Session::new_at(1, 2, 100);
    assert!(matches!(check_session(None, Some(user()), 100), Err(AuthError::InvalidToken)));
    assert!(matches!(check_session(Some(live), None, 100), Err(AuthError::InvalidToken)));
    assert!(matches!(check_session(None, None, 100), Err(AuthError::InvalidToken)));
    let late = live.expires_at + 1;
    assert!(matches!(check_session(Some(live), Some(user()), late), Err(AuthError::TokenExpired)));
    let (s, _) = check_session(Some(live), Some(user()), live.expires_at).unwrap();
    assert_eq!(s, live);
}

#[test]
fn validate_session_against_the_clock() {
    let user = user_with_password("Password123!");
    let fresh = Session::new(user.id);
    let (s, u) = validate_session(Some(fresh), Some(user)).unwrap();
    assert_eq!(s, fresh);
    assert_eq!(u.id, fresh.user_id);
    let old = Session::new_at(3, 4, 0);
    let user = user_with_password("Password123!");
    assert!(matches!(validate_session(Some(old), Some(user)), Err(AuthError::TokenExpired)));
}

#[test]
fn refresh_opens_a_new_session_of_the_same_user() {
    let user = user_with_password("Password123!");
    let id = user.id;
    let current = Session::new(id);
    let renewed = refresh_session(Some(current), Some(user)).unwrap();
    assert_eq!(renewed.user_id, id);
    assert_ne!(renewed.token, current.token);
}

#[test]
fn refresh_after_logout_fails() {
    let user = user_with_password("Password123!");
    assert!(matches!(refresh_session(None, Some(user)), Err(AuthError::InvalidToken)));
}

#[test]
fn bearer_token_reads_back_hyphenated_uuids() {
    for value in [0u128, 1, TOKEN, u128::MAX, 0x0123_4567_89ab_cdef_fedc_ba98_7654_3210] {
        let id = uuid::Uuid::from_u128(value);
        let header = format!("Bearer {}", id);
        assert_eq!(parse_bearer_token(Some(&header)).unwrap(), value);
    }
    let fresh = uuid::Uuid::now_v7();
    let header = format!("Bearer {}", fresh);
    assert_eq!(parse_bearer_token(Some(&header)).unwrap(), fresh.as_u128());
}
