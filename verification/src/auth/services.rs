use vstd::prelude::*;

use super::errors::{AuthError, AuthErrorView};
use super::models::{session_expiry, Session};
use crate::clock::now_nanos;
use crate::crypto::{spec_verify_password, verify_password};
use crate::users::models::User;

verus! {

/// `res` is a refusal whose error is `e`.
pub open spec fn auth_refused_with<T>(res: Result<T, AuthError>, e: AuthErrorView) -> bool {
    res matches Err(r) && r@ == e
}

/// The user a login names: the one found by email if there is one, else the
/// one found by username.
pub open spec fn login_candidate(by_email: Option<User>, by_username: Option<User>) -> Option<User> {
    match by_email {
        Some(u) => Some(u),
        None => by_username,
    }
}

/// What a login decides: open a session for the user with this id, refuse
/// the credentials, or fail on a stored hash that cannot be read.
pub enum LoginDecision {
    Accept(u128),
    Refuse,
    HashUnreadable,
}

/// The decision of a login with `password`, where the identifier was looked
/// up both as an email (`by_email`) and as a username (`by_username`).
pub open spec fn login_decision(
    by_email: Option<User>,
    by_username: Option<User>,
    password: Seq<char>,
) -> LoginDecision {
    match login_candidate(by_email, by_username) {
        None => LoginDecision::Refuse,
        Some(u) => match spec_verify_password(password, u.password_hash@) {
            None => LoginDecision::HashUnreadable,
            Some(false) => LoginDecision::Refuse,
            Some(true) => LoginDecision::Accept(u.id),
        },
    }
}

/// Logs a user in. The identifier was looked up both as an email
/// (`by_email`) and as a username (`by_username`).
///
/// With no such user, or a password that does not check against its hash,
/// the login is refused with `InvalidCredentials`; a stored hash that cannot
/// be read gives `Password`. Otherwise a new session of that user is opened.
pub fn login(by_email: Option<User>, by_username: Option<User>, password: &str) -> (res: Result<
    Session,
    AuthError,
>)
    ensures
        match login_decision(by_email, by_username, password@) {
            LoginDecision::Accept(id) => res matches Ok(s) && s.user_id == id && s.expires_at
                == session_expiry(s.created_at),
            LoginDecision::Refuse => auth_refused_with(res, AuthErrorView::InvalidCredentials),
            LoginDecision::HashUnreadable => res matches Err(AuthError::Password(_)),
        },
{
    let user = match by_email {
        Some(u) => u,
        None => match by_username {
            Some(u) => u,
            None => return Err(AuthError::InvalidCredentials),
        },
    };
    match verify_password(password, user.password_hash.as_str()) {
        Ok(true) => {},
        Ok(false) => return Err(AuthError::InvalidCredentials),
        Err(m) => return Err(AuthError::Password(m)),
    }
    Ok(Session::new(user.id))
}

/// A user whose stored hash was made from `password` (as registration and a
/// password change make it) logs in with that password, whether the
/// identifier named them by email or, with no user of that email, by
/// username.
pub proof fn lemma_own_password_logs_in(user: User, password: Seq<char>, by_username: Option<User>)
    requires
        spec_verify_password(password, user.password_hash@) == Some(true),
    ensures
        login_decision(Some(user), by_username, password) == LoginDecision::Accept(user.id),
        login_decision(None, Some(user), password) == LoginDecision::Accept(user.id),
{
}

/// A session is valid from its creation to its expiry, and its expiry is
/// not before its creation.
pub proof fn lemma_session_valid_until_expiry(session: Session, now: i128)
    requires
        session.expires_at == session_expiry(session.created_at),
    ensures
        session.created_at <= session.expires_at,
        session.created_at <= now <= session.expires_at ==> !session.spec_is_expired_at(now),
        session.expires_at < now ==> session.spec_is_expired_at(now),
{
}

/// The outcome of checking a session at time `now`: the session found by
/// token and its user must both exist, and the session must not have
/// expired.
pub open spec fn session_check(session: Option<Session>, user: Option<User>, now: i128) -> Result<
    (Session, User),
    AuthErrorView,
> {
    match session {
        None => Err(AuthErrorView::InvalidToken),
        Some(s) => match user {
            None => Err(AuthErrorView::InvalidToken),
            Some(u) => if s.spec_is_expired_at(now) {
                Err(AuthErrorView::TokenExpired)
            } else {
                Ok((s, u))
            },
        },
    }
}

/// Checks a session at time `now`. `session` is what the lookup by token
/// found and `user` the user of that session.
pub fn check_session(session: Option<Session>, user: Option<User>, now: i128) -> (res: Result<
    (Session, User),
    AuthError,
>)
    ensures
        match session_check(session, user, now) {
            Ok(pair) => res == Ok::<(Session, User), AuthError>(pair),
            Err(e) => auth_refused_with(res, e),
        },
        session matches Some(s) ==> (user is Some && now <= s.expires_at ==> res is Ok),
        session matches Some(s) ==> (s.expires_at < now ==> res is Err),
        session is None || user is None ==> res is Err,
{
    let session = match session {
        Some(s) => s,
        None => return Err(AuthError::InvalidToken),
    };
    let user = match user {
        Some(u) => u,
        None => return Err(AuthError::InvalidToken),
    };
    if session.is_expired_at(now) {
        return Err(AuthError::TokenExpired);
    }
    Ok((session, user))
}

/// Checks a session against the clock: `check_session` at the current time.
///
/// A missing session or user is `InvalidToken`; otherwise the answer is the
/// pair itself, or `TokenExpired`, as the clock decides.
pub fn validate_session(session: Option<Session>, user: Option<User>) -> (res: Result<
    (Session, User),
    AuthError,
>)
    ensures
        session is None || user is None ==> auth_refused_with(res, AuthErrorView::InvalidToken),
        session matches Some(s) ==> user matches Some(u) ==> (res == Ok::<(Session, User), AuthError>(
            (s, u),
        ) || auth_refused_with(res, AuthErrorView::TokenExpired)),
        res matches Ok(pair) ==> session == Some(pair.0) && user == Some(pair.1),
{
    let now = now_nanos();
    check_session(session, user, now)
}

/// Replaces a session by a new one of the same user, where the old one is
/// still valid (as `validate_session` decides).
pub fn refresh_session(session: Option<Session>, user: Option<User>) -> (res: Result<
    Session,
    AuthError,
>)
    ensures
        session is None || user is None ==> auth_refused_with(res, AuthErrorView::InvalidToken),
        session matches Some(s) ==> user matches Some(u) ==> ((res matches Ok(n) && n.user_id == u.id
            && n.expires_at == session_expiry(n.created_at)) || auth_refused_with(
            res,
            AuthErrorView::TokenExpired,
        )),
{
    let (_, user) = validate_session(session, user)?;
    Ok(Session::new(user.id))
}

} // verus!
