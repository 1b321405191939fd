use vstd::prelude::*;

use crate::clock::now_nanos;
use crate::ids::new_id;

verus! {

/// How long a session lasts: seven days, in nanoseconds.
pub const SESSION_LIFETIME_NANOS: i128 = 604_800_000_000_000i128;

/// When a session created at `created_at` expires: `SESSION_LIFETIME_NANOS`
/// later, or the last representable instant where that would overflow (which
/// no clock reading comes near).
pub open spec fn session_expiry(created_at: i128) -> i128 {
    if created_at <= i128::MAX - SESSION_LIFETIME_NANOS {
        (created_at + SESSION_LIFETIME_NANOS) as i128
    } else {
        i128::MAX
    }
}

/// A login session: the bearer token that names it, its user, and its times
/// in nanoseconds since the Unix epoch.
#[derive(Debug, Clone, Copy, PartialEq, Eq, Structural)]
pub struct Session {
    pub token: u128,
    pub user_id: u128,
    pub expires_at: i128,
    pub created_at: i128,
}

impl Session {
    /// A session of `user_id` created at `now` under `token`.
    pub fn new_at(token: u128, user_id: u128, now: i128) -> (session: Session)
        ensures
            session.token == token,
            session.user_id == user_id,
            session.created_at == now,
            session.expires_at == session_expiry(now),
    {
        let expires_at = if now <= i128::MAX - SESSION_LIFETIME_NANOS {
            now + SESSION_LIFETIME_NANOS
        } else {
            i128::MAX
        };
        Session { token, user_id, expires_at, created_at: now }
    }

    /// A new session of `user_id` with a fresh token, created now.
    pub fn new(user_id: u128) -> (session: Session)
        ensures
            session.user_id == user_id,
            session.expires_at == session_expiry(session.created_at),
    {
        Session::new_at(new_id(), user_id, now_nanos())
    }

    /// The session has expired at time `now`: its expiry lies before `now`.
    pub open spec fn spec_is_expired_at(&self, now: i128) -> bool {
        self.expires_at < now
    }

    /// Whether the session has expired at time `now`.
    pub fn is_expired_at(&self, now: i128) -> (res: bool)
        ensures
            res == self.spec_is_expired_at(now),
    {
        self.expires_at < now
    }
}

} // verus!
