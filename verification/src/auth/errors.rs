use vstd::prelude::*;

verus! {

/// Everything that can go wrong while logging in or checking a session.
#[derive(Debug)]
pub enum AuthError {
    InvalidCredentials,
    InvalidToken,
    TokenExpired,
    SessionNotFound,
    Database(String),
    Password(String),
}

/// An `AuthError` with its texts taken as character sequences.
pub enum AuthErrorView {
    InvalidCredentials,
    InvalidToken,
    TokenExpired,
    SessionNotFound,
    Database(Seq<char>),
    Password(Seq<char>),
}

impl View for AuthError {
    type V = AuthErrorView;

    open spec fn view(&self) -> AuthErrorView {
        match self {
            AuthError::InvalidCredentials => AuthErrorView::InvalidCredentials,
            AuthError::InvalidToken => AuthErrorView::InvalidToken,
            AuthError::TokenExpired => AuthErrorView::TokenExpired,
            AuthError::SessionNotFound => AuthErrorView::SessionNotFound,
            AuthError::Database(m) => AuthErrorView::Database(m@),
            AuthError::Password(m) => AuthErrorView::Password(m@),
        }
    }
}

} // verus!
