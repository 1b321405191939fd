use vstd::prelude::*;

verus! {

/// Everything that can go wrong in the user services.
///
/// The message variants carry the text shown to the client; the
/// `PasswordHash` and `Database` variants carry the message of the
/// underlying failure.
#[derive(Debug)]
pub enum UserServiceError {
    UserNotFound,
    EmailAlreadyExists,
    UsernameAlreadyExists,
    InvalidCredentials,
    InvalidEmail(String),
    InvalidUsername(String),
    WeakPassword(String),
    InvalidPassword,
    PasswordHash(String),
    Database(String),
}

/// A `UserServiceError` with its texts taken as character sequences.
pub enum UserServiceErrorView {
    UserNotFound,
    EmailAlreadyExists,
    UsernameAlreadyExists,
    InvalidCredentials,
    InvalidEmail(Seq<char>),
    InvalidUsername(Seq<char>),
    WeakPassword(Seq<char>),
    InvalidPassword,
    PasswordHash(Seq<char>),
    Database(Seq<char>),
}

impl View for UserServiceError {
    type V = UserServiceErrorView;

    open spec fn view(&self) -> UserServiceErrorView {
        match self {
            UserServiceError::UserNotFound => UserServiceErrorView::UserNotFound,
            UserServiceError::EmailAlreadyExists => UserServiceErrorView::EmailAlreadyExists,
            UserServiceError::UsernameAlreadyExists => UserServiceErrorView::UsernameAlreadyExists,
            UserServiceError::InvalidCredentials => UserServiceErrorView::InvalidCredentials,
            UserServiceError::InvalidEmail(m) => UserServiceErrorView::InvalidEmail(m@),
            UserServiceError::InvalidUsername(m) => UserServiceErrorView::InvalidUsername(m@),
            UserServiceError::WeakPassword(m) => UserServiceErrorView::WeakPassword(m@),
            UserServiceError::InvalidPassword => UserServiceErrorView::InvalidPassword,
            UserServiceError::PasswordHash(m) => UserServiceErrorView::PasswordHash(m@),
            UserServiceError::Database(m) => UserServiceErrorView::Database(m@),
        }
    }
}

/// `res` is a refusal whose error is `e`.
pub open spec fn refused_with<T>(res: Result<T, UserServiceError>, e: UserServiceErrorView) -> bool {
    res matches Err(r) && r@ == e
}

} // verus!
