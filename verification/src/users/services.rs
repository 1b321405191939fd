use vstd::prelude::*;

use super::errors::{refused_with, UserServiceError, UserServiceErrorView};
use super::models::User;
use super::validation::{
    email_error, password_error, password_problem, username_error, username_problem, valid_email,
    valid_password, valid_username, validate_email, validate_password, validate_username,
};
use crate::crypto::{hash_password, spec_verify_password, verify_password};

verus! {

/// The first check that refuses a registration, in the order the service
/// makes them: the email, the username and the password are validated, then
/// the email and the username must be free.
pub open spec fn registration_error(
    email: Seq<char>,
    username: Seq<char>,
    password: Seq<char>,
    email_taken: bool,
    username_taken: bool,
) -> Option<UserServiceErrorView> {
    if email_error(email) is Some {
        email_error(email)
    } else if username_error(username) is Some {
        username_error(username)
    } else if password_error(password) is Some {
        password_error(password)
    } else if email_taken {
        Some(UserServiceErrorView::EmailAlreadyExists)
    } else if username_taken {
        Some(UserServiceErrorView::UsernameAlreadyExists)
    } else {
        None
    }
}

/// A password, username or email is refused with a message exactly when it is
/// not valid.
pub proof fn lemma_problems_are_invalidity(email: Seq<char>, username: Seq<char>, password: Seq<char>)
    ensures
        password_problem(password) is None <==> valid_password(password),
        username_problem(username) is None <==> valid_username(username),
        email_error(email) is None <==> valid_email(email),
{
}

/// A registration is refused exactly when the email, the username or the
/// password is not valid, or the email or username is taken; with a valid
/// email and username, an invalid password (too short, too long, or missing
/// an uppercase letter, a lowercase letter or a digit) is refused as a weak
/// password.
pub proof fn lemma_registration_refused_exactly_when_invalid_or_taken(
    email: Seq<char>,
    username: Seq<char>,
    password: Seq<char>,
    email_taken: bool,
    username_taken: bool,
)
    ensures
        registration_error(email, username, password, email_taken, username_taken) is None <==> (
        valid_email(email) && valid_username(username) && valid_password(password) && !email_taken
            && !username_taken),
        valid_email(email) && valid_username(username) && !valid_password(password) ==> (
        registration_error(email, username, password, email_taken, username_taken) matches Some(
            UserServiceErrorView::WeakPassword(_),
        )),
{
    lemma_problems_are_invalidity(email, username, password);
}

/// Registers a user. `email_taken` and `username_taken` say whether a user
/// with that email, or that username, is already stored.
///
/// Refused with the first failing check of `registration_error`; otherwise
/// the password is hashed and the new user holds the given fields and a hash
/// that the password checks against. A validated password is at most 128
/// bytes long, so its hashing always succeeds.
pub fn register_user(
    display_name: String,
    bio: String,
    email: String,
    username: String,
    password: String,
    email_taken: bool,
    username_taken: bool,
) -> (res: Result<User, UserServiceError>)
    ensures
        registration_error(email@, username@, password@, email_taken, username_taken) matches Some(
            e,
        ) ==> refused_with(res, e),
        registration_error(email@, username@, password@, email_taken, username_taken) is None
            ==> res is Ok,
        res is Ok <==> (valid_email(email@) && valid_username(username@) && valid_password(password@)
            && !email_taken && !username_taken),
        valid_email(email@) && valid_username(username@) && !valid_password(password@) ==> (res matches Err(
            UserServiceError::WeakPassword(_),
        )),
        res matches Ok(u) ==> {
            &&& u.display_name == display_name
            &&& u.bio == bio
            &&& u.email == email
            &&& u.username == username
            &&& spec_verify_password(password@, u.password_hash@) == Some(true)
            &&& u.created_at == u.updated_at
        },
{
    validate_email(email.as_str())?;
    validate_username(username.as_str())?;
    validate_password(password.as_str())?;
    if email_taken {
        return Err(UserServiceError::EmailAlreadyExists);
    }
    if username_taken {
        return Err(UserServiceError::UsernameAlreadyExists);
    }
    let password_hash = match hash_password(password.as_str()) {
        Ok(h) => h,
        Err(m) => return Err(UserServiceError::PasswordHash(m)),
    };
    Ok(User::new(display_name, bio, email, username, password_hash))
}

/// The user that a lookup by id found, or `UserNotFound`.
pub fn get_user_by_user_id(found: Option<User>) -> (res: Result<User, UserServiceError>)
    ensures
        match found {
            Some(u) => res == Ok::<User, UserServiceError>(u),
            None => res matches Err(e) && e@ == UserServiceErrorView::UserNotFound,
        },
{
    match found {
        Some(u) => Ok(u),
        None => Err(UserServiceError::UserNotFound),
    }
}

/// Changes a user's username. `user` is the stored user (if any) and
/// `username_taken` says whether some user already has `new_username`.
///
/// The username is validated, then must be free, then the user must exist;
/// the result is the user with the new username and nothing else changed but
/// the update time.
pub fn change_username(user: Option<User>, new_username: String, username_taken: bool) -> (res:
    Result<User, UserServiceError>)
    ensures
        res is Ok <==> (valid_username(new_username@) && !username_taken && user is Some),
        username_error(new_username@) matches Some(e) ==> refused_with(res, e),
        username_error(new_username@) is None && username_taken ==> refused_with(res, UserServiceErrorView::UsernameAlreadyExists),
        username_error(new_username@) is None && !username_taken && user is None ==> refused_with(res, UserServiceErrorView::UserNotFound),
        user matches Some(u) ==> (username_error(new_username@) is None && !username_taken ==> (res
            matches Ok(v) && v == (User { username: new_username, updated_at: v.updated_at, ..u }))),
{
    validate_username(new_username.as_str())?;
    if username_taken {
        return Err(UserServiceError::UsernameAlreadyExists);
    }
    let mut user = get_user_by_user_id(user)?;
    user.set_username(new_username);
    Ok(user)
}

/// Changes a user's email. `email_taken` says whether some user already has
/// `new_email`.
///
/// The email is validated, then must be free, then the user must exist; the
/// result is the user with the new email and nothing else changed but the
/// update time.
pub fn change_email(user: Option<User>, new_email: String, email_taken: bool) -> (res: Result<
    User,
    UserServiceError,
>)
    ensures
        res is Ok <==> (valid_email(new_email@) && !email_taken && user is Some),
        email_error(new_email@) matches Some(e) ==> refused_with(res, e),
        email_error(new_email@) is None && email_taken ==> refused_with(res, UserServiceErrorView::EmailAlreadyExists),
        email_error(new_email@) is None && !email_taken && user is None ==> refused_with(res, UserServiceErrorView::UserNotFound),
        user matches Some(u) ==> (email_error(new_email@) is None && !email_taken ==> (res matches Ok(
            v,
        ) && v == (User { email: new_email, updated_at: v.updated_at, ..u }))),
{
    validate_email(new_email.as_str())?;
    if email_taken {
        return Err(UserServiceError::EmailAlreadyExists);
    }
    let mut user = get_user_by_user_id(user)?;
    user.set_email(new_email);
    Ok(user)
}

/// Changes a user's display name and bio.
pub fn change_profile(user: Option<User>, display_name: String, bio: String) -> (res: Result<
    User,
    UserServiceError,
>)
    ensures
        user is None ==> refused_with(res, UserServiceErrorView::UserNotFound),
        user matches Some(u) ==> (res matches Ok(v) && v == (User {
            display_name,
            bio,
            updated_at: v.updated_at,
            ..u
        })),
{
    let mut user = get_user_by_user_id(user)?;
    user.set_display_name(display_name);
    user.set_bio(bio);
    Ok(user)
}

/// Changes a user's password.
///
/// The new password is validated, then the user must exist, then the old
/// password must check against the stored hash (`InvalidPassword` where it
/// does not, `PasswordHash` where the stored hash cannot be read). The result
/// holds a hash of the new password and is otherwise the stored user but for
/// the update time.
pub fn change_password(user: Option<User>, old_password: String, new_password: String) -> (res:
    Result<User, UserServiceError>)
    ensures
        res is Ok ==> valid_password(new_password@) && user is Some,
        user matches Some(u) ==> (valid_password(new_password@) && spec_verify_password(
            old_password@,
            u.password_hash@,
        ) == Some(true) ==> res is Ok),
        password_error(new_password@) matches Some(e) ==> refused_with(res, e),
        password_error(new_password@) is None && user is None ==> refused_with(res, UserServiceErrorView::UserNotFound),
        user matches Some(u) ==> password_error(new_password@) is None ==> {
            match spec_verify_password(old_password@, u.password_hash@) {
                None => res matches Err(UserServiceError::PasswordHash(_)),
                Some(false) => refused_with(res, UserServiceErrorView::InvalidPassword),
                Some(true) => res is Ok,
            }
        },
        res matches Ok(v) ==> (user matches Some(u) && v == (User {
            password_hash: v.password_hash,
            updated_at: v.updated_at,
            ..u
        }) && spec_verify_password(new_password@, v.password_hash@) == Some(true)),
{
    validate_password(new_password.as_str())?;
    let mut user = get_user_by_user_id(user)?;
    match verify_password(old_password.as_str(), user.password_hash.as_str()) {
        Ok(true) => {},
        Ok(false) => return Err(UserServiceError::InvalidPassword),
        Err(m) => return Err(UserServiceError::PasswordHash(m)),
    }
    let new_hash = match hash_password(new_password.as_str()) {
        Ok(h) => h,
        Err(m) => return Err(UserServiceError::PasswordHash(m)),
    };
    user.set_password_hash(new_hash);
    Ok(user)
}

/// Deleting a user first finds it: the found user, or `UserNotFound`.
pub fn delete_user(found: Option<User>) -> (res: Result<User, UserServiceError>)
    ensures
        match found {
            Some(u) => res == Ok::<User, UserServiceError>(u),
            None => res matches Err(e) && e@ == UserServiceErrorView::UserNotFound,
        },
{
    get_user_by_user_id(found)
}

} // verus!
