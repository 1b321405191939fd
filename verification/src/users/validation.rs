use vstd::prelude::*;
use vstd::utf8::encode_utf8;

use super::errors::{UserServiceError, UserServiceErrorView};
use crate::text::{
    contains_char, is_alphanumeric, is_ascii_digit, is_lowercase, is_uppercase,
    spec_is_alphanumeric, spec_is_ascii_digit, spec_is_lowercase, spec_is_uppercase,
};

verus! {

/// A character a username may hold: a letter or digit, `_` or `-`.
pub open spec fn username_char(c: char) -> bool {
    spec_is_alphanumeric(c) || c == '_' || c == '-'
}

/// The length in bytes of the UTF-8 encoding of `s`, as `str::len` reports
/// it for a string whose characters are `s`.
pub open spec fn utf8_len(s: Seq<char>) -> usize {
    encode_utf8(s).len() as usize
}

/// Every character of `s` is a username character.
pub open spec fn all_username_chars(s: Seq<char>) -> bool {
    forall|i: int| 0 <= i < s.len() ==> #[trigger] username_char(s[i])
}

/// A username is 3 to 32 bytes long (UTF-8) and made of username characters.
pub open spec fn valid_username(username: Seq<char>) -> bool {
    &&& 3 <= utf8_len(username) <= 32
    &&& all_username_chars(username)
}

/// An email holds an `@` and a `.`.
pub open spec fn valid_email(email: Seq<char>) -> bool {
    email.contains('@') && email.contains('.')
}

pub open spec fn has_uppercase(s: Seq<char>) -> bool {
    exists|i: int| 0 <= i < s.len() && #[trigger] spec_is_uppercase(s[i])
}

pub open spec fn has_lowercase(s: Seq<char>) -> bool {
    exists|i: int| 0 <= i < s.len() && #[trigger] spec_is_lowercase(s[i])
}

pub open spec fn has_ascii_digit(s: Seq<char>) -> bool {
    exists|i: int| 0 <= i < s.len() && #[trigger] spec_is_ascii_digit(s[i])
}

/// A password is 8 to 128 bytes long (UTF-8) and holds an uppercase letter,
/// a lowercase letter and an ASCII digit.
pub open spec fn valid_password(password: Seq<char>) -> bool {
    &&& 8 <= utf8_len(password) <= 128
    &&& has_uppercase(password)
    &&& has_lowercase(password)
    &&& has_ascii_digit(password)
}

pub open spec fn username_too_short_msg() -> Seq<char> {
    "username must be at least 3 characters"@
}

pub open spec fn username_too_long_msg() -> Seq<char> {
    "username must be at most 32 characters"@
}

pub open spec fn username_chars_msg() -> Seq<char> {
    "username can only contain letters, numbers, underscores, and hyphens"@
}

pub open spec fn email_msg() -> Seq<char> {
    "email must contain '@' and a domain"@
}

pub open spec fn password_too_short_msg() -> Seq<char> {
    "password must be at least 8 characters"@
}

pub open spec fn password_too_long_msg() -> Seq<char> {
    "password must be at most 128 characters"@
}

pub open spec fn password_uppercase_msg() -> Seq<char> {
    "password must contain at least one uppercase letter"@
}

pub open spec fn password_lowercase_msg() -> Seq<char> {
    "password must contain at least one lowercase letter"@
}

pub open spec fn password_digit_msg() -> Seq<char> {
    "password must contain at least one number"@
}

/// The message with which `validate_username` refuses `username`, checked in
/// the order length, then characters; `None` where it accepts it.
pub open spec fn username_problem(username: Seq<char>) -> Option<Seq<char>> {
    if utf8_len(username) < 3 {
        Some(username_too_short_msg())
    } else if utf8_len(username) > 32 {
        Some(username_too_long_msg())
    } else if !all_username_chars(username) {
        Some(username_chars_msg())
    } else {
        None
    }
}

/// The message with which `validate_password` refuses `password`; `None`
/// where it accepts it.
pub open spec fn password_problem(password: Seq<char>) -> Option<Seq<char>> {
    if utf8_len(password) < 8 {
        Some(password_too_short_msg())
    } else if utf8_len(password) > 128 {
        Some(password_too_long_msg())
    } else if !has_uppercase(password) {
        Some(password_uppercase_msg())
    } else if !has_lowercase(password) {
        Some(password_lowercase_msg())
    } else if !has_ascii_digit(password) {
        Some(password_digit_msg())
    } else {
        None
    }
}

/// The error with which `validate_username` refuses `username`.
pub open spec fn username_error(username: Seq<char>) -> Option<UserServiceErrorView> {
    match username_problem(username) {
        Some(m) => Some(UserServiceErrorView::InvalidUsername(m)),
        None => None,
    }
}

/// The error with which `validate_email` refuses `email`.
pub open spec fn email_error(email: Seq<char>) -> Option<UserServiceErrorView> {
    if valid_email(email) {
        None
    } else {
        Some(UserServiceErrorView::InvalidEmail(email_msg()))
    }
}

/// The error with which `validate_password` refuses `password`.
pub open spec fn password_error(password: Seq<char>) -> Option<UserServiceErrorView> {
    match password_problem(password) {
        Some(m) => Some(UserServiceErrorView::WeakPassword(m)),
        None => None,
    }
}

/// Checks a username: 3 to 32 bytes, letters, digits, `_` and `-` only.
pub fn validate_username(username: &str) -> (res: Result<(), UserServiceError>)
    ensures
        res is Ok <==> valid_username(username@),
        res is Ok <==> username_problem(username@) is None,
        res matches Err(e) ==> Some(e@) == username_error(username@),
{
    if username.len() < 3 {
        return Err(UserServiceError::InvalidUsername(
            "username must be at least 3 characters".to_string(),
        ));
    }
    if username.len() > 32 {
        return Err(UserServiceError::InvalidUsername(
            "username must be at most 32 characters".to_string(),
        ));
    }
    let ghost chars = username@;
    let mut all_allowed = true;
    for c in it: username.chars()
        invariant
            it.seq() == chars,
            chars == username@,
            all_allowed <==> forall|j: int| 0 <= j < it.index() ==> #[trigger] username_char(chars[j]),
    {
        let allowed = is_alphanumeric(c) || c == '_' || c == '-';
        assert(it.index() < chars.len() && chars[it.index() as int] == c);
        assert(allowed == username_char(chars[it.index() as int]));
        if !allowed {
            all_allowed = false;
        }
    }
    if !all_allowed {
        return Err(UserServiceError::InvalidUsername(
            "username can only contain letters, numbers, underscores, and hyphens".to_string(),
        ));
    }
    Ok(())
}

/// Checks that an email holds an `@` and a `.`.
pub fn validate_email(email: &str) -> (res: Result<(), UserServiceError>)
    ensures
        res is Ok <==> valid_email(email@),
        res matches Err(e) ==> Some(e@) == email_error(email@),
{
    if !contains_char(email, '@') || !contains_char(email, '.') {
        return Err(UserServiceError::InvalidEmail(
            "email must contain '@' and a domain".to_string(),
        ));
    }
    Ok(())
}

/// Checks a password: 8 to 128 bytes with an uppercase letter, a lowercase
/// letter and an ASCII digit.
pub fn validate_password(password: &str) -> (res: Result<(), UserServiceError>)
    ensures
        res is Ok <==> valid_password(password@),
        res is Ok <==> password_problem(password@) is None,
        res matches Err(e) ==> Some(e@) == password_error(password@),
{
    if password.len() < 8 {
        return Err(UserServiceError::WeakPassword(
            "password must be at least 8 characters".to_string(),
        ));
    }
    if password.len() > 128 {
        return Err(UserServiceError::WeakPassword(
            "password must be at most 128 characters".to_string(),
        ));
    }
    let ghost chars = password@;
    let mut upper = false;
    let mut lower = false;
    let mut digit = false;
    for c in it: password.chars()
        invariant
            it.seq() == chars,
            chars == password@,
            upper <==> exists|j: int| 0 <= j < it.index() && #[trigger] spec_is_uppercase(chars[j]),
            lower <==> exists|j: int| 0 <= j < it.index() && #[trigger] spec_is_lowercase(chars[j]),
            digit <==> exists|j: int| 0 <= j < it.index() && #[trigger] spec_is_ascii_digit(chars[j]),
    {
        if is_uppercase(c) {
            upper = true;
        }
        if is_lowercase(c) {
            lower = true;
        }
        if is_ascii_digit(c) {
            digit = true;
        }
    }
    if !upper {
        return Err(UserServiceError::WeakPassword(
            "password must contain at least one uppercase letter".to_string(),
        ));
    }
    if !lower {
        return Err(UserServiceError::WeakPassword(
            "password must contain at least one lowercase letter".to_string(),
        ));
    }
    if !digit {
        return Err(UserServiceError::WeakPassword(
            "password must contain at least one number".to_string(),
        ));
    }
    Ok(())
}

} // verus!
