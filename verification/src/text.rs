use vstd::prelude::*;

verus! {

/// Whether `c` is alphabetic or numeric in the Unicode sense, as
/// `char::is_alphanumeric` decides it.
pub uninterp spec fn spec_is_alphanumeric(c: char) -> bool;

/// Whether `c` is an uppercase letter in the Unicode sense, as
/// `char::is_uppercase` decides it.
pub uninterp spec fn spec_is_uppercase(c: char) -> bool;

/// Whether `c` is a lowercase letter in the Unicode sense, as
/// `char::is_lowercase` decides it.
pub uninterp spec fn spec_is_lowercase(c: char) -> bool;

/// Calls `char::is_alphanumeric`. Its answer comes from the Unicode tables of
/// std and is named, not stated: the contract only says that it is a function
/// of `c`.
#[verifier::external_body]
pub(crate) fn is_alphanumeric(c: char) -> (res: bool)
    ensures
        res == spec_is_alphanumeric(c),
{
    c.is_alphanumeric()
}

/// Calls `char::is_uppercase` (Unicode `Uppercase` property); the answer is
/// named, as for `is_alphanumeric`.
#[verifier::external_body]
pub(crate) fn is_uppercase(c: char) -> (res: bool)
    ensures
        res == spec_is_uppercase(c),
{
    c.is_uppercase()
}

/// Calls `char::is_lowercase` (Unicode `Lowercase` property); the answer is
/// named, as for `is_alphanumeric`.
#[verifier::external_body]
pub(crate) fn is_lowercase(c: char) -> (res: bool)
    ensures
        res == spec_is_lowercase(c),
{
    c.is_lowercase()
}

/// An ASCII decimal digit, `'0'` to `'9'`.
pub open spec fn spec_is_ascii_digit(c: char) -> bool {
    '0' <= c && c <= '9'
}

/// Whether `c` is an ASCII decimal digit.
pub fn is_ascii_digit(c: char) -> (res: bool)
    ensures
        res == spec_is_ascii_digit(c),
{
    '0' <= c && c <= '9'
}

/// Whether `s` contains the character `c`.
pub fn contains_char(s: &str, c: char) -> (res: bool)
    ensures
        res == s@.contains(c),
{
    let ghost chars = s@;
    for d in it: s.chars()
        invariant
            it.seq() == chars,
            chars == s@,
            forall|j: int| 0 <= j < it.index() ==> chars[j] != c,
    {
        if d == c {
            assert(it.index() < chars.len() && chars[it.index() as int] == c);
            return true;
        }
    }
    false
}

/// `s` begins with `prefix`.
pub open spec fn has_prefix(s: Seq<char>, prefix: Seq<char>) -> bool {
    prefix.len() <= s.len() && s.subrange(0, prefix.len() as int) == prefix
}

/// `s` without its leading `prefix`, or `None` where `s` does not begin with
/// `prefix` (the behaviour of `str::strip_prefix` with a string pattern).
pub fn strip_prefix<'a>(s: &'a str, prefix: &str) -> (res: Option<&'a str>)
    ensures
        has_prefix(s@, prefix@) ==> (res matches Some(rest) && rest@ == s@.subrange(
            prefix@.len() as int,
            s@.len() as int,
        )),
        !has_prefix(s@, prefix@) ==> res is None,
{
    let n = prefix.unicode_len();
    let len = s.unicode_len();
    if n > len {
        return None;
    }
    let mut i: usize = 0;
    while i < n
        invariant
            n == prefix@.len(),
            len == s@.len(),
            n <= len,
            i <= n,
            forall|j: int| 0 <= j < i ==> s@[j] == prefix@[j],
        decreases n - i,
    {
        if s.get_char(i) != prefix.get_char(i) {
            assert(s@.subrange(0, n as int)[i as int] != prefix@[i as int]);
            return None;
        }
        i = i + 1;
    }
    assert(s@.subrange(0, n as int) =~= prefix@);
    Some(s.substring_char(n, len))
}

} // verus!
