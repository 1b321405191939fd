use vstd::prelude::*;

verus! {

/// The 128-bit value of the UUID that `uuid::Uuid::parse_str` reads from
/// `s`, or `None` where it refuses `s`.
pub uninterp spec fn spec_parse_uuid(s: Seq<char>) -> Option<u128>;

/// The lowercase hexadecimal digit of `d` (0 to 15).
pub open spec fn hex_char(d: nat) -> char {
    if d < 10 {
        ('0' as nat + d) as char
    } else {
        ('a' as nat + (d - 10)) as char
    }
}

/// The `n` lowest hexadecimal digits of `v`, most significant first.
pub open spec fn hex_digits(v: nat, n: nat) -> Seq<char>
    decreases n,
{
    if n == 0 {
        Seq::empty()
    } else {
        hex_digits(v / 16, (n - 1) as nat).push(hex_char(v % 16))
    }
}

/// The hyphenated text of the UUID whose 128-bit value is `id`: its 32
/// lowercase hexadecimal digits in groups of 8, 4, 4, 4 and 12, joined by
/// `-` (as in `550e8400-e29b-41d4-a716-446655440000`).
pub open spec fn uuid_text(id: u128) -> Seq<char> {
    let h = hex_digits(id as nat, 32);
    h.subrange(0, 8) + seq!['-'] + h.subrange(8, 12) + seq!['-'] + h.subrange(12, 16) + seq!['-']
        + h.subrange(16, 20) + seq!['-'] + h.subrange(20, 32)
}

/// A fresh identifier: `uuid::Uuid::now_v7`, taken as its 128-bit value
/// (`Uuid::as_u128`).
///
/// Nothing is promised of the value: it is made of the current time and
/// random bits.
#[verifier::external_body]
pub(crate) fn new_id() -> u128 {
    uuid::Uuid::now_v7().as_u128()
}

/// Parses a UUID in any of the textual forms that `uuid::Uuid::parse_str`
/// accepts (simple, hyphenated, braced, URN) and gives its 128-bit value
/// (`Uuid::as_u128`), or `None` where `parse_str` returns an error.
///
/// The grammar is the crate's and is named, not stated: the contract says
/// that the answer is a function of the text alone, and that the hyphenated
/// text of a UUID is read back as that UUID (`parse_hyphenated` takes 36
/// bytes with `-` at 8, 13, 18 and 23 and decodes the hexadecimal digits
/// between them as the big-endian bytes of the value).
#[verifier::external_body]
pub(crate) fn parse_uuid(s: &str) -> (res: Option<u128>)
    ensures
        res == spec_parse_uuid(s@),
        forall|id: u128| s@ == #[trigger] uuid_text(id) ==> res == Some(id),
{
    match uuid::Uuid::parse_str(s) {
        Ok(u) => Some(u.as_u128()),
        Err(_) => None,
    }
}

} // verus!
