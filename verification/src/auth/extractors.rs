use vstd::prelude::*;

use crate::errors::{AppError, AppErrorView};
use crate::ids::{parse_uuid, spec_parse_uuid, uuid_text};
use crate::text::{has_prefix, strip_prefix};

verus! {

/// The scheme word, with its space, that begins a bearer authorization.
pub open spec fn bearer_prefix() -> Seq<char> {
    "Bearer "@
}

/// The token of an `Authorization` header value: the UUID that follows
/// `"Bearer "`. A missing header, or one without that prefix, and a token
/// that is no UUID are refused as unauthorized, each with its message.
pub open spec fn bearer_token(header: Option<Seq<char>>) -> Result<u128, AppErrorView> {
    match header {
        Some(h) if has_prefix(h, bearer_prefix()) => match spec_parse_uuid(
            h.subrange(bearer_prefix().len() as int, h.len() as int),
        ) {
            Some(id) => Ok(id),
            None => Err(AppErrorView::Unauthorized("invalid token format"@)),
        },
        _ => Err(AppErrorView::Unauthorized("missing or invalid authorization header"@)),
    }
}

/// Reads the session token from the `Authorization` header value, where
/// there is one that is readable text.
pub fn parse_bearer_token(header: Option<&str>) -> (res: Result<u128, AppError>)
    ensures
        match bearer_token(
            match header {
                Some(h) => Some(h@),
                None => None,
            },
        ) {
            Ok(id) => res == Ok::<u128, AppError>(id),
            Err(e) => res matches Err(r) && r@ == e,
        },
        forall|id: u128|
            #![trigger uuid_text(id)]
            header matches Some(h) && h@ == bearer_prefix() + uuid_text(id) ==> res == Ok::<
                u128,
                AppError,
            >(id),
{
    let rest = match header {
        Some(h) => strip_prefix(h, "Bearer "),
        None => None,
    };
    proof {
        assert forall|id: u128|
            #![trigger uuid_text(id)]
            header matches Some(h) && h@ == bearer_prefix() + uuid_text(id) implies (rest matches Some(
                t,
            ) && t@ == uuid_text(id)) by {
            let h = header->Some_0;
            let p = bearer_prefix();
            assert(h@.subrange(0, p.len() as int) =~= p);
            assert(h@.subrange(p.len() as int, h@.len() as int) =~= uuid_text(id));
        }
    }
    match rest {
        Some(token) => match parse_uuid(token) {
            Some(id) => Ok(id),
            None => Err(AppError::Unauthorized("invalid token format".to_string())),
        },
        None => Err(AppError::Unauthorized("missing or invalid authorization header".to_string())),
    }
}

} // verus!
