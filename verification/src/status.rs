//! HTTP status codes as plain numbers, and their reason phrases.

use vstd::prelude::*;

verus! {

/// 200 OK.
pub const OK: u16 = 200;

/// 422 Unprocessable Entity.
pub const UNPROCESSABLE_ENTITY: u16 = 422;

/// 429 Too Many Requests.
pub const TOO_MANY_REQUESTS: u16 = 429;

/// 500 Internal Server Error.
pub const INTERNAL_SERVER_ERROR: u16 = 500;

/// Whether a status code is in the success class, 200 to 299.
pub open spec fn success(status: u16) -> bool {
    200 <= status < 300
}

/// Tells whether `status` is in the success class.
pub fn is_success(status: u16) -> (yes: bool)
    ensures
        yes == success(status),
{
    200 <= status && status < 300
}

/// The reason phrase that the `http` crate's table of registered status
/// codes holds for `code`, or `None` where the table has no entry or `code`
/// is no status code at all (below 100 or above 999).
pub uninterp spec fn canonical_reason_of(code: u16) -> Option<Seq<char>>;

/// Looks `code` up with `http::StatusCode::from_u16` and
/// `http::StatusCode::canonical_reason`. Trusted: the result is the table's
/// entry for `code`, the same for every call.
#[verifier::external_body]
pub(crate) fn canonical_reason(code: u16) -> (reason: Option<String>)
    ensures
        reason is Some <==> canonical_reason_of(code) is Some,
        reason matches Some(text) ==> canonical_reason_of(code) == Some(text@),
{
    match http::StatusCode::from_u16(code) {
        Ok(status) => status.canonical_reason().map(String::from),
        Err(_) => None,
    }
}

} // verus!
