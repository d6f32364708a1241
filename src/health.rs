//! Reduction of a backend health probe to a single boolean.
use vstd::prelude::*;

verus! {

/// Address the health probe requests.
pub const BACKEND_URL: &'static str = "http://localhost:7072";

/// Whether an HTTP status code is in the success class (2xx).
pub open spec fn is_success_code(code: int) -> bool {
    200 <= code < 300
}

/// Whether an HTTP status code is in the success class (2xx).
pub fn is_success_status(code: u16) -> (r: bool)
    ensures
        r == is_success_code(code as int),
{
    200 <= code && code < 300
}

/// Health of the backend given the outcome of one request to
/// `BACKEND_URL`: the status code of the response, or `None` when no
/// response came (refused, timed out, unresolved). Healthy exactly when a
/// response came with a success status.
pub fn check_backend_status(response: Option<u16>) -> (r: bool)
    ensures
        r == (response matches Some(code) && is_success_code(code as int)),
        response is None ==> !r,
{
    match response {
        Some(code) => is_success_status(code),
        None => false,
    }
}

} // verus!
