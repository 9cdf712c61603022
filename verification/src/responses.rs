//! Response payloads for the three operations the orchestrator exposes.
//! Every call is answered with a well-formed response; outcomes are
//! collapsed into a two-valued status.

use vstd::prelude::*;

verus! {

/// Outcome of an operation as reported to the caller: internal error
/// kinds are never surfaced as distinct values.
#[derive(Clone, Copy, Debug, PartialEq, Eq, Structural)]
pub enum StatusCode {
    Success,
    Failure,
}

/// Answer to a sign-up request: a bare status.
#[derive(Debug)]
pub struct SignUpResponse {
    pub status_code: StatusCode,
}

/// Answer to a sign-in request. On failure `user_uuid` and
/// `session_token` are empty strings; on success both are non-empty.
#[derive(Debug)]
pub struct SignInResponse {
    pub status_code: StatusCode,
    pub user_uuid: String,
    pub session_token: String,
}

/// Answer to a sign-out request: a bare status, always `Success`.
#[derive(Debug)]
pub struct SignOutResponse {
    pub status_code: StatusCode,
}

} // verus!
