//! The error values the library's checks and decisions answer with. Each kind names the HTTP class
//! it is served as; the message is the operator-facing text, and an optional stable code lets a
//! client resolve the refusal through its own catalog.
use vstd::prelude::*;

verus! {

/// The HTTP class of a refusal.
#[derive(Debug, Clone, Copy, PartialEq, Eq)]
pub enum ApiErrorKind {
    /// `422`: the request is well-formed but cannot be processed as given.
    Unprocessable,
    /// `403`: the caller may not do this (or has not proven it may).
    Forbidden,
    /// `409`: the request conflicts with the current state.
    Conflict,
    /// `401`: no valid session.
    Unauthorized,
    /// `500`: an internal invariant was violated.
    Internal,
    /// `404`.
    NotFound,
    /// `503`: the service cannot do this now (or, with a code, in this deployment).
    Unavailable,
    /// `410`: what the request names has expired.
    Gone,
}

/// A refusal: its class, the operator-facing message and an optional stable code.
#[derive(Debug, Clone, PartialEq, Eq)]
pub struct ApiError {
    pub kind: ApiErrorKind,
    pub message: String,
    pub code: Option<&'static str>,
}

/// Whether `r` is the refusal of the given class and message, with no code.
pub open spec fn refusal<T>(r: Result<T, ApiError>, kind: ApiErrorKind, message: Seq<char>) -> bool {
    r matches Err(e) && e.kind == kind && e.message@ == message && e.code is None
}

impl ApiError {
    /// A refusal of the given class with no code.
    pub fn new(kind: ApiErrorKind, message: String) -> (r: ApiError)
        ensures
            r.kind == kind,
            r.message@ == message@,
            r.code is None,
    {
        ApiError { kind, message, code: None }
    }

    /// The same refusal carrying a stable error code.
    pub fn with_code(self, code: &'static str) -> (r: ApiError)
        ensures
            r.kind == self.kind,
            r.message@ == self.message@,
            r.code == Some(code),
    {
        ApiError { kind: self.kind, message: self.message, code: Some(code) }
    }
}

} // verus!
