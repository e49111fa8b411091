//! The error taxonomy shared by every endpoint operation.

use vstd::prelude::*;

verus! {

/// An error surfaced by an endpoint operation.  Every failure is returned to
/// the immediate caller; nothing is retried or silently defaulted.
///
/// The kinds of failure map onto the variants as follows:
/// - argument-shape mismatch, transport failure, unreachable or malformed
///   response, and an operation a type never declared all surface as
///   `UnknownError`, each with its fixed message shape;
/// - an envelope that carried `message` but no `data` (the API rejected the
///   key or the request) surfaces as `APIKeyInvalid`.
#[derive(Clone, Debug, PartialEq)]
pub enum NaApiError {
    IpNotAllowed(String),
    APIKeyInvalid(String),
    UnknownError(String),
}

/// Message of the error returned when an operation is invoked on a type that
/// never declared it.
pub open spec fn not_implemented_text() -> Seq<char> {
    "Not implemented for this endpoint"@
}

/// Prefix of the message carried by a transport failure.
pub open spec fn transport_failure_prefix() -> Seq<char> {
    "Failed to finish request with error: "@
}

impl NaApiError {
    /// The human-readable message carried by this error.
    pub open spec fn spec_text(self) -> Seq<char> {
        match self {
            NaApiError::IpNotAllowed(m) => m@,
            NaApiError::APIKeyInvalid(m) => m@,
            NaApiError::UnknownError(m) => m@,
        }
    }

    /// The human-readable message carried by this error.
    pub fn text(&self) -> (r: &str)
        ensures
            r@ == self.spec_text(),
    {
        match self {
            NaApiError::IpNotAllowed(m) => m.as_str(),
            NaApiError::APIKeyInvalid(m) => m.as_str(),
            NaApiError::UnknownError(m) => m.as_str(),
        }
    }

    /// The error returned when an operation is invoked on a type that never
    /// declared it: a fixed fallback instead of a missing method.
    pub fn not_implemented() -> (r: NaApiError)
        ensures
            r matches NaApiError::UnknownError(t) && t@ == not_implemented_text(),
    {
        NaApiError::UnknownError("Not implemented for this endpoint".to_owned())
    }

    /// A transport-level failure (connection, timeout, malformed body),
    /// carrying the underlying cause verbatim.
    pub fn transport_failure(detail: &str) -> (r: NaApiError)
        ensures
            r matches NaApiError::UnknownError(t) && t@ == transport_failure_prefix()
                + detail@,
    {
        let msg = String::new().concat("Failed to finish request with error: ").concat(
            detail,
        );
        NaApiError::UnknownError(msg)
    }
}

} // verus!
