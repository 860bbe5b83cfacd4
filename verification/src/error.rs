//! Error taxonomy of the session trust engine.
//!
//! Per-request failures are values returned to the caller; only the
//! configuration-time failure (`InvalidSecret`) is meant to stop a service
//! from starting at all.

use vstd::prelude::*;

verus! {

/// Why a presented session was rejected, or why it could not be judged.
///
/// The four per-request kinds are deliberately distinct: an expired session
/// is a normal "please log in again", a compromised one must be logged for
/// security monitoring, and a store outage is an infrastructure fault that
/// must never be mistaken for either.
#[derive(Clone, Debug)]
pub enum UserSessionError {
    /// No cookie was presented, or its signature or payload did not check
    /// out. The two are not distinguished, to avoid a signature oracle.
    Unauthenticated,
    /// The configured signing secret is malformed; fatal at startup.
    InvalidSecret(String),
    /// The store no longer holds a sentinel or a snapshot for the session.
    SessionExpired,
    /// Fingerprint, version or lineage checks failed: possible theft,
    /// replay or forgery.
    SessionCompromised,
    /// The revalidation store could not be reached.
    StoreUnavailable,
}

impl UserSessionError {
    /// A short stable label for logs and problem responses.
    pub fn kind(&self) -> (r: &'static str)
        ensures
            r@ == self.kind_spec(),
    {
        match self {
            UserSessionError::Unauthenticated => "unauthenticated",
            UserSessionError::InvalidSecret(_) => "invalid-secret",
            UserSessionError::SessionExpired => "session-expired",
            UserSessionError::SessionCompromised => "session-compromised",
            UserSessionError::StoreUnavailable => "store-unavailable",
        }
    }

    pub open spec fn kind_spec(&self) -> Seq<char> {
        match self {
            UserSessionError::Unauthenticated => "unauthenticated"@,
            UserSessionError::InvalidSecret(_) => "invalid-secret"@,
            UserSessionError::SessionExpired => "session-expired"@,
            UserSessionError::SessionCompromised => "session-compromised"@,
            UserSessionError::StoreUnavailable => "store-unavailable"@,
        }
    }
}

/// Error of the signed session codec configuration.
#[derive(Clone, Debug)]
pub enum SessionError {
    /// The base64-encoded signing secret could not be decoded, or the
    /// decoded key material is too short.
    InvalidSecret(String),
}

} // verus!
