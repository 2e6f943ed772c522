//! Typed failures of the credential core.

use vstd::prelude::*;

verus! {

/// Failure taxonomy of the core. `Corrupt` and `Unavailable` are reserved for
/// a persistence layer that cannot produce a record at all; the in-memory core
/// itself only returns the first four.
#[derive(Clone, Copy, Debug, PartialEq, Eq, Structural)]
pub enum AuthError {
    /// No such account or record.
    NotFound,
    /// A uniqueness rule would be violated (registration).
    Conflict,
    /// Bad password, bad or missing session token.
    Unauthorized,
    /// The client version is below the published minimum.
    VersionRejected,
    /// Stored bytes did not deserialize to the expected shape.
    Corrupt,
    /// The underlying storage is unavailable.
    Unavailable,
}

/// Outcome of a password-reset verification. An expired or mismatched code is
/// a normal result, not an error: the caller is told `Invalid` and nothing
/// changes.
#[derive(Clone, Copy, Debug, PartialEq, Eq, Structural)]
pub enum ResetOutcome {
    /// The code matched within its freshness window; the password was updated.
    Verified,
    /// The code was wrong or stale; no state changed.
    Invalid,
}

} // verus!
