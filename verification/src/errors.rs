//! Error taxonomy of the session engine.
//!
//! `SetupError` aborts before the session loop starts; a `WriteError` other
//! than an invalid endpoint is transient and recovered locally; a decode
//! failure of a received sample is surfaced as a value and treated as
//! terminal by the demonstration loop.

use vstd::prelude::*;

verus! {

/// Failure while joining a domain or creating one of its resources.
/// Always fatal: reported before any session loop starts.
#[derive(Clone, Copy, Debug, PartialEq, Eq, Structural)]
pub enum SetupError {
    /// The domain could not be joined (invalid id or transport failure).
    DomainUnavailable,
    /// The transport rejected a resource request, e.g. a topic name
    /// redeclared with an incompatible type or addressing mode.
    ResourceCreationFailed,
}

/// Failure of a single `submit` call on a publishing endpoint.
#[derive(Clone, Copy, Debug, PartialEq, Eq, Structural)]
pub enum WriteError {
    /// Under reliable delivery, no acknowledgement arrived within the
    /// policy's maximum blocking time. Transient: the loop continues.
    WriteTimeout,
    /// Any other transient transport hiccup. The loop continues.
    Transient,
    /// The endpoint itself is no longer usable. Terminal.
    EndpointInvalid,
}

/// A received sample could not be decoded into the declared payload type.
/// Surfaced as a value; it never crashes the session loop.
#[derive(Clone, Copy, Debug, PartialEq, Eq, Structural)]
pub struct DecodeError;

impl SetupError {
    /// A short operator-readable description.
    pub fn describe(&self) -> (r: &'static str)
        ensures
            *self is DomainUnavailable ==> r@ == "domain unavailable"@,
            *self is ResourceCreationFailed ==> r@ == "resource creation failed"@,
    {
        match self {
            SetupError::DomainUnavailable => "domain unavailable",
            SetupError::ResourceCreationFailed => "resource creation failed",
        }
    }
}

} // verus!
