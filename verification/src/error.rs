//! The closed taxonomy of failures this manager produces.
//!
//! Every kind is terminal for the call that produced it: nothing here is
//! retried, and no kind is silently coerced into another. Transport-level
//! I/O and decode failures happen in the unverified shell around this
//! library and are surfaced there unchanged; they never take one of these
//! shapes.

use vstd::prelude::*;
use crate::message::ServerResponse;

verus! {

/// A failure of construction, negotiation, or health checking.
#[derive(Debug, PartialEq, Eq)]
pub enum Error {
    /// Address resolution at construction time yielded zero candidates.
    InvalidAddress,
    /// A metadata field required by the negotiated authentication style is
    /// missing or has the wrong type; the payload describes which.
    InvalidMetadata { metadata: String },
    /// The handshake negotiated a version absent from the policy table.
    InvalidClientVersion { version: u32 },
    /// The authentication response was not a positive acknowledgement; the
    /// received shape is kept for diagnostics.
    ClientInitFailed { message: ServerResponse },
    /// A health-check round trip required a positive acknowledgement and
    /// something else arrived; the received shape is kept for diagnostics.
    UnexpectedResponse { message: ServerResponse },
}

/// The text carried by an `InvalidMetadata` error when the legacy style
/// finds no "user_agent" key at all.
pub open spec fn missing_user_agent_text() -> Seq<char> {
    "must contain a user_agent"@
}

/// The text carried by an `InvalidMetadata` error when the "user_agent"
/// key is present but its value is not a string.
pub open spec fn mistyped_user_agent_text() -> Seq<char> {
    "user_agent must be a string"@
}

} // verus!
