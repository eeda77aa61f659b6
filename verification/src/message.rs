//! The shape of a server reply, as far as the session logic reads it.
//!
//! The wire codec delivers fully decoded protocol messages; the session
//! logic only ever distinguishes a positive acknowledgement from everything
//! else, and keeps the offending shape for diagnostics.

use vstd::prelude::*;

verus! {

/// The kind of message the peer sent in reply to a request.
#[derive(Clone, Copy, Debug, PartialEq, Eq, Structural)]
pub enum ServerResponse {
    /// A positive acknowledgement: the preceding request completed.
    Success,
    /// A well-formed failure message.
    Failure,
    /// The request was discarded without being processed.
    Ignored,
    /// A result row arrived where a summary was expected.
    Record,
    /// Any other message kind, which a server should never send here.
    Other,
}

impl ServerResponse {
    /// True exactly on a positive acknowledgement.
    pub open spec fn spec_is_positive(self) -> bool {
        self == ServerResponse::Success
    }
}

} // verus!
