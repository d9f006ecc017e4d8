//! The error vocabulary of the client. Every failing operation surfaces one
//! of these to its immediate caller; there is no local recovery or retry.

use vstd::prelude::*;

verus! {

/// What went wrong during construction, a round trip, or the batch adapter.
#[derive(Debug, PartialEq)]
pub enum Error {
    /// The base address given at client construction is malformed.
    InvalidHost,
    /// Network or HTTP failure, including a non-success status; carries the
    /// transport's own description of the cause.
    Transport(String),
    /// The response payload is not well-formed or holds an unrecognized
    /// value; carries the offending text.
    ProtocolDecode(String),
    /// A base or link id cannot be composed into a valid absolute URL.
    UrlParse,
    /// Local file or stream access failed at the batch-adapter boundary.
    Io(String),
}

} // verus!
