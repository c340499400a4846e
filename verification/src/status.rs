//! How a request can fail, and which HTTP status reports each failure.
//! Every failure is terminal for the request it affects; nothing is
//! retried.

use vstd::prelude::*;

verus! {

/// The ways serving a response can fail.
pub enum ServeError {
    /// The requested file cannot be opened or read before streaming
    /// begins: missing, unreadable, or a wrong path.
    NotFound,
    /// A read failed after streaming began. The status line is already
    /// on the wire, so no status can report it: the in-flight stream
    /// is terminated rather than silently truncated.
    StreamReadFailure,
    /// The outgoing response could not be assembled.
    BodyConstructionFailure,
}

/// The HTTP status code that reports the failure: `404` for a file
/// that cannot be served, `500` for a response that cannot be built,
/// and none for a failure that strikes mid-stream, after the status
/// line has gone out.
pub fn response_status(e: &ServeError) -> (r: Option<u16>)
    ensures
        r == (match e {
            ServeError::NotFound => Some(404u16),
            ServeError::StreamReadFailure => None::<u16>,
            ServeError::BodyConstructionFailure => Some(500u16),
        }),
{
    match e {
        ServeError::NotFound => Some(404),
        ServeError::StreamReadFailure => None,
        ServeError::BodyConstructionFailure => Some(500),
    }
}

} // verus!
