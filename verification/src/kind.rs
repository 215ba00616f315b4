//! The kinds of response that a server can send.

use vstd::prelude::*;

verus! {

/// The kind of a response, without its payload.
#[derive(Debug, Clone, Copy, PartialEq, Eq, Structural)]
pub enum ResponseKind {
    /// An error processing a request.
    Error,
    /// The server is ready to process queries.
    Ready,
    /// The server requires authentication.
    Authenticate,
    /// The startup options that the server supports.
    Supported,
    /// The result of a query, a prepare, an execute or a batch.
    Result,
    /// An event pushed by the server.
    Event,
    /// A server authentication challenge.
    AuthChallenge,
    /// The authentication phase succeeded.
    AuthSuccess,
}

} // verus!
