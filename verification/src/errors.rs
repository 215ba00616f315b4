//! The ways in which handling a response can fail.

use crate::kind::ResponseKind;
use scylla_cql::frame::response::error::DbError;
use vstd::prelude::*;

verus! {

/// Why a single attempt of a request failed.
#[derive(Debug)]
pub enum RequestAttemptError {
    /// The server answered with an ERROR response; the code and the message
    /// are the server's own.
    ServerError(DbError, String),
    /// The server answered with a kind of response that is no valid reply to
    /// the request that was sent.
    UnexpectedResponse(ResponseKind),
    /// A request that asked for a complete result got a cursor that says
    /// more pages are left.
    NonfinishedPagingState,
}

} // verus!
