//! A decoded response as a closed tagged union, and its split into the error
//! case and the non-error case.

use crate::kind::ResponseKind;
use crate::paging::PagingStateResponse;
use scylla_cql::frame::response::authenticate::AuthChallenge;
use scylla_cql::frame::response::authenticate::AuthSuccess;
use scylla_cql::frame::response::authenticate::Authenticate;
use scylla_cql::frame::response::error::DbError;
use scylla_cql::frame::response::event::Event;
use scylla_cql::frame::response::result::DeserializedMetadataAndRawRows;
use scylla_cql::frame::response::result::Prepared;
use scylla_cql::frame::response::result::SchemaChange;
use scylla_cql::frame::response::result::SetKeyspace;
use scylla_cql::frame::response::Supported;
use vstd::prelude::*;

verus! {

/// What the server reports in an ERROR response.
#[derive(Debug)]
pub struct ServerError {
    /// The error code, with the context that belongs to the code.
    pub error: DbError,
    /// The server's message.
    pub reason: String,
}

/// A RESULT response, by its subtype.
#[derive(Debug)]
pub enum CqlResult {
    /// A result that carries no data.
    Void,
    /// A page of rows, with the pagination cursor that came with it.
    Rows((DeserializedMetadataAndRawRows, PagingStateResponse)),
    /// The active keyspace changed as an effect of the request.
    SetKeyspace(SetKeyspace),
    /// A statement was prepared.
    Prepared(Prepared),
    /// The schema changed as an effect of the request.
    SchemaChange(SchemaChange),
}

/// A response from the server.
#[derive(Debug)]
pub enum Response {
    Error(ServerError),
    Ready,
    Result(CqlResult),
    Authenticate(Authenticate),
    AuthSuccess(AuthSuccess),
    AuthChallenge(AuthChallenge),
    Supported(Supported),
    Event(Event),
}

/// A response from the server that is not an ERROR response.
#[derive(Debug)]
pub enum NonErrorResponse {
    Ready,
    Result(CqlResult),
    Authenticate(Authenticate),
    AuthSuccess(AuthSuccess),
    AuthChallenge(AuthChallenge),
    Supported(Supported),
    Event(Event),
}

impl NonErrorResponse {
    /// The kind of this response.
    pub open spec fn kind(self) -> ResponseKind {
        match self {
            NonErrorResponse::Ready => ResponseKind::Ready,
            NonErrorResponse::Result(_) => ResponseKind::Result,
            NonErrorResponse::Authenticate(_) => ResponseKind::Authenticate,
            NonErrorResponse::AuthSuccess(_) => ResponseKind::AuthSuccess,
            NonErrorResponse::AuthChallenge(_) => ResponseKind::AuthChallenge,
            NonErrorResponse::Supported(_) => ResponseKind::Supported,
            NonErrorResponse::Event(_) => ResponseKind::Event,
        }
    }

    /// This response among all responses.
    pub open spec fn as_response(self) -> Response {
        match self {
            NonErrorResponse::Ready => Response::Ready,
            NonErrorResponse::Result(result) => Response::Result(result),
            NonErrorResponse::Authenticate(auth) => Response::Authenticate(auth),
            NonErrorResponse::AuthSuccess(auth) => Response::AuthSuccess(auth),
            NonErrorResponse::AuthChallenge(auth) => Response::AuthChallenge(auth),
            NonErrorResponse::Supported(supported) => Response::Supported(supported),
            NonErrorResponse::Event(event) => Response::Event(event),
        }
    }

    /// Returns the kind of this response.
    pub fn to_response_kind(&self) -> (res: ResponseKind)
        ensures
            res == self.kind(),
    {
        match self {
            NonErrorResponse::Ready => ResponseKind::Ready,
            NonErrorResponse::Result(_) => ResponseKind::Result,
            NonErrorResponse::Authenticate(_) => ResponseKind::Authenticate,
            NonErrorResponse::AuthSuccess(_) => ResponseKind::AuthSuccess,
            NonErrorResponse::AuthChallenge(_) => ResponseKind::AuthChallenge,
            NonErrorResponse::Supported(_) => ResponseKind::Supported,
            NonErrorResponse::Event(_) => ResponseKind::Event,
        }
    }
}

impl Response {
    /// The kind of this response.
    pub open spec fn kind(self) -> ResponseKind {
        match self {
            Response::Error(_) => ResponseKind::Error,
            Response::Ready => ResponseKind::Ready,
            Response::Result(_) => ResponseKind::Result,
            Response::Authenticate(_) => ResponseKind::Authenticate,
            Response::AuthSuccess(_) => ResponseKind::AuthSuccess,
            Response::AuthChallenge(_) => ResponseKind::AuthChallenge,
            Response::Supported(_) => ResponseKind::Supported,
            Response::Event(_) => ResponseKind::Event,
        }
    }

    /// Returns the kind of this response.
    pub fn to_response_kind(&self) -> (res: ResponseKind)
        ensures
            res == self.kind(),
    {
        match self {
            Response::Error(_) => ResponseKind::Error,
            Response::Ready => ResponseKind::Ready,
            Response::Result(_) => ResponseKind::Result,
            Response::Authenticate(_) => ResponseKind::Authenticate,
            Response::AuthSuccess(_) => ResponseKind::AuthSuccess,
            Response::AuthChallenge(_) => ResponseKind::AuthChallenge,
            Response::Supported(_) => ResponseKind::Supported,
            Response::Event(_) => ResponseKind::Event,
        }
    }

    /// Splits off the error case: an ERROR response gives its payload as the
    /// error, every other response gives itself, payload untouched, as a
    /// `NonErrorResponse`.
    pub fn into_non_error_response(self) -> (res: Result<NonErrorResponse, ServerError>)
        ensures
            res is Err <==> self is Error,
            res matches Err(e) ==> self == Response::Error(e),
            res matches Ok(r) ==> r.as_response() == self,
    {
        match self {
            Response::Error(e) => Err(e),
            Response::Ready => Ok(NonErrorResponse::Ready),
            Response::Result(result) => Ok(NonErrorResponse::Result(result)),
            Response::Authenticate(auth) => Ok(NonErrorResponse::Authenticate(auth)),
            Response::AuthSuccess(auth) => Ok(NonErrorResponse::AuthSuccess(auth)),
            Response::AuthChallenge(auth) => Ok(NonErrorResponse::AuthChallenge(auth)),
            Response::Supported(supported) => Ok(NonErrorResponse::Supported(supported)),
            Response::Event(event) => Ok(NonErrorResponse::Event(event)),
        }
    }
}

} // verus!
