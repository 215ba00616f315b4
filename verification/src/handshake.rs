//! The responses that end the startup exchange and the authentication
//! exchange of a new connection.
//!
//! Each exchange has its own closed set of valid answers. The two sets share
//! no kind of response, and neither holds a kind that answers a query.

use crate::errors::RequestAttemptError;
use crate::response::NonErrorResponse;
use scylla_cql::frame::response::authenticate::AuthChallenge;
use scylla_cql::frame::response::authenticate::AuthSuccess;
use scylla_cql::frame::response::authenticate::Authenticate;
use vstd::prelude::*;

verus! {

/// A valid answer to a STARTUP request.
#[derive(Debug)]
pub enum NonErrorStartupResponse {
    /// The connection is ready; no authentication is asked for.
    Ready,
    /// The server asks the client to authenticate.
    Authenticate(Authenticate),
}

/// A valid answer to an AUTH_RESPONSE request.
#[derive(Debug)]
pub enum NonErrorAuthResponse {
    /// The server asks for more.
    AuthChallenge(AuthChallenge),
    /// The server accepted the client.
    AuthSuccess(AuthSuccess),
}

impl NonErrorStartupResponse {
    /// This answer among all non-error responses.
    pub open spec fn as_response(self) -> NonErrorResponse {
        match self {
            NonErrorStartupResponse::Ready => NonErrorResponse::Ready,
            NonErrorStartupResponse::Authenticate(auth) => NonErrorResponse::Authenticate(auth),
        }
    }

    /// Reads a response as the answer to a STARTUP request. READY and
    /// AUTHENTICATE are taken over, payload untouched; a response of any
    /// other kind fails with `UnexpectedResponse` and that kind.
    pub fn from_response(response: NonErrorResponse) -> (res: Result<
        NonErrorStartupResponse,
        RequestAttemptError,
    >)
        ensures
            res is Ok <==> response is Ready || response is Authenticate,
            res matches Ok(answer) ==> answer.as_response() == response,
            res matches Err(e) ==> e == RequestAttemptError::UnexpectedResponse(response.kind()),
    {
        match response {
            NonErrorResponse::Ready => Ok(NonErrorStartupResponse::Ready),
            NonErrorResponse::Authenticate(auth) => Ok(NonErrorStartupResponse::Authenticate(auth)),
            other => Err(RequestAttemptError::UnexpectedResponse(other.to_response_kind())),
        }
    }
}

impl NonErrorAuthResponse {
    /// This answer among all non-error responses.
    pub open spec fn as_response(self) -> NonErrorResponse {
        match self {
            NonErrorAuthResponse::AuthChallenge(challenge) => NonErrorResponse::AuthChallenge(
                challenge,
            ),
            NonErrorAuthResponse::AuthSuccess(success) => NonErrorResponse::AuthSuccess(success),
        }
    }

    /// Reads a response as the answer to an AUTH_RESPONSE request.
    /// AUTH_CHALLENGE and AUTH_SUCCESS are taken over, payload untouched; a
    /// response of any other kind fails with `UnexpectedResponse` and that
    /// kind.
    pub fn from_response(response: NonErrorResponse) -> (res: Result<
        NonErrorAuthResponse,
        RequestAttemptError,
    >)
        ensures
            res is Ok <==> response is AuthChallenge || response is AuthSuccess,
            res matches Ok(answer) ==> answer.as_response() == response,
            res matches Err(e) ==> e == RequestAttemptError::UnexpectedResponse(response.kind()),
    {
        match response {
            NonErrorResponse::AuthChallenge(challenge) => Ok(
                NonErrorAuthResponse::AuthChallenge(challenge),
            ),
            NonErrorResponse::AuthSuccess(success) => Ok(
                NonErrorAuthResponse::AuthSuccess(success),
            ),
            other => Err(RequestAttemptError::UnexpectedResponse(other.to_response_kind())),
        }
    }
}

/// The two sets of handshake answers do not overlap, and no handshake answer
/// is a RESULT response: no response is a valid answer to a STARTUP request
/// and to an AUTH_RESPONSE request at once, nor to either and to a query.
pub proof fn handshake_shapes_are_disjoint(
    startup: NonErrorStartupResponse,
    auth: NonErrorAuthResponse,
)
    ensures
        startup.as_response() != auth.as_response(),
        !(startup.as_response() is Result),
        !(auth.as_response() is Result),
{
}

} // verus!
