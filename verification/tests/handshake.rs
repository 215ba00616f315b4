use query_response::errors::RequestAttemptError;
use query_response::handshake::NonErrorAuthResponse;
use query_response::handshake::NonErrorStartupResponse;
use query_response::kind::ResponseKind;
use query_response::response::CqlResult;
use query_response::response::NonErrorResponse;
use scylla_cql::frame::response::authenticate::AuthChallenge;
use scylla_cql::frame::response::authenticate::AuthSuccess;
use scylla_cql::frame::response::authenticate::Authenticate;
use scylla_cql::frame::response::Supported;
use std::collections::HashMap;

fn asks_for_password() -> NonErrorResponse {
    NonErrorResponse::Authenticate(Authenticate {
        authenticator_name: "PasswordAuthenticator".to_string(),
    })
}

fn challenge() -> NonErrorResponse {
    NonErrorResponse::AuthChallenge(AuthChallenge {
        authenticate_message: Some(vec![1, 2, 3]),
    })
}

fn success() -> NonErrorResponse {
    NonErrorResponse::AuthSuccess(AuthSuccess {
        success_message: Some(vec![9]),
    })
}

#[test]
fn startup_accepts_ready_and_authenticate() {
    assert!(matches!(
        NonErrorStartupResponse::from_response(NonErrorResponse::Ready),
        Ok(NonErrorStartupResponse::Ready)
    ));
    match NonErrorStartupResponse::from_response(asks_for_password()) {
        Ok(NonErrorStartupResponse::Authenticate(auth)) => {
            assert_eq!(auth.authenticator_name, "PasswordAuthenticator")
        }
        other => panic!("expected AUTHENTICATE, got {:?}", other),
    }
}

#[test]
fn startup_refuses_every_other_kind() {
    assert!(matches!(
        NonErrorStartupResponse::from_response(challenge()),
        Err(RequestAttemptError::UnexpectedResponse(
            ResponseKind::AuthChallenge
        ))
    ));
    assert!(matches!(
        NonErrorStartupResponse::from_response(success()),
        Err(RequestAttemptError::UnexpectedResponse(
            ResponseKind::AuthSuccess
        ))
    ));
    assert!(matches!(
        NonErrorStartupResponse::from_response(NonErrorResponse::Result(CqlResult::Void)),
        Err(RequestAttemptError::UnexpectedResponse(
            ResponseKind::Result
        ))
    ));
    assert!(matches!(
        NonErrorStartupResponse::from_response(NonErrorResponse::Supported(Supported {
            options: HashMap::new()
        })),
        Err(RequestAttemptError::UnexpectedResponse(
            ResponseKind::Supported
        ))
    ));
}

#[test]
fn auth_accepts_challenge_and_success() {
    match NonErrorAuthResponse::from_response(challenge()) {
        Ok(NonErrorAuthResponse::AuthChallenge(c)) => {
            assert_eq!(c.authenticate_message, Some(vec![1, 2, 3]))
        }
        other => panic!("expected AUTH_CHALLENGE, got {:?}", other),
    }
    match NonErrorAuthResponse::from_response(success()) {
        Ok(NonErrorAuthResponse::AuthSuccess(s)) => {
            assert_eq!(s.success_message, Some(vec![9]))
        }
        other => panic!("expected AUTH_SUCCESS, got {:?}", other),
    }
}

#[test]
fn auth_refuses_every_other_kind() {
    assert!(matches!(
        NonErrorAuthResponse::from_response(NonErrorResponse::Ready),
        Err(RequestAttemptError::UnexpectedResponse(ResponseKind::Ready))
    ));
    assert!(matches!(
        NonErrorAuthResponse::from_response(asks_for_password()),
        Err(RequestAttemptError::UnexpectedResponse(
            ResponseKind::Authenticate
        ))
    ));
    assert!(matches!(
        NonErrorAuthResponse::from_response(NonErrorResponse::Result(CqlResult::Void)),
        Err(RequestAttemptError::UnexpectedResponse(
            ResponseKind::Result
        ))
    ));
}
