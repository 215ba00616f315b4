//! A response together with what the request's frame said about it, and the
//! way from there to a query result.

use crate::errors::RequestAttemptError;
use crate::paging::PagingStateResponse;
use crate::query_result::Coordinator;
use crate::query_result::QueryResult;
use crate::response::CqlResult;
use crate::response::NonErrorResponse;
use crate::response::Response;
use bytes::Bytes;
use scylla_cql::frame::response::result::SchemaChange;
use scylla_cql::frame::response::result::SetKeyspace;
use std::collections::HashMap;
use uuid::Uuid;
use vstd::prelude::*;

verus! {

/// A response with the tracing id, the warnings and the custom payload of
/// its frame.
#[derive(Debug)]
pub struct QueryResponse {
    pub response: Response,
    pub tracing_id: Option<Uuid>,
    pub warnings: Vec<String>,
    pub custom_payload: Option<HashMap<String, Bytes>>,
}

/// A `QueryResponse` whose response cannot be an ERROR response.
#[derive(Debug)]
pub struct NonErrorQueryResponse {
    pub response: NonErrorResponse,
    pub tracing_id: Option<Uuid>,
    pub warnings: Vec<String>,
}

impl QueryResponse {
    /// Splits off the error case. An ERROR response fails with the server's
    /// code and message; every other response comes back unchanged, with the
    /// tracing id and the warnings of its frame.
    pub fn into_non_error_query_response(self) -> (res: Result<
        NonErrorQueryResponse,
        RequestAttemptError,
    >)
        ensures
            res is Err <==> self.response is Error,
            self.response matches Response::Error(e) ==> (res matches Err(
                RequestAttemptError::ServerError(error, reason),
            ) && error == e.error && reason == e.reason),
            res matches Ok(r) ==> r.response.as_response() == self.response && r.tracing_id
                == self.tracing_id && r.warnings == self.warnings,
    {
        match self.response.into_non_error_response() {
            Ok(response) => Ok(
                NonErrorQueryResponse {
                    response,
                    tracing_id: self.tracing_id,
                    warnings: self.warnings,
                },
            ),
            Err(e) => Err(RequestAttemptError::ServerError(e.error, e.reason)),
        }
    }
}

impl NonErrorQueryResponse {
    /// The pagination cursor that the response carries: that of a page of
    /// rows; any other response is complete, so its cursor is `NoMorePages`.
    pub open spec fn paging_state(self) -> PagingStateResponse {
        match self.response {
            NonErrorResponse::Result(CqlResult::Rows((_, paging_state))) => paging_state,
            _ => PagingStateResponse::NoMorePages,
        }
    }

    /// The payload of a RESULT:SetKeyspace response, and nothing for any
    /// other response.
    pub fn as_set_keyspace(&self) -> (res: Option<&SetKeyspace>)
        ensures
            res is Some <==> self.response matches NonErrorResponse::Result(
                CqlResult::SetKeyspace(_),
            ),
            self.response matches NonErrorResponse::Result(CqlResult::SetKeyspace(sk)) ==> res
                == Some(&sk),
    {
        match &self.response {
            NonErrorResponse::Result(CqlResult::SetKeyspace(sk)) => Some(sk),
            _ => None,
        }
    }

    /// The payload of a RESULT:SchemaChange response, and nothing for any
    /// other response.
    pub fn as_schema_change(&self) -> (res: Option<&SchemaChange>)
        ensures
            res is Some <==> self.response matches NonErrorResponse::Result(
                CqlResult::SchemaChange(_),
            ),
            self.response matches NonErrorResponse::Result(CqlResult::SchemaChange(sc)) ==> res
                == Some(&sc),
    {
        match &self.response {
            NonErrorResponse::Result(CqlResult::SchemaChange(sc)) => Some(sc),
            _ => None,
        }
    }

    fn into_query_result_and_paging_state_with_maybe_unknown_coordinator(
        self,
        request_coordinator: Option<Coordinator>,
    ) -> (res: Result<(QueryResult, PagingStateResponse), RequestAttemptError>)
        ensures
            res is Ok <==> self.response is Result,
            self.response matches NonErrorResponse::Result(CqlResult::Rows((rows, cursor)))
                ==> (res matches Ok((result, paging_state)) && result@.rows == Some(rows)
                && paging_state == cursor),
            (self.response matches NonErrorResponse::Result(other) && !(other is Rows))
                ==> (res matches Ok((result, paging_state)) && result@.rows is None
                && paging_state is NoMorePages),
            !(self.response is Result) ==> (res matches Err(
                RequestAttemptError::UnexpectedResponse(kind),
            ) && kind == self.response.kind()),
            res matches Ok((result, _)) ==> result@.coordinator == request_coordinator
                && result@.tracing_id == self.tracing_id && result@.warnings == self.warnings@,
    {
        let NonErrorQueryResponse { response, tracing_id, warnings } = self;
        let (raw_rows, paging_state_response) = match response {
            NonErrorResponse::Result(CqlResult::Rows((rs, paging_state_response))) => (
                Some(rs),
                paging_state_response,
            ),
            NonErrorResponse::Result(_) => (None, PagingStateResponse::NoMorePages),
            _ => {
                return Err(RequestAttemptError::UnexpectedResponse(response.to_response_kind()));
            },
        };

        Ok(
            (
                match request_coordinator {
                    Some(coordinator) => QueryResult::new(
                        coordinator,
                        raw_rows,
                        tracing_id,
                        warnings,
                    ),
                    None => QueryResult::new_with_unknown_coordinator(
                        raw_rows,
                        tracing_id,
                        warnings,
                    ),
                },
                paging_state_response,
            ),
        )
    }

    /// Assembles the query result of a request that `request_coordinator`
    /// served, together with the pagination cursor.
    ///
    /// A page of rows gives its rows and its cursor, both as they came. Any
    /// other RESULT response gives no rows and `NoMorePages`. A response of
    /// another kind fails with `UnexpectedResponse` and that kind. The result
    /// names `request_coordinator` and keeps the tracing id and the warnings.
    pub fn into_query_result_and_paging_state(self, request_coordinator: Coordinator) -> (res:
        Result<(QueryResult, PagingStateResponse), RequestAttemptError>)
        ensures
            res is Ok <==> self.response is Result,
            self.response matches NonErrorResponse::Result(CqlResult::Rows((rows, cursor)))
                ==> (res matches Ok((result, paging_state)) && result@.rows == Some(rows)
                && paging_state == cursor),
            (self.response matches NonErrorResponse::Result(other) && !(other is Rows))
                ==> (res matches Ok((result, paging_state)) && result@.rows is None
                && paging_state is NoMorePages),
            !(self.response is Result) ==> (res matches Err(
                RequestAttemptError::UnexpectedResponse(kind),
            ) && kind == self.response.kind()),
            res matches Ok((result, _)) ==> result@.coordinator == Some(request_coordinator)
                && result@.tracing_id == self.tracing_id && result@.warnings == self.warnings@,
    {
        self.into_query_result_and_paging_state_with_maybe_unknown_coordinator(
            Some(request_coordinator),
        )
    }

    fn into_query_result_with_maybe_unknown_coordinator(
        self,
        request_coordinator: Option<Coordinator>,
    ) -> (res: Result<QueryResult, RequestAttemptError>)
        ensures
            res is Ok <==> self.response is Result && self.paging_state() is NoMorePages,
            self.paging_state() is HasMorePages <==> (res matches Err(
                RequestAttemptError::NonfinishedPagingState,
            )),
            !(self.response is Result) ==> (res matches Err(
                RequestAttemptError::UnexpectedResponse(kind),
            ) && kind == self.response.kind()),
            self.response matches NonErrorResponse::Result(CqlResult::Rows((rows, cursor)))
                ==> cursor is NoMorePages ==> (res matches Ok(result) && result@.rows == Some(
                rows,
            )),
            (self.response matches NonErrorResponse::Result(other) && !(other is Rows))
                ==> (res matches Ok(result) && result@.rows is None),
            res matches Ok(result) ==> result@.coordinator == request_coordinator
                && result@.tracing_id == self.tracing_id && result@.warnings == self.warnings@,
    {
        match self.into_query_result_and_paging_state_with_maybe_unknown_coordinator(
            request_coordinator,
        ) {
            Ok((result, paging_state)) => require_finished(result, paging_state),
            Err(e) => Err(e),
        }
    }

    /// Assembles the query result of an unpaged request that
    /// `request_coordinator` served.
    ///
    /// As `into_query_result_and_paging_state`, but the cursor is not handed
    /// out, so it has to be `NoMorePages`: a page of rows whose cursor says
    /// that more pages are left fails with `NonfinishedPagingState`, and its
    /// rows are never passed off as the complete result.
    pub fn into_query_result(self, request_coordinator: Coordinator) -> (res: Result<
        QueryResult,
        RequestAttemptError,
    >)
        ensures
            res is Ok <==> self.response is Result && self.paging_state() is NoMorePages,
            self.paging_state() is HasMorePages <==> (res matches Err(
                RequestAttemptError::NonfinishedPagingState,
            )),
            !(self.response is Result) ==> (res matches Err(
                RequestAttemptError::UnexpectedResponse(kind),
            ) && kind == self.response.kind()),
            self.response matches NonErrorResponse::Result(CqlResult::Rows((rows, cursor)))
                ==> cursor is NoMorePages ==> (res matches Ok(result) && result@.rows == Some(
                rows,
            )),
            (self.response matches NonErrorResponse::Result(other) && !(other is Rows))
                ==> (res matches Ok(result) && result@.rows is None),
            res matches Ok(result) ==> result@.coordinator == Some(request_coordinator)
                && result@.tracing_id == self.tracing_id && result@.warnings == self.warnings@,
    {
        self.into_query_result_with_maybe_unknown_coordinator(Some(request_coordinator))
    }

    /// Assembles the query result of an unpaged request that no single node
    /// stands behind: as `into_query_result`, but the result names no
    /// coordinator.
    pub fn into_query_result_with_unknown_coordinator(self) -> (res: Result<
        QueryResult,
        RequestAttemptError,
    >)
        ensures
            res is Ok <==> self.response is Result && self.paging_state() is NoMorePages,
            self.paging_state() is HasMorePages <==> (res matches Err(
                RequestAttemptError::NonfinishedPagingState,
            )),
            !(self.response is Result) ==> (res matches Err(
                RequestAttemptError::UnexpectedResponse(kind),
            ) && kind == self.response.kind()),
            self.response matches NonErrorResponse::Result(CqlResult::Rows((rows, cursor)))
                ==> cursor is NoMorePages ==> (res matches Ok(result) && result@.rows == Some(
                rows,
            )),
            (self.response matches NonErrorResponse::Result(other) && !(other is Rows))
                ==> (res matches Ok(result) && result@.rows is None),
            res matches Ok(result) ==> result@.coordinator is None && result@.tracing_id
                == self.tracing_id && result@.warnings == self.warnings@,
    {
        self.into_query_result_with_maybe_unknown_coordinator(None)
    }
}

/// Lets a query result through as complete only if its cursor says so.
///
/// With `NoMorePages` the result comes back unchanged; with `HasMorePages`
/// the call fails with `NonfinishedPagingState` and the result is dropped.
pub fn require_finished(result: QueryResult, paging_state: PagingStateResponse) -> (res: Result<
    QueryResult,
    RequestAttemptError,
>)
    ensures
        res is Err <==> paging_state is HasMorePages,
        paging_state is NoMorePages ==> (res matches Ok(r) && r == result),
        paging_state is HasMorePages ==> (res matches Err(
            RequestAttemptError::NonfinishedPagingState,
        )),
{
    if !paging_state.finished() {
        return Err(RequestAttemptError::NonfinishedPagingState);
    }
    Ok(result)
}

} // verus!
