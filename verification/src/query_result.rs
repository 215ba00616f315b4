//! The result of a query as the application receives it.

use scylla_cql::frame::response::result::DeserializedMetadataAndRawRows;
use uuid::Uuid;
use vstd::prelude::*;

verus! {

/// The node of the cluster that served a request.
#[derive(Debug)]
pub struct Coordinator {
    /// The identifier under which the cluster knows the node.
    pub host_id: Uuid,
}

/// What a `QueryResult` holds.
pub struct QueryResultView {
    /// The rows, where the response had any.
    pub rows: Option<DeserializedMetadataAndRawRows>,
    /// The node that served the request, where it is known.
    pub coordinator: Option<Coordinator>,
    /// The tracing session of the request, where tracing was on.
    pub tracing_id: Option<Uuid>,
    /// The server's warnings, in the order in which it sent them.
    pub warnings: Seq<String>,
}

/// The result of a query: the rows, if the response had any, and what is
/// known of the request that produced them.
///
/// A value is made only from a response and is not changed afterwards.
#[derive(Debug)]
pub struct QueryResult {
    raw_metadata_and_rows: Option<DeserializedMetadataAndRawRows>,
    tracing_id: Option<Uuid>,
    warnings: Vec<String>,
    request_coordinator: Option<Coordinator>,
}

impl View for QueryResult {
    type V = QueryResultView;

    closed spec fn view(&self) -> QueryResultView {
        QueryResultView {
            rows: self.raw_metadata_and_rows,
            coordinator: self.request_coordinator,
            tracing_id: self.tracing_id,
            warnings: self.warnings@,
        }
    }
}

impl QueryResult {
    /// Builds the result of a request that `request_coordinator` served.
    pub(crate) fn new(
        request_coordinator: Coordinator,
        raw_rows: Option<DeserializedMetadataAndRawRows>,
        tracing_id: Option<Uuid>,
        warnings: Vec<String>,
    ) -> (res: QueryResult)
        ensures
            res@ == (QueryResultView {
                rows: raw_rows,
                coordinator: Some(request_coordinator),
                tracing_id,
                warnings: warnings@,
            }),
    {
        QueryResult {
            raw_metadata_and_rows: raw_rows,
            tracing_id,
            warnings,
            request_coordinator: Some(request_coordinator),
        }
    }

    /// Builds a result that no single node stands behind. This is the only
    /// way to a result without a coordinator.
    pub(crate) fn new_with_unknown_coordinator(
        raw_rows: Option<DeserializedMetadataAndRawRows>,
        tracing_id: Option<Uuid>,
        warnings: Vec<String>,
    ) -> (res: QueryResult)
        ensures
            res@ == (QueryResultView {
                rows: raw_rows,
                coordinator: None,
                tracing_id,
                warnings: warnings@,
            }),
    {
        QueryResult {
            raw_metadata_and_rows: raw_rows,
            tracing_id,
            warnings,
            request_coordinator: None,
        }
    }

    /// The node that served the request, or `None` for a result that was
    /// built without one.
    pub fn request_coordinator(&self) -> (res: Option<&Coordinator>)
        ensures
            res is Some <==> self@.coordinator is Some,
            self@.coordinator matches Some(coordinator) ==> res == Some(&coordinator),
    {
        self.request_coordinator.as_ref()
    }

    /// The rows, or `None` where the response was not a page of rows.
    pub fn raw_metadata_and_rows(&self) -> (res: Option<&DeserializedMetadataAndRawRows>)
        ensures
            res is Some <==> self@.rows is Some,
            self@.rows matches Some(rows) ==> res == Some(&rows),
    {
        self.raw_metadata_and_rows.as_ref()
    }

    /// Whether the response was a page of rows.
    pub fn is_rows(&self) -> (res: bool)
        ensures
            res <==> self@.rows is Some,
    {
        self.raw_metadata_and_rows.is_some()
    }

    /// The tracing session of the request, where tracing was on.
    pub fn tracing_id(&self) -> (res: Option<Uuid>)
        ensures
            res == self@.tracing_id,
    {
        self.tracing_id
    }

    /// The server's warnings, in the order in which it sent them.
    pub fn warnings(&self) -> (res: &Vec<String>)
        ensures
            res@ == self@.warnings,
    {
        &self.warnings
    }
}

} // verus!
