//! The pagination cursor that accompanies a page of rows.

use scylla_cql::frame::request::query::PagingState;
use vstd::prelude::*;

verus! {

/// Whether more pages are left to fetch, and if so, from where to resume.
#[derive(Debug)]
pub enum PagingStateResponse {
    /// More pages are left; `state` resumes the query at the next one.
    HasMorePages { state: PagingState },
    /// The query has finished.
    NoMorePages,
}

impl PagingStateResponse {
    /// True exactly for `NoMorePages`.
    pub fn finished(&self) -> (res: bool)
        ensures
            res <==> *self is NoMorePages,
    {
        match self {
            PagingStateResponse::NoMorePages => true,
            PagingStateResponse::HasMorePages { .. } => false,
        }
    }
}

} // verus!
