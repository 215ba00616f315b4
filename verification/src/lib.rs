//! Typed handling of a single CQL response: splitting server errors from
//! successful responses, projecting result subtypes, and assembling the
//! query result handed to the application.

pub mod envelope;
pub mod errors;
pub mod handshake;
pub mod kind;
pub mod paging;
pub mod payload;
pub mod query_result;
pub mod response;
