//! The types of `scylla_cql`, `uuid` and `bytes` that a response carries.
//!
//! This crate decides by the shape of a response, never by what a payload
//! holds, so each payload type is declared opaque: a value of it can be moved
//! and borrowed, and two values can be compared in a contract, but nothing is
//! known or claimed of what is inside.

use vstd::prelude::*;

verus! {

/// `scylla_cql`'s rows of a RESULT:Rows response: metadata deserialized, rows
/// still serialized.
#[verifier::external_type_specification]
#[verifier::external_body]
pub struct ExDeserializedMetadataAndRawRows(
    scylla_cql::frame::response::result::DeserializedMetadataAndRawRows,
);

/// `scylla_cql`'s payload of a RESULT:SetKeyspace response.
#[verifier::external_type_specification]
#[verifier::external_body]
pub struct ExSetKeyspace(scylla_cql::frame::response::result::SetKeyspace);

/// `scylla_cql`'s payload of a RESULT:SchemaChange response.
#[verifier::external_type_specification]
#[verifier::external_body]
pub struct ExSchemaChange(scylla_cql::frame::response::result::SchemaChange);

/// `scylla_cql`'s payload of a RESULT:Prepared response.
#[verifier::external_type_specification]
#[verifier::external_body]
pub struct ExPrepared(scylla_cql::frame::response::result::Prepared);

/// `scylla_cql`'s continuation token of a paged query.
#[verifier::external_type_specification]
#[verifier::external_body]
pub struct ExPagingState(scylla_cql::frame::request::query::PagingState);

/// `scylla_cql`'s error code of an ERROR response, with the context that
/// belongs to the code.
#[verifier::external_type_specification]
#[verifier::external_body]
pub struct ExDbError(scylla_cql::frame::response::error::DbError);

/// `scylla_cql`'s payload of an AUTHENTICATE response.
#[verifier::external_type_specification]
#[verifier::external_body]
pub struct ExAuthenticate(scylla_cql::frame::response::authenticate::Authenticate);

/// `scylla_cql`'s payload of an AUTH_SUCCESS response.
#[verifier::external_type_specification]
#[verifier::external_body]
pub struct ExAuthSuccess(scylla_cql::frame::response::authenticate::AuthSuccess);

/// `scylla_cql`'s payload of an AUTH_CHALLENGE response.
#[verifier::external_type_specification]
#[verifier::external_body]
pub struct ExAuthChallenge(scylla_cql::frame::response::authenticate::AuthChallenge);

/// `scylla_cql`'s payload of a SUPPORTED response.
#[verifier::external_type_specification]
#[verifier::external_body]
pub struct ExSupported(scylla_cql::frame::response::Supported);

/// `scylla_cql`'s payload of an EVENT response.
#[verifier::external_type_specification]
#[verifier::external_body]
pub struct ExEvent(scylla_cql::frame::response::event::Event);

/// `uuid`'s identifier, which names a tracing session and a node.
#[verifier::external_type_specification]
#[verifier::external_body]
pub struct ExUuid(uuid::Uuid);

/// `bytes`' byte buffer, the value of a custom payload entry.
#[verifier::external_type_specification]
#[verifier::external_body]
pub struct ExBytes(bytes::Bytes);

} // verus!
