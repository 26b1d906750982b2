//! The error taxonomy of the connector framework.  Every public contract
//! operation returns a typed result; no verified operation panics.

use vstd::prelude::*;

verus! {

/// The failure kinds a connector operation can surface.
#[derive(Clone, Debug, PartialEq, Eq)]
pub enum ConnectorError {
    /// Malformed or incomplete `Authentication` fields; surfaced by the
    /// factory or `initialize`, never retried.
    InvalidConfiguration,
    /// Source unreachable or credentials rejected; surfaced by
    /// `test_connection`, `initialize` or `start`.
    ConnectionFailure,
    /// A requested table does not exist at the source; carries the first
    /// missing table name.  Discovery is all-or-nothing: one unknown
    /// requested table fails the whole call.
    SchemaNotFound(String),
    /// A push was attempted after the ingestion buffer was closed; the
    /// connector must treat this as a signal to stop cleanly, not retry.
    BufferClosed,
    /// An invalid lifecycle transition, such as a double `initialize` or a
    /// `start` before `initialize`; a programmer defect, never retried.
    LifecycleMisuse,
}

impl ConnectorError {
    /// A short, stable description of the error kind.
    pub fn describe(&self) -> (r: &'static str)
        ensures
            r@ == self.describe_spec(),
    {
        match self {
            ConnectorError::InvalidConfiguration => "invalid configuration",
            ConnectorError::ConnectionFailure => "connection failure",
            ConnectorError::SchemaNotFound(_) => "schema not found",
            ConnectorError::BufferClosed => "ingestion buffer closed",
            ConnectorError::LifecycleMisuse => "lifecycle misuse",
        }
    }

    /// What `describe` returns for each variant.
    pub open spec fn describe_spec(&self) -> Seq<char> {
        match self {
            ConnectorError::InvalidConfiguration => "invalid configuration"@,
            ConnectorError::ConnectionFailure => "connection failure"@,
            ConnectorError::SchemaNotFound(_) => "schema not found"@,
            ConnectorError::BufferClosed => "ingestion buffer closed"@,
            ConnectorError::LifecycleMisuse => "lifecycle misuse"@,
        }
    }
}

} // verus!
