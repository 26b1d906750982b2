//! A connector framework for heterogeneous change-data sources.
//!
//! Every supported source family (relational change streams, chain event
//! logs, an in-process event bus, warehouse batch pulls) is exposed through
//! one polymorphic [`connector::Connector`] contract.  A
//! [`factory::get_connector`] call turns a named [`types::Connection`]
//! configuration into a concrete, not-yet-started connector.  All running
//! connectors push normalized [`types::ChangeEvent`]s into one shared
//! [`ingestor::Ingestor`] buffer, guarded for concurrent multi-writer access
//! by [`shared::SharedIngestor`], while a [`lifecycle`] coordinator drives
//! the initialize / start / stop state machine of each connector.

pub mod types;
pub mod errors;
pub mod ingestor;
pub mod shared;
pub mod connector;
pub mod connectors;
pub mod factory;
pub mod lifecycle;
