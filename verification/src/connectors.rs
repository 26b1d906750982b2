//! Concrete connectors, one per source family, all exposed only through
//! the [`crate::connector::Connector`] contract.
//!
//! The in-process bus connector in [`events`] is the fully worked
//! implementation; the relational, chain-log and warehouse connectors are
//! built to the same shape around the shared [`runtime::SourceRuntime`]
//! state machine, with their protocol-specific decoding living behind the
//! runtime's plugin surface.

pub mod runtime;
pub mod events;
pub mod postgres;
pub mod ethereum;
pub mod snowflake;
