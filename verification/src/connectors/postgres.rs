//! The relational change-data-capture connector, built to the shared
//! runtime shape.  Its protocol half — logical-replication decoding over a
//! live connection — is a plugin behind the contract and feeds the runtime
//! through `record_table` and `record_change`; the core validates the
//! configuration, owns the lifecycle and forwards the decoded stream.

use vstd::prelude::*;

use crate::connector::{Connector, TableInfo};
use crate::connectors::runtime::SourceRuntime;
use crate::errors::ConnectorError;
use crate::shared::{SharedFlag, SharedIngestor};
use crate::types::{ChangeEvent, Schema};

verus! {

/// The relational source configuration, as assembled by the factory.
pub struct PostgresConfig {
    /// The configured source name.
    pub name: String,
    /// An optional pre-selected table filter.
    pub tables: Option<Vec<TableInfo>>,
    /// The database host.
    pub host: String,
    /// The database port.
    pub port: u16,
    /// The database role to connect as.
    pub user: String,
    /// The database to replicate from.
    pub database: String,
}

impl PostgresConfig {
    /// A usable configuration names a host, a user, a database and a
    /// nonzero port.
    pub open spec fn valid(&self) -> bool {
        &&& self.host@.len() > 0
        &&& self.user@.len() > 0
        &&& self.database@.len() > 0
        &&& self.port != 0
    }

    /// Whether this configuration is usable.
    pub fn is_valid(&self) -> (r: bool)
        ensures
            r == self.valid(),
    {
        !self.host.as_str().is_empty() && !self.user.as_str().is_empty()
            && !self.database.as_str().is_empty() && self.port != 0
    }
}

/// The relational change-data-capture connector.
pub struct PostgresConnector {
    /// The source configuration.
    pub config: PostgresConfig,
    /// The shared connector state machine.
    pub runtime: SourceRuntime,
}

impl PostgresConnector {
    /// A fresh, unbound relational connector with kind tag `id`.  Pure
    /// and local: nothing is connected until `start`.
    pub fn new(id: u32, config: PostgresConfig) -> (c: Self)
        ensures
            c.wf(),
            c.tag() == id,
            !c.initialized(),
            c.catalog() == Seq::<(String, Schema)>::empty(),
            c.pending() == Seq::<ChangeEvent>::empty(),
            c.config == config,
    {
        PostgresConnector { config, runtime: SourceRuntime::new(id) }
    }
}

impl Connector for PostgresConnector {
    open spec fn tag(&self) -> u32 {
        self.runtime.tag
    }

    open spec fn catalog(&self) -> Seq<(String, Schema)> {
        self.runtime.catalog@
    }

    open spec fn reachable(&self) -> bool {
        self.config.valid()
    }

    open spec fn initialized(&self) -> bool {
        self.runtime.is_bound()
    }

    open spec fn pending(&self) -> Seq<ChangeEvent> {
        self.runtime.pending@
    }

    open spec fn table_filter(&self) -> Option<Vec<TableInfo>> {
        self.runtime.tables
    }

    open spec fn wf(&self) -> bool {
        self.runtime.wf()
    }

    fn get_schemas(&self, table_names: Option<Vec<String>>) -> (r: Result<
        Vec<(String, Schema)>,
        ConnectorError,
    >) {
        self.runtime.discover(table_names)
    }

    fn get_tables(&self) -> (r: Result<Vec<TableInfo>, ConnectorError>) {
        self.runtime.enumerate()
    }

    fn test_connection(&self) -> (r: Result<(), ConnectorError>) {
        if self.config.is_valid() {
            Ok(())
        } else {
            Err(ConnectorError::ConnectionFailure)
        }
    }

    fn initialize(&mut self, ingestor: SharedIngestor, tables: Option<Vec<TableInfo>>) -> (r:
        Result<(), ConnectorError>) {
        let ok = self.config.is_valid();
        self.runtime.bind(ok, ingestor, tables)
    }

    fn start(&mut self, running: &SharedFlag) -> (r: Result<(), ConnectorError>) {
        self.runtime.run_loop(running)
    }

    fn stop(&self) {
        self.runtime.request_stop();
    }
}

} // verus!
