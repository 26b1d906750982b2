//! The data-warehouse batch-pull connector, built to the shared runtime
//! shape.  Its protocol half — driver-based batch queries against the
//! warehouse — is a plugin behind the contract and feeds the runtime
//! through `record_table` and `record_change`.

use vstd::prelude::*;

use crate::connector::{Connector, TableInfo};
use crate::connectors::runtime::SourceRuntime;
use crate::errors::ConnectorError;
use crate::shared::{SharedFlag, SharedIngestor};
use crate::types::{ChangeEvent, Schema};

verus! {

/// The warehouse source configuration, as assembled by the factory.
pub struct SnowflakeConfig {
    /// The account server.
    pub server: String,
    /// The port, as the driver takes it.
    pub port: String,
    /// The user to connect as.
    pub user: String,
    /// The user's credential.
    pub password: String,
    /// The database to pull from.
    pub database: String,
    /// The schema within the database.
    pub schema: String,
    /// The virtual warehouse to run on.
    pub warehouse: String,
    /// An optional driver override.
    pub driver: Option<String>,
}

impl SnowflakeConfig {
    /// A usable configuration names a server, a user, a database and a
    /// warehouse.
    pub open spec fn valid(&self) -> bool {
        &&& self.server@.len() > 0
        &&& self.user@.len() > 0
        &&& self.database@.len() > 0
        &&& self.warehouse@.len() > 0
    }

    /// Whether this configuration is usable.
    pub fn is_valid(&self) -> (r: bool)
        ensures
            r == self.valid(),
    {
        !self.server.as_str().is_empty() && !self.user.as_str().is_empty()
            && !self.database.as_str().is_empty() && !self.warehouse.as_str().is_empty()
    }
}

/// The warehouse batch-pull connector.
pub struct SnowflakeConnector {
    /// The source configuration.
    pub config: SnowflakeConfig,
    /// The shared connector state machine.
    pub runtime: SourceRuntime,
}

impl SnowflakeConnector {
    /// A fresh, unbound warehouse connector with kind tag `id`.  Pure and
    /// local: nothing is queried until `start`.
    pub fn new(id: u32, config: SnowflakeConfig) -> (c: Self)
        ensures
            c.wf(),
            c.tag() == id,
            !c.initialized(),
            c.catalog() == Seq::<(String, Schema)>::empty(),
            c.pending() == Seq::<ChangeEvent>::empty(),
            c.config == config,
    {
        SnowflakeConnector { config, runtime: SourceRuntime::new(id) }
    }
}

impl Connector for SnowflakeConnector {
    open spec fn tag(&self) -> u32 {
        self.runtime.tag
    }

    open spec fn catalog(&self) -> Seq<(String, Schema)> {
        self.runtime.catalog@
    }

    open spec fn reachable(&self) -> bool {
        self.config.valid()
    }

    open spec fn initialized(&self) -> bool {
        self.runtime.is_bound()
    }

    open spec fn pending(&self) -> Seq<ChangeEvent> {
        self.runtime.pending@
    }

    open spec fn table_filter(&self) -> Option<Vec<TableInfo>> {
        self.runtime.tables
    }

    open spec fn wf(&self) -> bool {
        self.runtime.wf()
    }

    fn get_schemas(&self, table_names: Option<Vec<String>>) -> (r: Result<
        Vec<(String, Schema)>,
        ConnectorError,
    >) {
        self.runtime.discover(table_names)
    }

    fn get_tables(&self) -> (r: Result<Vec<TableInfo>, ConnectorError>) {
        self.runtime.enumerate()
    }

    fn test_connection(&self) -> (r: Result<(), ConnectorError>) {
        if self.config.is_valid() {
            Ok(())
        } else {
            Err(ConnectorError::ConnectionFailure)
        }
    }

    fn initialize(&mut self, ingestor: SharedIngestor, tables: Option<Vec<TableInfo>>) -> (r:
        Result<(), ConnectorError>) {
        let ok = self.config.is_valid();
        self.runtime.bind(ok, ingestor, tables)
    }

    fn start(&mut self, running: &SharedFlag) -> (r: Result<(), ConnectorError>) {
        self.runtime.run_loop(running)
    }

    fn stop(&self) {
        self.runtime.request_stop();
    }
}

} // verus!
