//! The chain-log connector, built to the shared runtime shape.  Its
//! protocol half — a log subscription over a websocket endpoint — is a
//! plugin behind the contract and feeds the runtime through
//! `record_table` and `record_change`.

use vstd::prelude::*;

use crate::connector::{Connector, TableInfo};
use crate::connectors::runtime::SourceRuntime;
use crate::errors::ConnectorError;
use crate::shared::{SharedFlag, SharedIngestor};
use crate::types::{ChangeEvent, EthFilter, Schema};

verus! {

/// The chain-log source configuration, as assembled by the factory.
pub struct EthConfig {
    /// The configured source name.
    pub name: String,
    /// An optional event filter for the subscription.
    pub filter: Option<EthFilter>,
    /// The websocket subscription endpoint.
    pub wss_url: String,
}

impl EthConfig {
    /// A usable configuration names a subscription endpoint.
    pub open spec fn valid(&self) -> bool {
        self.wss_url@.len() > 0
    }

    /// Whether this configuration is usable.
    pub fn is_valid(&self) -> (r: bool)
        ensures
            r == self.valid(),
    {
        !self.wss_url.as_str().is_empty()
    }
}

/// The chain event-log connector.
pub struct EthConnector {
    /// The source configuration.
    pub config: EthConfig,
    /// The shared connector state machine.
    pub runtime: SourceRuntime,
}

impl EthConnector {
    /// A fresh, unbound chain-log connector with kind tag `id`.  Pure and
    /// local: nothing is subscribed until `start`.
    pub fn new(id: u32, config: EthConfig) -> (c: Self)
        ensures
            c.wf(),
            c.tag() == id,
            !c.initialized(),
            c.catalog() == Seq::<(String, Schema)>::empty(),
            c.pending() == Seq::<ChangeEvent>::empty(),
            c.config == config,
    {
        EthConnector { config, runtime: SourceRuntime::new(id) }
    }
}

impl Connector for EthConnector {
    open spec fn tag(&self) -> u32 {
        self.runtime.tag
    }

    open spec fn catalog(&self) -> Seq<(String, Schema)> {
        self.runtime.catalog@
    }

    open spec fn reachable(&self) -> bool {
        self.config.valid()
    }

    open spec fn initialized(&self) -> bool {
        self.runtime.is_bound()
    }

    open spec fn pending(&self) -> Seq<ChangeEvent> {
        self.runtime.pending@
    }

    open spec fn table_filter(&self) -> Option<Vec<TableInfo>> {
        self.runtime.tables
    }

    open spec fn wf(&self) -> bool {
        self.runtime.wf()
    }

    fn get_schemas(&self, table_names: Option<Vec<String>>) -> (r: Result<
        Vec<(String, Schema)>,
        ConnectorError,
    >) {
        self.runtime.discover(table_names)
    }

    fn get_tables(&self) -> (r: Result<Vec<TableInfo>, ConnectorError>) {
        self.runtime.enumerate()
    }

    fn test_connection(&self) -> (r: Result<(), ConnectorError>) {
        if self.config.is_valid() {
            Ok(())
        } else {
            Err(ConnectorError::ConnectionFailure)
        }
    }

    fn initialize(&mut self, ingestor: SharedIngestor, tables: Option<Vec<TableInfo>>) -> (r:
        Result<(), ConnectorError>) {
        let ok = self.config.is_valid();
        self.runtime.bind(ok, ingestor, tables)
    }

    fn start(&mut self, running: &SharedFlag) -> (r: Result<(), ConnectorError>) {
        self.runtime.run_loop(running)
    }

    fn stop(&self) {
        self.runtime.request_stop();
    }
}

} // verus!
