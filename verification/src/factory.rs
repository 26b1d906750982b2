//! The connector factory: a total function from every `Authentication`
//! variant to a constructed, not-yet-started connector.

use vstd::prelude::*;

use crate::connector::{Connector, TableInfo};
use crate::connectors::ethereum::{EthConfig, EthConnector};
use crate::connectors::events::EventsConnector;
use crate::connectors::postgres::{PostgresConfig, PostgresConnector};
use crate::connectors::snowflake::{SnowflakeConfig, SnowflakeConnector};
use crate::errors::ConnectorError;
use crate::shared::{SharedFlag, SharedIngestor};
use crate::types::{Authentication, ChangeEvent, Connection, Schema};

verus! {

/// The closed set of concrete connectors the factory can build.  Dispatch
/// is by variant, never by the numeric kind tag.
pub enum AnyConnector {
    /// A relational change-data-capture connector.
    Postgres(PostgresConnector),
    /// A chain event-log connector.
    Ethereum(EthConnector),
    /// An in-process event-bus connector.
    Events(EventsConnector),
    /// A warehouse batch-pull connector.
    Snowflake(SnowflakeConnector),
}

/// What the factory guarantees about the connector built from a
/// connection: the variant matches the `Authentication` variant, the kind
/// tag is the stable one of that family, and every configuration field
/// the family needs is carried over unchanged (the relational family
/// discards the password, which its wire protocol handles separately).
pub open spec fn built_from(connection: Connection, c: AnyConnector) -> bool {
    match connection.authentication {
        Authentication::PostgresAuthentication { user, password: _, host, port, database } => {
            &&& c matches AnyConnector::Postgres(p)
            &&& p.tag() == 1
            &&& p.config.name == connection.name
            &&& p.config.tables is None
            &&& p.config.host == host
            &&& p.config.port == port
            &&& p.config.user == user
            &&& p.config.database == database
        },
        Authentication::EthereumAuthentication { filter, wss_url } => {
            &&& c matches AnyConnector::Ethereum(e)
            &&& e.tag() == 2
            &&& e.config.name == connection.name
            &&& e.config.filter == filter
            &&& e.config.wss_url == wss_url
        },
        Authentication::Events => {
            &&& c matches AnyConnector::Events(ev)
            &&& ev.tag() == 3
            &&& ev.name == connection.name
        },
        Authentication::SnowflakeAuthentication {
            server,
            port,
            user,
            password,
            database,
            schema,
            warehouse,
            driver,
        } => {
            &&& c matches AnyConnector::Snowflake(s)
            &&& s.tag() == 4
            &&& s.config.server == server
            &&& s.config.port == port
            &&& s.config.user == user
            &&& s.config.password == password
            &&& s.config.database == database
            &&& s.config.schema == schema
            &&& s.config.warehouse == warehouse
            &&& s.config.driver == driver
        },
    }
}

/// Build the concrete connector for a source configuration.  Total over
/// every `Authentication` variant, pure and local: no network traffic of
/// any kind happens before `initialize`/`start`, and the returned
/// connector is well-formed, unbound and has an empty stream.
pub fn get_connector(connection: Connection) -> (c: AnyConnector)
    ensures
        c.wf(),
        !c.initialized(),
        c.catalog() == Seq::<(String, Schema)>::empty(),
        c.pending() == Seq::<ChangeEvent>::empty(),
        built_from(connection, c),
{
    let Connection { name, authentication } = connection;
    match authentication {
        Authentication::PostgresAuthentication { user, password: _, host, port, database } => {
            let postgres_config = PostgresConfig {
                name,
                tables: None,
                host,
                port,
                user,
                database,
            };
            AnyConnector::Postgres(PostgresConnector::new(1, postgres_config))
        },
        Authentication::EthereumAuthentication { filter, wss_url } => {
            let eth_config = EthConfig { name, filter, wss_url };
            AnyConnector::Ethereum(EthConnector::new(2, eth_config))
        },
        Authentication::Events => AnyConnector::Events(EventsConnector::new(3, name)),
        Authentication::SnowflakeAuthentication {
            server,
            port,
            user,
            password,
            database,
            schema,
            warehouse,
            driver,
        } => {
            let snowflake_config = SnowflakeConfig {
                server,
                port,
                user,
                password,
                database,
                schema,
                warehouse,
                driver,
            };
            AnyConnector::Snowflake(SnowflakeConnector::new(4, snowflake_config))
        },
    }
}

impl Connector for AnyConnector {
    open spec fn tag(&self) -> u32 {
        match self {
            AnyConnector::Postgres(c) => c.tag(),
            AnyConnector::Ethereum(c) => c.tag(),
            AnyConnector::Events(c) => c.tag(),
            AnyConnector::Snowflake(c) => c.tag(),
        }
    }

    open spec fn catalog(&self) -> Seq<(String, Schema)> {
        match self {
            AnyConnector::Postgres(c) => c.catalog(),
            AnyConnector::Ethereum(c) => c.catalog(),
            AnyConnector::Events(c) => c.catalog(),
            AnyConnector::Snowflake(c) => c.catalog(),
        }
    }

    open spec fn reachable(&self) -> bool {
        match self {
            AnyConnector::Postgres(c) => c.reachable(),
            AnyConnector::Ethereum(c) => c.reachable(),
            AnyConnector::Events(c) => c.reachable(),
            AnyConnector::Snowflake(c) => c.reachable(),
        }
    }

    open spec fn initialized(&self) -> bool {
        match self {
            AnyConnector::Postgres(c) => c.initialized(),
            AnyConnector::Ethereum(c) => c.initialized(),
            AnyConnector::Events(c) => c.initialized(),
            AnyConnector::Snowflake(c) => c.initialized(),
        }
    }

    open spec fn pending(&self) -> Seq<ChangeEvent> {
        match self {
            AnyConnector::Postgres(c) => c.pending(),
            AnyConnector::Ethereum(c) => c.pending(),
            AnyConnector::Events(c) => c.pending(),
            AnyConnector::Snowflake(c) => c.pending(),
        }
    }

    open spec fn table_filter(&self) -> Option<Vec<TableInfo>> {
        match self {
            AnyConnector::Postgres(c) => c.table_filter(),
            AnyConnector::Ethereum(c) => c.table_filter(),
            AnyConnector::Events(c) => c.table_filter(),
            AnyConnector::Snowflake(c) => c.table_filter(),
        }
    }

    open spec fn wf(&self) -> bool {
        match self {
            AnyConnector::Postgres(c) => c.wf(),
            AnyConnector::Ethereum(c) => c.wf(),
            AnyConnector::Events(c) => c.wf(),
            AnyConnector::Snowflake(c) => c.wf(),
        }
    }

    fn get_schemas(&self, table_names: Option<Vec<String>>) -> (r: Result<
        Vec<(String, Schema)>,
        ConnectorError,
    >) {
        match self {
            AnyConnector::Postgres(c) => c.get_schemas(table_names),
            AnyConnector::Ethereum(c) => c.get_schemas(table_names),
            AnyConnector::Events(c) => c.get_schemas(table_names),
            AnyConnector::Snowflake(c) => c.get_schemas(table_names),
        }
    }

    fn get_tables(&self) -> (r: Result<Vec<TableInfo>, ConnectorError>) {
        match self {
            AnyConnector::Postgres(c) => c.get_tables(),
            AnyConnector::Ethereum(c) => c.get_tables(),
            AnyConnector::Events(c) => c.get_tables(),
            AnyConnector::Snowflake(c) => c.get_tables(),
        }
    }

    fn test_connection(&self) -> (r: Result<(), ConnectorError>) {
        match self {
            AnyConnector::Postgres(c) => c.test_connection(),
            AnyConnector::Ethereum(c) => c.test_connection(),
            AnyConnector::Events(c) => c.test_connection(),
            AnyConnector::Snowflake(c) => c.test_connection(),
        }
    }

    fn initialize(&mut self, ingestor: SharedIngestor, tables: Option<Vec<TableInfo>>) -> (r:
        Result<(), ConnectorError>) {
        match self {
            AnyConnector::Postgres(c) => c.initialize(ingestor, tables),
            AnyConnector::Ethereum(c) => c.initialize(ingestor, tables),
            AnyConnector::Events(c) => c.initialize(ingestor, tables),
            AnyConnector::Snowflake(c) => c.initialize(ingestor, tables),
        }
    }

    fn start(&mut self, running: &SharedFlag) -> (r: Result<(), ConnectorError>) {
        match self {
            AnyConnector::Postgres(c) => c.start(running),
            AnyConnector::Ethereum(c) => c.start(running),
            AnyConnector::Events(c) => c.start(running),
            AnyConnector::Snowflake(c) => c.start(running),
        }
    }

    fn stop(&self) {
        match self {
            AnyConnector::Postgres(c) => c.stop(),
            AnyConnector::Ethereum(c) => c.stop(),
            AnyConnector::Events(c) => c.stop(),
            AnyConnector::Snowflake(c) => c.stop(),
        }
    }
}

} // verus!
