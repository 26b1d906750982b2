//! The internal-bus connector: the fully worked source family.
//!
//! Its source is the process itself — other components publish change
//! events and expose table schemas directly on the connector — so unlike
//! the network-backed families it has no unreachable state and no
//! credentials to validate.

use vstd::prelude::*;

use crate::connector::{Connector, TableInfo};
use crate::connectors::runtime::SourceRuntime;
use crate::errors::ConnectorError;
use crate::shared::{SharedFlag, SharedIngestor};
use crate::types::{ChangeEvent, Operation, Schema};

verus! {

/// The in-process event-bus connector.
pub struct EventsConnector {
    /// The configured source name.
    pub name: String,
    /// The shared connector state machine.
    pub runtime: SourceRuntime,
}

impl EventsConnector {
    /// A fresh, unbound bus connector with kind tag `id`.  Pure and
    /// local: no I/O of any kind happens here.
    pub fn new(id: u32, name: String) -> (c: Self)
        ensures
            c.wf(),
            c.tag() == id,
            !c.initialized(),
            c.catalog() == Seq::<(String, Schema)>::empty(),
            c.pending() == Seq::<ChangeEvent>::empty(),
            c.name == name,
    {
        EventsConnector { name, runtime: SourceRuntime::new(id) }
    }

    /// A bus participant exposes one table and its schema; the first
    /// exposure of a name wins.
    pub fn expose_table(&mut self, name: String, schema: Schema)
        requires
            old(self).wf(),
            old(self).catalog().len() < 0xffff_ffff,
        ensures
            final(self).wf(),
            final(self).tag() == old(self).tag(),
            final(self).initialized() == old(self).initialized(),
            final(self).pending() == old(self).pending(),
            final(self).name == old(self).name,
            crate::types::has_table(old(self).catalog(), name@) ==> final(self).catalog() == old(
                self,
            ).catalog(),
            !crate::types::has_table(old(self).catalog(), name@) ==> final(self).catalog() == old(
                self,
            ).catalog().push((name, schema)),
    {
        self.runtime.record_table(name, schema);
    }

    /// A bus participant publishes one change of table `table_id`; the
    /// connector mints the event with its own tag and the next sequence
    /// number of its stream.
    pub fn publish(&mut self, table_id: u32, op: Operation)
        requires
            old(self).wf(),
            old(self).runtime.next_seq < 0xffff_ffff_ffff_ffff,
        ensures
            final(self).wf(),
            final(self).tag() == old(self).tag(),
            final(self).catalog() == old(self).catalog(),
            final(self).initialized() == old(self).initialized(),
            final(self).name == old(self).name,
            final(self).runtime.next_seq == old(self).runtime.next_seq + 1,
            final(self).pending() == old(self).pending().push(
                ChangeEvent {
                    connector_id: old(self).tag(),
                    table_id,
                    seq_no: old(self).runtime.next_seq,
                    op,
                },
            ),
    {
        self.runtime.record_change(table_id, op);
    }
}

impl Connector for EventsConnector {
    open spec fn tag(&self) -> u32 {
        self.runtime.tag
    }

    open spec fn catalog(&self) -> Seq<(String, Schema)> {
        self.runtime.catalog@
    }

    open spec fn reachable(&self) -> bool {
        true
    }

    open spec fn initialized(&self) -> bool {
        self.runtime.is_bound()
    }

    open spec fn pending(&self) -> Seq<ChangeEvent> {
        self.runtime.pending@
    }

    open spec fn table_filter(&self) -> Option<Vec<TableInfo>> {
        self.runtime.tables
    }

    open spec fn wf(&self) -> bool {
        self.runtime.wf()
    }

    fn get_schemas(&self, table_names: Option<Vec<String>>) -> (r: Result<
        Vec<(String, Schema)>,
        ConnectorError,
    >) {
        self.runtime.discover(table_names)
    }

    fn get_tables(&self) -> (r: Result<Vec<TableInfo>, ConnectorError>) {
        self.runtime.enumerate()
    }

    fn test_connection(&self) -> (r: Result<(), ConnectorError>) {
        Ok(())
    }

    fn initialize(&mut self, ingestor: SharedIngestor, tables: Option<Vec<TableInfo>>) -> (r:
        Result<(), ConnectorError>) {
        self.runtime.bind(true, ingestor, tables)
    }

    fn start(&mut self, running: &SharedFlag) -> (r: Result<(), ConnectorError>) {
        self.runtime.run_loop(running)
    }

    fn stop(&self) {
        self.runtime.request_stop();
    }
}

} // verus!
