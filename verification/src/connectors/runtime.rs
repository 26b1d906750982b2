//! The state machine every concrete connector is built around.
//!
//! A `SourceRuntime` holds what the connector contract needs regardless of
//! the source family: the discovered catalog, the decoded change events
//! waiting to enter the buffer, the per-connector sequence counter, the
//! buffer binding made by `initialize`, the table filter, and the
//! connector's own stop signal.  The family-specific protocol half of a
//! connector (replication decoding, log subscription, batch pull, bus
//! delivery) feeds it through `record_table` and `record_change`.

use vstd::prelude::*;

use crate::connector::{
    TableInfo, admits, consumed_in_order, discovery_post, enumeration_ok, filter_rejects_all,
};
use crate::errors::ConnectorError;
use crate::shared::{PushOutcome, SharedFlag, SharedIngestor};
use crate::types::{
    ChangeEvent, Operation, Schema, distinct_tables, has_table, lemma_schema_of_unique, schema_of,
};

verus! {

/// How many consecutive at-capacity push attempts `run_loop` tolerates
/// before it declares the pipeline stalled: the connector's bounded grace
/// for blocking backpressure, kept shorter than any coordinator join
/// timeout.
pub const STALL_GRACE: u64 = 4096;

/// Whether the bound table filter admits `table_id`.
fn table_admitted(tables: &Option<Vec<TableInfo>>, table_id: u32) -> (b: bool)
    ensures
        b == admits(*tables, table_id),
{
    match tables {
        None => true,
        Some(ts) => {
            let n = ts.len();
            let mut i: usize = 0;
            while i < n
                invariant
                    *tables == Some(*ts),
                    n == ts@.len(),
                    0 <= i <= n,
                    forall|j: int| 0 <= j < i ==> (#[trigger] ts@[j]).id != table_id,
                decreases n - i,
            {
                if ts[i].id == table_id {
                    proof {
                        assert(exists|j: int|
                            0 <= j < ts@.len() && (#[trigger] ts@[j]).id == table_id) by {
                            assert((ts@[i as int]).id == table_id);
                        }
                    }
                    return true;
                }
                i += 1;
            }
            false
        },
    }
}

/// The source-family-independent state of one connector.
pub struct SourceRuntime {
    /// The small integer kind tag of the source family.
    pub tag: u32,
    /// The discovered catalog: (table name, schema), distinct by name.
    pub catalog: Vec<(String, Schema)>,
    /// Decoded changes waiting to enter the buffer, in emission order.
    pub pending: Vec<ChangeEvent>,
    /// The next per-connector sequence number to mint.
    pub next_seq: u64,
    /// The buffer binding made by `initialize`.
    pub ingestor: Option<SharedIngestor>,
    /// The table filter bound at `initialize`; `None` admits all tables.
    pub tables: Option<Vec<TableInfo>>,
    /// The connector's own stop signal, cleared by `stop`.
    pub control: SharedFlag,
}

impl SourceRuntime {
    /// Whether `initialize` has bound this runtime to a buffer.
    pub open spec fn is_bound(&self) -> bool {
        self.ingestor is Some
    }

    /// Internal consistency: catalog names are distinct and small enough
    /// to enumerate, and the pending stream carries this connector's tag
    /// with strictly increasing sequence numbers below the counter.
    pub open spec fn wf(&self) -> bool {
        &&& distinct_tables(self.catalog@)
        &&& self.catalog@.len() <= 0xffff_ffff
        &&& forall|i: int|
            0 <= i < self.pending@.len() ==> (#[trigger] self.pending@[i]).connector_id == self.tag
        &&& forall|i: int|
            0 <= i < self.pending@.len() ==> (#[trigger] self.pending@[i]).seq_no < self.next_seq
        &&& forall|i: int, j: int|
            0 <= i < j < self.pending@.len() ==> self.pending@[i].seq_no < self.pending@[j].seq_no
    }

    /// A fresh runtime for a connector with kind tag `tag`: empty catalog,
    /// empty pending stream, unbound, stop signal armed.
    pub fn new(tag: u32) -> (s: Self)
        ensures
            s.wf(),
            s.tag == tag,
            !s.is_bound(),
            s.catalog@ == Seq::<(String, Schema)>::empty(),
            s.pending@ == Seq::<ChangeEvent>::empty(),
            s.next_seq == 0,
            s.tables is None,
    {
        SourceRuntime {
            tag,
            catalog: Vec::new(),
            pending: Vec::new(),
            next_seq: 0,
            ingestor: None,
            tables: None,
            control: SharedFlag::new(true),
        }
    }

    /// The protocol half reports one discovered table.  The first report
    /// of a name wins; a repeated name changes nothing.
    pub fn record_table(&mut self, name: String, schema: Schema)
        requires
            old(self).wf(),
            old(self).catalog@.len() < 0xffff_ffff,
        ensures
            final(self).wf(),
            final(self).tag == old(self).tag,
            final(self).pending@ == old(self).pending@,
            final(self).next_seq == old(self).next_seq,
            final(self).ingestor == old(self).ingestor,
            final(self).tables == old(self).tables,
            final(self).control == old(self).control,
            has_table(old(self).catalog@, name@) ==> final(self).catalog@ == old(self).catalog@,
            !has_table(old(self).catalog@, name@) ==> final(self).catalog@ == old(
                self,
            ).catalog@.push((name, schema)),
    {
        let n = self.catalog.len();
        let mut i: usize = 0;
        while i < n
            invariant
                old(self).wf(),
                *self == *old(self),
                n == self.catalog@.len(),
                0 <= i <= n,
                forall|j: int| 0 <= j < i ==> self.catalog@[j].0@ != name@,
            decreases n - i,
        {
            if self.catalog[i].0 == name {
                proof {
                    assert(self.catalog@[i as int].0@ == name@);
                }
                return ;
            }
            i += 1;
        }
        self.catalog.push((name, schema));
    }

    /// The protocol half reports one decoded change of table `table_id`.
    /// A `ChangeEvent` is minted with this connector's tag and the next
    /// sequence number and appended to the pending stream.
    pub fn record_change(&mut self, table_id: u32, op: Operation)
        requires
            old(self).wf(),
            old(self).next_seq < 0xffff_ffff_ffff_ffff,
        ensures
            final(self).wf(),
            final(self).tag == old(self).tag,
            final(self).catalog@ == old(self).catalog@,
            final(self).next_seq == old(self).next_seq + 1,
            final(self).ingestor == old(self).ingestor,
            final(self).tables == old(self).tables,
            final(self).control == old(self).control,
            final(self).pending@ == old(self).pending@.push(
                ChangeEvent {
                    connector_id: old(self).tag,
                    table_id,
                    seq_no: old(self).next_seq,
                    op,
                },
            ),
    {
        let ev = ChangeEvent { connector_id: self.tag, table_id, seq_no: self.next_seq, op };
        self.pending.push(ev);
        self.next_seq = self.next_seq + 1;
    }

    /// Schema discovery against the recorded catalog: the whole catalog
    /// without a filter, exactly the requested names with one, and an
    /// all-or-nothing `SchemaNotFound` naming the first missing name.
    #[verifier::rlimit(60)]
    pub fn discover(&self, table_names: Option<Vec<String>>) -> (r: Result<
        Vec<(String, Schema)>,
        ConnectorError,
    >)
        requires
            self.wf(),
        ensures
            discovery_post(self.catalog@, table_names, r),
    {
        match table_names {
            None => {
                let n = self.catalog.len();
                let mut out: Vec<(String, Schema)> = Vec::new();
                let mut i: usize = 0;
                while i < n
                    invariant
                        table_names is None,
                        self.wf(),
                        n == self.catalog@.len(),
                        0 <= i <= n,
                        out@.len() == i,
                        forall|t: int|
                            0 <= t < i ==> #[trigger] out@[t].0@ == self.catalog@[t].0@
                                && out@[t].1@ == self.catalog@[t].1@,
                    decreases n - i,
                {
                    out.push((self.catalog[i].0.clone(), self.catalog[i].1.clone()));
                    i += 1;
                }
                proof {
                    assert(discovery_post(self.catalog@, table_names, Ok(out)));
                }
                Ok(out)
            },
            Some(names) => {
                let n = names.len();
                let mut out: Vec<(String, Schema)> = Vec::new();
                let mut i: usize = 0;
                while i < n
                    invariant
                        table_names == Some(names),
                        self.wf(),
                        n == names@.len(),
                        0 <= i <= n,
                        out@.len() == i,
                        forall|t: int| 0 <= t < i ==> has_table(self.catalog@, names@[t]@),
                        forall|t: int|
                            0 <= t < i ==> #[trigger] out@[t].0@ == names@[t]@ && out@[t].1@
                                == schema_of(self.catalog@, names@[t]@)@,
                    decreases n - i,
                {
                    match Self::lookup_catalog(&self.catalog, &names[i]) {
                        Some(pair) => {
                            out.push((pair.0.clone(), pair.1.clone()));
                        },
                        None => {
                            let missing = names[i].clone();
                            proof {
                                // name the requested sequence as the contract's
                                // quantifier sees it, so `i` serves as its witness
                                let ns = table_names->Some_0;
                                assert(!has_table(self.catalog@, ns@[i as int]@));
                            }
                            return Err(ConnectorError::SchemaNotFound(missing));
                        },
                    }
                    i += 1;
                }
                proof {
                    assert(discovery_post(self.catalog@, table_names, Ok(out)));
                }
                Ok(out)
            },
        }
    }

    /// Find a catalog entry by table name.
    fn lookup_catalog<'a>(catalog: &'a Vec<(String, Schema)>, name: &String) -> (r: Option<
        &'a (String, Schema),
    >)
        requires
            distinct_tables(catalog@),
        ensures
            r is Some <==> has_table(catalog@, name@),
            r matches Some(p) ==> p.0@ == name@ && p.1 == schema_of(catalog@, name@),
    {
        let n = catalog.len();
        let mut i: usize = 0;
        while i < n
            invariant
                distinct_tables(catalog@),
                n == catalog@.len(),
                0 <= i <= n,
                forall|j: int| 0 <= j < i ==> catalog@[j].0@ != name@,
            decreases n - i,
        {
            if catalog[i].0 == *name {
                proof {
                    lemma_schema_of_unique(catalog@, name@, i as int);
                }
                return Some(&catalog[i]);
            }
            i += 1;
        }
        None
    }

    /// Lightweight enumeration of the recorded catalog: one `TableInfo`
    /// per entry, id equal to the catalog position, no column filter.
    pub fn enumerate(&self) -> (r: Result<Vec<TableInfo>, ConnectorError>)
        requires
            self.wf(),
        ensures
            r matches Ok(out) && enumeration_ok(self.catalog@, out@),
    {
        let n = self.catalog.len();
        let mut out: Vec<TableInfo> = Vec::new();
        let mut i: usize = 0;
        while i < n
            invariant
                self.wf(),
                n == self.catalog@.len(),
                0 <= i <= n,
                out@.len() == i,
                forall|t: int|
                    0 <= t < i ==> #[trigger] out@[t].name@ == self.catalog@[t].0@ && out@[t].id
                        == t && out@[t].columns is None,
            decreases n - i,
        {
            out.push(TableInfo { name: self.catalog[i].0.clone(), id: i as u32, columns: None });
            i += 1;
        }
        Ok(out)
    }

    /// Bind the runtime to the shared buffer and store the table filter.
    /// `config_ok` is the connector's own verdict on its configuration; a
    /// bad configuration keeps the connector unbound (still `Built`), and
    /// a second bind is a defect-class error that changes nothing.
    pub fn bind(&mut self, config_ok: bool, ingestor: SharedIngestor, tables: Option<
        Vec<TableInfo>,
    >) -> (r: Result<(), ConnectorError>)
        requires
            old(self).wf(),
        ensures
            final(self).wf(),
            final(self).tag == old(self).tag,
            final(self).catalog@ == old(self).catalog@,
            final(self).pending@ == old(self).pending@,
            final(self).next_seq == old(self).next_seq,
            final(self).control == old(self).control,
            old(self).is_bound() ==> r == Err::<(), ConnectorError>(ConnectorError::LifecycleMisuse)
                && final(self).is_bound() && final(self).tables == old(self).tables,
            !old(self).is_bound() && !config_ok ==> r == Err::<(), ConnectorError>(
                ConnectorError::InvalidConfiguration,
            ) && !final(self).is_bound() && final(self).tables == old(self).tables,
            !old(self).is_bound() && config_ok ==> r == Ok::<(), ConnectorError>(())
                && final(self).is_bound() && final(self).tables == tables,
    {
        if self.ingestor.is_some() {
            return Err(ConnectorError::LifecycleMisuse);
        }
        if !config_ok {
            return Err(ConnectorError::InvalidConfiguration);
        }
        self.ingestor = Some(ingestor);
        self.tables = tables;
        Ok(())
    }

    /// The blocking ingestion loop behind every connector's `start`.
    ///
    /// Registers the catalog's schemas with the buffer, then forwards the
    /// pending stream in order, skipping tables the bound filter refuses,
    /// polling the coordinator's running flag and the connector's own stop
    /// signal before every event.  Clean shutdowns — flag cleared, stop
    /// requested, buffer closed, stream exhausted — return `Ok`; a push
    /// stalled at capacity past `STALL_GRACE` consecutive attempts
    /// surfaces a terminal connectivity error.  Only such a stall can
    /// fail a bound runtime: an empty pending stream, or one the filter
    /// wholly refuses, is owed `Ok`, and an error always leaves something
    /// unconsumed.  Whatever the path, what was consumed is a prefix of
    /// the pending stream: per-connector emission order is never
    /// reordered.
    pub fn run_loop(&mut self, running: &SharedFlag) -> (r: Result<(), ConnectorError>)
        requires
            old(self).wf(),
        ensures
            final(self).wf(),
            final(self).tag == old(self).tag,
            final(self).catalog@ == old(self).catalog@,
            final(self).next_seq == old(self).next_seq,
            final(self).ingestor == old(self).ingestor,
            final(self).tables == old(self).tables,
            final(self).control == old(self).control,
            !old(self).is_bound() ==> r == Err::<(), ConnectorError>(
                ConnectorError::LifecycleMisuse,
            ) && final(self).pending@ == old(self).pending@,
            old(self).is_bound() ==> (r is Ok || r == Err::<(), ConnectorError>(
                ConnectorError::ConnectionFailure,
            )) && consumed_in_order(old(self).pending@, final(self).pending@),
            old(self).is_bound() && old(self).pending@.len() == 0 ==> r is Ok,
            old(self).is_bound() && filter_rejects_all(old(self).tables, old(self).pending@)
                ==> r is Ok,
            old(self).is_bound() && r is Err ==> final(self).pending@.len() > 0,
    {
        let h = match &self.ingestor {
            Some(x) => x.handle(),
            None => {
                return Err(ConnectorError::LifecycleMisuse);
            },
        };
        let n = self.catalog.len();
        let mut i: usize = 0;
        while i < n
            invariant
                old(self).wf(),
                *self == *old(self),
                n == self.catalog@.len(),
                0 <= i <= n,
            decreases n - i,
        {
            let name = self.catalog[i].0.clone();
            let schema = self.catalog[i].1.clone();
            h.register_schema(name, schema);
            i += 1;
        }
        let ghost pend0 = self.pending@;
        let mut stalls: u64 = 0;
        while self.pending.len() > 0
            invariant
                old(self).wf(),
                old(self).is_bound(),
                self.wf(),
                stalls <= STALL_GRACE,
                self.tag == old(self).tag,
                self.catalog == old(self).catalog,
                self.next_seq == old(self).next_seq,
                self.ingestor == old(self).ingestor,
                self.tables == old(self).tables,
                self.control == old(self).control,
                pend0 == old(self).pending@,
                self.pending@.len() <= pend0.len(),
                self.pending@ == pend0.skip(pend0.len() - self.pending@.len()),
            decreases self.pending@.len(), STALL_GRACE - stalls,
        {
            if !running.get() || !self.control.get() {
                return Ok(());
            }
            let ghost before = self.pending@;
            let ev = self.pending.remove(0);
            proof {
                assert(self.pending@ =~= pend0.skip(pend0.len() - self.pending@.len()));
            }
            if table_admitted(&self.tables, ev.table_id) {
                match h.push(ev) {
                    PushOutcome::Admitted => {
                        stalls = 0;
                    },
                    PushOutcome::AtCapacity(e) => {
                        self.pending.insert(0, e);
                        proof {
                            assert(self.pending@ =~= before);
                        }
                        if stalls >= STALL_GRACE {
                            proof {
                                // the stalled event is an admitted one out
                                // of the original stream, so a filter that
                                // rejected everything is contradicted
                                let k = pend0.len() - before.len();
                                assert(before == pend0.skip(k));
                                assert(ev == pend0[k]);
                                assert(admits(old(self).tables, pend0[k].table_id));
                            }
                            return Err(ConnectorError::ConnectionFailure);
                        }
                        stalls = stalls + 1;
                    },
                    PushOutcome::Closed(e) => {
                        self.pending.insert(0, e);
                        proof {
                            assert(self.pending@ =~= before);
                        }
                        return Ok(());
                    },
                }
            } else {
                stalls = 0;
            }
        }
        Ok(())
    }

    /// Request shutdown of an in-flight `run_loop`: clear the connector's
    /// own stop signal.  Idempotent, non-blocking, safe at any time.
    pub fn request_stop(&self) {
        self.control.set(false);
    }
}

} // verus!
