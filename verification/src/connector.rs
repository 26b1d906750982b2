//! The polymorphic connector contract every source family satisfies, and
//! the specification of schema discovery shared by all implementations.

use vstd::prelude::*;

use crate::errors::ConnectorError;
use crate::shared::{SharedFlag, SharedIngestor};
use crate::types::{ChangeEvent, Schema, has_table, schema_of};

verus! {

/// A lightweight table descriptor, as returned by `get_tables`.  `id` is
/// source-local, not globally unique.  `columns` of `None` means "all
/// columns"; an empty list means the table has no addressable columns,
/// which is distinct from "filter not applied".
#[derive(Clone, Debug, PartialEq)]
pub struct TableInfo {
    pub name: String,
    pub id: u32,
    pub columns: Option<Vec<String>>,
}

/// Whether the table filter bound at `initialize` admits events of table
/// `table_id`; no filter admits everything.
pub open spec fn admits(tables: Option<Vec<TableInfo>>, table_id: u32) -> bool {
    match tables {
        None => true,
        Some(ts) => exists|i: int| 0 <= i < ts@.len() && (#[trigger] ts@[i]).id == table_id,
    }
}

/// Whether the bound table filter refuses every event of the pending
/// stream: then a start loop has nothing it may forward, so nothing
/// shared — no buffer, no flag — can decide its outcome.
pub open spec fn filter_rejects_all(
    tables: Option<Vec<TableInfo>>,
    pending: Seq<ChangeEvent>,
) -> bool {
    forall|i: int| 0 <= i < pending.len() ==> !admits(tables, (#[trigger] pending[i]).table_id)
}

/// Whether `post` is what is left of a pending stream `pre` after a
/// connector's start loop consumed some prefix of it: events leave the
/// stream only from the front, so per-connector emission order is never
/// reordered and nothing in the middle is skipped over.
pub open spec fn consumed_in_order(pre: Seq<ChangeEvent>, post: Seq<ChangeEvent>) -> bool {
    exists|k: int| 0 <= k <= pre.len() && post == pre.skip(k)
}

/// Whether catalog `catalog` exposes every name requested in `names`.
pub open spec fn all_present(catalog: Seq<(String, Schema)>, names: Seq<String>) -> bool {
    forall|i: int| 0 <= i < names.len() ==> has_table(catalog, #[trigger] names[i]@)
}

/// The full contract of `get_schemas`: all-or-nothing discovery.  Without
/// a filter it succeeds with the whole catalog in catalog order.  With a
/// filter it succeeds if and only if every requested table exists, and
/// then returns exactly the requested names in request order, each paired
/// with the schema the catalog exposes for it; otherwise it fails with a
/// schema-class error naming the first missing requested name, and
/// returns no partial result.
pub open spec fn discovery_post(
    catalog: Seq<(String, Schema)>,
    table_names: Option<Vec<String>>,
    r: Result<Vec<(String, Schema)>, ConnectorError>,
) -> bool {
    match r {
        Ok(out) => match table_names {
            None => {
                &&& out@.len() == catalog.len()
                &&& forall|i: int|
                    0 <= i < out@.len() ==> #[trigger] out@[i].0@ == catalog[i].0@ && out@[i].1@
                        == catalog[i].1@
            },
            Some(names) => {
                &&& all_present(catalog, names@)
                &&& out@.len() == names@.len()
                &&& forall|i: int|
                    0 <= i < out@.len() ==> #[trigger] out@[i].0@ == names@[i]@ && out@[i].1@
                        == schema_of(catalog, names@[i]@)@
            },
        },
        Err(e) => match table_names {
            None => false,
            Some(names) => exists|i: int|
                {
                    &&& 0 <= i < names@.len()
                    &&& !has_table(catalog, (#[trigger] names@[i])@)
                    &&& (forall|j: int| 0 <= j < i ==> has_table(catalog, names@[j]@))
                    &&& e matches ConnectorError::SchemaNotFound(m) && m@ == names@[i]@
                },
        },
    }
}

/// What `get_tables` returns: one descriptor per catalog entry, in catalog
/// order, with the source-local id equal to the catalog position and no
/// column filter applied.
pub open spec fn enumeration_ok(catalog: Seq<(String, Schema)>, out: Seq<TableInfo>) -> bool {
    &&& out.len() == catalog.len()
    &&& forall|i: int|
        0 <= i < out.len() ==> #[trigger] out[i].name@ == catalog[i].0@ && out[i].id == i && out[
            i
        ].columns is None
}

/// The connector contract.  One implementation exists per source family;
/// each owns its protocol-specific state behind this surface.
///
/// The lifecycle every implementation honors: construction by the factory
/// (pure and local), then `initialize` exactly once to bind the shared
/// buffer and the table filter, then one blocking `start` that pushes
/// change events until its running flag clears, the buffer closes, or the
/// source stream ends; `stop` may be called at any time, repeatedly, and
/// only requests shutdown.  `get_schemas`, `get_tables` and
/// `test_connection` are cheap, synchronous, and callable before
/// `initialize`.
pub trait Connector: Sized {
    /// The small integer kind tag of the source family, stable per family;
    /// used for log correlation, never for dispatch.
    spec fn tag(&self) -> u32;

    /// The discovery catalog the source exposes: (table name, schema)
    /// pairs in source order, distinct by name.
    spec fn catalog(&self) -> Seq<(String, Schema)>;

    /// Whether the cheap reachability/credential check would pass.
    spec fn reachable(&self) -> bool;

    /// Whether `initialize` has completed on this connector.
    spec fn initialized(&self) -> bool;

    /// The decoded change events waiting to enter the buffer, in
    /// source-emission order, every one tagged with this connector's id.
    spec fn pending(&self) -> Seq<ChangeEvent>;

    /// The table filter bound by `initialize`: `None` admits every
    /// discovered table (and is what an unbound connector holds), a list
    /// restricts the change stream to the tables it names.
    spec fn table_filter(&self) -> Option<Vec<TableInfo>>;

    /// Internal consistency, established by construction and preserved by
    /// every operation.
    spec fn wf(&self) -> bool;

    /// Schema discovery, all-or-nothing; callable before `initialize` and
    /// free of connector-state mutation.
    fn get_schemas(&self, table_names: Option<Vec<String>>) -> (r: Result<
        Vec<(String, Schema)>,
        ConnectorError,
    >)
        requires
            self.wf(),
        ensures
            discovery_post(self.catalog(), table_names, r),
    ;

    /// Lightweight table enumeration without full schema resolution.
    fn get_tables(&self) -> (r: Result<Vec<TableInfo>, ConnectorError>)
        requires
            self.wf(),
        ensures
            r matches Ok(out) && enumeration_ok(self.catalog(), out@),
    ;

    /// A cheap reachability/credential check; never starts ingestion and
    /// never mutates connector state.
    fn test_connection(&self) -> (r: Result<(), ConnectorError>)
        requires
            self.wf(),
        ensures
            r is Ok <==> self.reachable(),
            r matches Err(e) ==> e == ConnectorError::ConnectionFailure,
    ;

    /// Bind the connector to the shared buffer and restrict its change
    /// stream to `tables` (or all discovered tables if `None`).  Must be
    /// called exactly once before `start`; a second call is a
    /// defect-class error and changes nothing.
    fn initialize(&mut self, ingestor: SharedIngestor, tables: Option<Vec<TableInfo>>) -> (r:
        Result<(), ConnectorError>)
        requires
            old(self).wf(),
        ensures
            final(self).wf(),
            final(self).tag() == old(self).tag(),
            final(self).catalog() == old(self).catalog(),
            final(self).reachable() == old(self).reachable(),
            final(self).pending() == old(self).pending(),
            old(self).initialized() ==> r == Err::<(), ConnectorError>(
                ConnectorError::LifecycleMisuse,
            ) && final(self).initialized() && final(self).table_filter() == old(
                self,
            ).table_filter(),
            !old(self).initialized() && !old(self).reachable() ==> r == Err::<(), ConnectorError>(
                ConnectorError::InvalidConfiguration,
            ) && !final(self).initialized() && final(self).table_filter() == old(
                self,
            ).table_filter(),
            !old(self).initialized() && old(self).reachable() ==> r == Ok::<(), ConnectorError>(())
                && final(self).initialized() && final(self).table_filter() == tables,
    ;

    /// The blocking ingestion loop: forward pending decoded changes into
    /// the bound buffer, in source order, polling `running` (and the
    /// connector's own stop signal) between events.  It returns within a
    /// bounded number of steps: when the flag clears, when the buffer is
    /// closed, when the stream is exhausted — all clean shutdowns — or
    /// with a connectivity error when pushes stall past the connector's
    /// grace bound.  Only a stalled push can fail it: an empty pending
    /// stream, or one the bound filter wholly refuses, is owed `Ok`, and
    /// an error always leaves something unconsumed.  Whatever the path,
    /// what was consumed is a prefix of the pending stream, so
    /// per-connector emission order is preserved.
    fn start(&mut self, running: &SharedFlag) -> (r: Result<(), ConnectorError>)
        requires
            old(self).wf(),
        ensures
            final(self).wf(),
            final(self).tag() == old(self).tag(),
            final(self).catalog() == old(self).catalog(),
            final(self).reachable() == old(self).reachable(),
            final(self).initialized() == old(self).initialized(),
            final(self).table_filter() == old(self).table_filter(),
            !old(self).initialized() ==> r == Err::<(), ConnectorError>(
                ConnectorError::LifecycleMisuse,
            ) && final(self).pending() == old(self).pending(),
            old(self).initialized() ==> (r is Ok || r == Err::<(), ConnectorError>(
                ConnectorError::ConnectionFailure,
            )) && consumed_in_order(old(self).pending(), final(self).pending()),
            old(self).initialized() && old(self).pending().len() == 0 ==> r is Ok,
            old(self).initialized() && filter_rejects_all(
                old(self).table_filter(),
                old(self).pending(),
            ) ==> r is Ok,
            old(self).initialized() && r is Err ==> final(self).pending().len() > 0,
    ;

    /// Request shutdown: clear the connector's own stop signal.  Does not
    /// block, never fails, and is idempotent — safe to call before
    /// `start`, concurrently with an in-flight `start`, and repeatedly.
    fn stop(&self)
        requires
            self.wf(),
    ;
}

} // verus!
