//! Passive value types shared by every connector: source configurations,
//! schema descriptors and normalized change events.

use vstd::prelude::*;

verus! {

/// The scalar type a connector reports for one column.
#[derive(Clone, Copy, Debug, PartialEq, Eq, Structural)]
pub enum FieldType {
    Int,
    UInt,
    Text,
    Boolean,
    Binary,
    Timestamp,
}

/// One column of a discovered table.
#[derive(Debug, PartialEq)]
pub struct FieldDefinition {
    pub name: String,
    pub typ: FieldType,
    pub nullable: bool,
}

impl Clone for FieldDefinition {
    fn clone(&self) -> (r: Self)
        ensures
            r == *self,
    {
        FieldDefinition { name: self.name.clone(), typ: self.typ, nullable: self.nullable }
    }
}

/// The normalized column description of one table, as produced by schema
/// discovery.  Owned by the connector until returned, then by the caller.
#[derive(Debug, PartialEq)]
pub struct Schema {
    pub fields: Vec<FieldDefinition>,
}

impl View for Schema {
    type V = Seq<FieldDefinition>;

    open spec fn view(&self) -> Seq<FieldDefinition> {
        self.fields@
    }
}

impl Clone for Schema {
    fn clone(&self) -> (r: Self)
        ensures
            r@ == self@,
    {
        let mut fields: Vec<FieldDefinition> = Vec::new();
        let n = self.fields.len();
        let mut i: usize = 0;
        while i < n
            invariant
                n == self.fields@.len(),
                0 <= i <= n,
                fields@ == self.fields@.take(i as int),
            decreases n - i,
        {
            fields.push(self.fields[i].clone());
            proof {
                assert(fields@ =~= self.fields@.take(i as int + 1));
            }
            i += 1;
        }
        proof {
            assert(fields@ =~= self.fields@);
        }
        Schema { fields }
    }
}

/// One cell of a row payload.
#[derive(Clone, Debug, PartialEq)]
pub enum Value {
    Null,
    Int(i64),
    UInt(u64),
    Text(String),
    Boolean(bool),
}

/// The operation kind of one row-level mutation.
#[derive(Clone, Debug, PartialEq)]
pub enum Operation {
    Insert { row: Vec<Value> },
    Update { row_before: Vec<Value>, row_after: Vec<Value> },
    Delete { row: Vec<Value> },
}

/// One normalized row-level change, as pushed into the ingestion buffer.
/// `seq_no` is minted by the emitting connector and increases monotonically
/// within that connector's own stream; no order is imposed across connectors.
#[derive(Clone, Debug, PartialEq)]
pub struct ChangeEvent {
    pub connector_id: u32,
    pub table_id: u32,
    pub seq_no: u64,
    pub op: Operation,
}

/// An event filter for a chain-log subscription.
#[derive(Clone, Debug, PartialEq)]
pub struct EthFilter {
    pub from_block: u64,
    pub addresses: Vec<String>,
    pub topics: Vec<String>,
}

/// The credentials of one source family.  Exactly one variant is active per
/// [`Connection`]; a new source family adds a variant here and one factory
/// arm, nothing else.
#[derive(Clone, Debug)]
pub enum Authentication {
    PostgresAuthentication {
        user: String,
        password: String,
        host: String,
        port: u16,
        database: String,
    },
    EthereumAuthentication {
        filter: Option<EthFilter>,
        wss_url: String,
    },
    Events,
    SnowflakeAuthentication {
        server: String,
        port: String,
        user: String,
        password: String,
        database: String,
        schema: String,
        warehouse: String,
        driver: Option<String>,
    },
}

/// A named source configuration; immutable once constructed and consumed
/// exactly once by the connector factory.
#[derive(Clone, Debug)]
pub struct Connection {
    pub name: String,
    pub authentication: Authentication,
}

/// Whether the catalog `s` exposes a table called `name`.
pub open spec fn has_table(s: Seq<(String, Schema)>, name: Seq<char>) -> bool {
    exists|j: int| 0 <= j < s.len() && s[j].0@ == name
}

/// Whether every table name in `s` occurs only once.
pub open spec fn distinct_tables(s: Seq<(String, Schema)>) -> bool {
    forall|j: int, k: int| 0 <= j < k < s.len() ==> s[j].0@ != s[k].0@
}

/// The schema that catalog `s` exposes under `name`; meaningful only when
/// `has_table(s, name)` holds and the catalog's names are distinct.
pub open spec fn schema_of(s: Seq<(String, Schema)>, name: Seq<char>) -> Schema {
    s[choose|j: int| 0 <= j < s.len() && s[j].0@ == name].1
}

/// In a catalog with distinct names, any entry whose name matches carries
/// exactly the schema `schema_of` denotes.
pub proof fn lemma_schema_of_unique(s: Seq<(String, Schema)>, name: Seq<char>, j: int)
    requires
        distinct_tables(s),
        0 <= j < s.len(),
        s[j].0@ == name,
    ensures
        schema_of(s, name) == s[j].1,
        has_table(s, name),
{
    assert(has_table(s, name));
    let k = choose|k: int| 0 <= k < s.len() && s[k].0@ == name;
    if k < j {
        assert(s[k].0@ != s[j].0@);
    } else if j < k {
        assert(s[j].0@ != s[k].0@);
    }
}

} // verus!
