//! The ingestion buffer: the single point of convergence for all
//! per-connector change streams.
//!
//! `Ingestor` is the sequential heart of the buffer.  It keeps a bounded
//! FIFO queue of change events, a schema registry, a closed flag, and the
//! ghost history of every event ever admitted.  The multi-writer guard that
//! lets independent connector threads share one `Ingestor` lives in
//! [`crate::shared`]; blocking backpressure is applied there, so `push`
//! here asks its caller to have room or a closed buffer.

use vstd::prelude::*;

use crate::errors::ConnectorError;
use crate::types::{ChangeEvent, Schema, distinct_tables, has_table, schema_of};

verus! {

/// The events of `s` that connector `cid` emitted, in stream order.
pub open spec fn stream_of(s: Seq<ChangeEvent>, cid: u32) -> Seq<ChangeEvent>
    decreases s.len(),
{
    if s.len() == 0 {
        Seq::empty()
    } else if s.last().connector_id == cid {
        stream_of(s.drop_last(), cid).push(s.last())
    } else {
        stream_of(s.drop_last(), cid)
    }
}

/// Per-connector streams distribute over concatenation: however two blocks
/// of admissions interleave at the block boundary, each connector's own
/// subsequence is the concatenation of its subsequences of the blocks.
pub proof fn lemma_stream_of_concat(a: Seq<ChangeEvent>, b: Seq<ChangeEvent>, cid: u32)
    ensures
        stream_of(a + b, cid) == stream_of(a, cid) + stream_of(b, cid),
    decreases b.len(),
{
    if b.len() == 0 {
        assert(a + b =~= a);
        assert(stream_of(b, cid) =~= Seq::empty());
        assert(stream_of(a, cid) + stream_of(b, cid) =~= stream_of(a, cid));
    } else {
        lemma_stream_of_concat(a, b.drop_last(), cid);
        assert((a + b).drop_last() =~= a + b.drop_last());
        assert((a + b).last() == b.last());
        if b.last().connector_id == cid {
            assert(stream_of(a, cid) + stream_of(b, cid) =~= (stream_of(a, cid) + stream_of(
                b.drop_last(),
                cid,
            )).push(b.last()));
        }
    }
}

/// One admission extends exactly its own connector's stream, in order,
/// and leaves every other connector's stream untouched: this is what one
/// interleaved `push` does to the admission history, so concurrent
/// writers can never corrupt or reorder each other.
pub proof fn lemma_push_extends_one_stream(
    pre: Seq<ChangeEvent>,
    post: Seq<ChangeEvent>,
    ev: ChangeEvent,
)
    requires
        post == pre.push(ev),
    ensures
        stream_of(post, ev.connector_id) == stream_of(pre, ev.connector_id).push(ev),
        forall|cid: u32|
            cid != ev.connector_id ==> #[trigger] stream_of(post, cid) == stream_of(pre, cid),
{
    assert(post.drop_last() =~= pre);
    assert(post.last() == ev);
}

/// The shared, concurrently-writable sink that normalizes events from all
/// connectors into one stream for a single downstream consumer.
pub struct Ingestor {
    queue: Vec<ChangeEvent>,
    capacity: usize,
    closed: bool,
    schemas: Vec<(String, Schema)>,
    history: Ghost<Seq<ChangeEvent>>,
}

impl Ingestor {
    /// Everything ever admitted by a successful `push`, in admission order.
    pub closed spec fn admitted(&self) -> Seq<ChangeEvent> {
        self.history@
    }

    /// The events admitted but not yet drained, oldest first.
    pub closed spec fn buffered(&self) -> Seq<ChangeEvent> {
        self.queue@
    }

    /// The events already handed to the consumer, in hand-off order.
    pub open spec fn delivered(&self) -> Seq<ChangeEvent> {
        self.admitted().take(self.admitted().len() - self.buffered().len())
    }

    /// The registered (table name, schema) pairs, in registration order.
    pub closed spec fn registry(&self) -> Seq<(String, Schema)> {
        self.schemas@
    }

    /// The admission-control bound: `buffered` never grows past it.
    pub closed spec fn cap(&self) -> nat {
        self.capacity as nat
    }

    /// Whether the buffer has been torn down for this run.
    pub closed spec fn is_closed(&self) -> bool {
        self.closed
    }

    /// Well-formedness: the queue is the undrained suffix of the admission
    /// history, it respects the capacity bound, and registered table names
    /// are distinct.
    pub closed spec fn wf(&self) -> bool {
        &&& self.capacity >= 1
        &&& self.queue@.len() <= self.capacity
        &&& self.queue@.len() <= self.history@.len()
        &&& self.queue@ == self.history@.skip(self.history@.len() - self.queue@.len())
        &&& distinct_tables(self.schemas@)
    }

    /// Whether a push would find the queue at capacity.
    pub fn is_full(&self) -> (r: bool)
        ensures
            r == (self.buffered().len() >= self.cap()),
    {
        self.queue.len() >= self.capacity
    }

    /// Whether the buffer has been closed.
    pub fn closed(&self) -> (r: bool)
        ensures
            r == self.is_closed(),
    {
        self.closed
    }

    /// A fresh, open, empty buffer admitting at most `capacity` undrained
    /// events at a time.
    pub fn new(capacity: usize) -> (s: Self)
        requires
            capacity >= 1,
        ensures
            s.wf(),
            !s.is_closed(),
            s.cap() == capacity,
            s.admitted() == Seq::<ChangeEvent>::empty(),
            s.buffered() == Seq::<ChangeEvent>::empty(),
            s.registry() == Seq::<(String, Schema)>::empty(),
    {
        let s = Ingestor {
            queue: Vec::new(),
            capacity,
            closed: false,
            schemas: Vec::new(),
            history: Ghost(Seq::empty()),
        };
        proof {
            assert(s.queue@ =~= s.history@.skip(0));
        }
        s
    }

    /// Admit one event.  Fails exactly when the buffer has been closed; on
    /// an open buffer with room the event is appended to the queue and to
    /// the admission history, and nothing else changes.
    pub fn push(&mut self, ev: ChangeEvent) -> (r: Result<(), ConnectorError>)
        requires
            old(self).wf(),
            old(self).is_closed() || old(self).buffered().len() < old(self).cap(),
        ensures
            final(self).wf(),
            old(self).is_closed() ==> r == Err::<(), ConnectorError>(ConnectorError::BufferClosed)
                && *final(self) == *old(self),
            !old(self).is_closed() ==> {
                &&& r == Ok::<(), ConnectorError>(())
                &&& final(self).admitted() == old(self).admitted().push(ev)
                &&& final(self).buffered() == old(self).buffered().push(ev)
                &&& final(self).registry() == old(self).registry()
                &&& final(self).cap() == old(self).cap()
                &&& !final(self).is_closed()
            },
    {
        if self.closed {
            return Err(ConnectorError::BufferClosed);
        }
        self.queue.push(ev);
        proof {
            self.history@ = self.history@.push(ev);
            assert(self.queue@ =~= self.history@.skip(
                self.history@.len() - self.queue@.len(),
            ));
        }
        Ok(())
    }

    /// Hand the oldest undrained event to the consumer, if any.  The
    /// admission history, registry, capacity and closed flag are untouched,
    /// so no admitted event is ever lost: it is either still buffered or
    /// already delivered.
    pub fn drain_next(&mut self) -> (r: Option<ChangeEvent>)
        requires
            old(self).wf(),
        ensures
            final(self).wf(),
            final(self).admitted() == old(self).admitted(),
            final(self).registry() == old(self).registry(),
            final(self).cap() == old(self).cap(),
            final(self).is_closed() == old(self).is_closed(),
            old(self).buffered().len() == 0 ==> r is None && final(self).buffered()
                == old(self).buffered(),
            old(self).buffered().len() > 0 ==> r == Some(old(self).buffered()[0])
                && final(self).buffered() == old(self).buffered().skip(1),
    {
        if self.queue.len() == 0 {
            return None;
        }
        let ev = self.queue.remove(0);
        proof {
            assert(self.queue@ =~= old(self).queue@.skip(1));
            assert(self.queue@ =~= self.history@.skip(
                self.history@.len() - self.queue@.len(),
            ));
        }
        Some(ev)
    }

    /// Close the buffer: later pushes fail with `BufferClosed`; already
    /// admitted events stay drainable.  Closing twice is harmless.
    pub fn close(&mut self)
        requires
            old(self).wf(),
        ensures
            final(self).wf(),
            final(self).is_closed(),
            final(self).admitted() == old(self).admitted(),
            final(self).buffered() == old(self).buffered(),
            final(self).registry() == old(self).registry(),
            final(self).cap() == old(self).cap(),
    {
        self.closed = true;
    }

    /// Register a table's schema the first time a connector reports it.  A
    /// name already present keeps its first registration; a new name is
    /// appended.  Registration never touches the event queue.
    pub fn register_schema(&mut self, name: String, schema: Schema)
        requires
            old(self).wf(),
        ensures
            final(self).wf(),
            final(self).admitted() == old(self).admitted(),
            final(self).buffered() == old(self).buffered(),
            final(self).cap() == old(self).cap(),
            final(self).is_closed() == old(self).is_closed(),
            has_table(old(self).registry(), name@) ==> final(self).registry()
                == old(self).registry(),
            !has_table(old(self).registry(), name@) ==> final(self).registry()
                == old(self).registry().push((name, schema)),
    {
        let n = self.schemas.len();
        let mut i: usize = 0;
        while i < n
            invariant
                old(self).wf(),
                *self == *old(self),
                n == self.schemas@.len(),
                0 <= i <= n,
                forall|j: int| 0 <= j < i ==> self.schemas@[j].0@ != name@,
            decreases n - i,
        {
            if self.schemas[i].0 == name {
                proof {
                    assert(self.schemas@[i as int].0@ == name@);
                }
                return ;
            }
            i += 1;
        }
        self.schemas.push((name, schema));
    }

    /// Look a schema up by table name.  Returns the registered schema
    /// exactly when the name was registered.
    pub fn get_schema<'a>(&'a self, name: &String) -> (r: Option<&'a Schema>)
        requires
            self.wf(),
        ensures
            r is Some <==> has_table(self.registry(), name@),
            r matches Some(s) ==> *s == schema_of(self.registry(), name@),
    {
        let n = self.schemas.len();
        let mut i: usize = 0;
        while i < n
            invariant
                self.wf(),
                n == self.schemas@.len(),
                0 <= i <= n,
                forall|j: int| 0 <= j < i ==> self.schemas@[j].0@ != name@,
            decreases n - i,
        {
            if self.schemas[i].0 == *name {
                proof {
                    crate::types::lemma_schema_of_unique(self.schemas@, name@, i as int);
                }
                return Some(&self.schemas[i].1);
            }
            i += 1;
        }
        None
    }

    /// No admitted event is ever silently dropped: the admission history is
    /// exactly what was delivered followed by what is still buffered.
    pub proof fn lemma_no_event_lost(&self)
        requires
            self.wf(),
        ensures
            self.admitted() == self.delivered() + self.buffered(),
    {
        assert(self.admitted() =~= self.delivered() + self.buffered());
    }

    /// Interleaving safety: however a block of concurrent admissions `evs`
    /// is interleaved after a prefix history, each connector's own
    /// subsequence of the final history is its subsequence of the prefix
    /// followed by its subsequence of the block, in order — no event is
    /// lost and no connector's stream is reordered.
    pub proof fn lemma_streams_preserved(pre: Seq<ChangeEvent>, evs: Seq<ChangeEvent>)
        ensures
            forall|cid: u32| #[trigger] stream_of(pre + evs, cid) == stream_of(pre, cid)
                + stream_of(evs, cid),
    {
        assert forall|cid: u32| #[trigger] stream_of(pre + evs, cid) == stream_of(pre, cid)
            + stream_of(evs, cid) by {
            lemma_stream_of_concat(pre, evs, cid);
        }
    }
}

} // verus!
