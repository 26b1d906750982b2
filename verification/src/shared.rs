//! Shared-ownership handles: the multi-writer guard around the ingestion
//! buffer and the cooperative running flag.
//!
//! Both are reference-counted handles around a verified reader-writer lock,
//! so any number of connector threads can hold one.  The lock invariant of
//! the buffer guarantees that every state a writer or reader ever observes
//! is a well-formed [`Ingestor`]; the exact functional contracts live on
//! the sequential [`Ingestor`] operations that run under the lock.

use vstd::prelude::*;

use std::sync::Arc;
use vstd::rwlock::{RwLock, RwLockPredicate};

use crate::ingestor::Ingestor;
use crate::types::{ChangeEvent, Schema};

verus! {

/// The lock invariant of the shared buffer: every state the lock holds is
/// a well-formed `Ingestor`.
pub struct BufferPred {}

impl RwLockPredicate<Ingestor> for BufferPred {
    open spec fn inv(self, v: Ingestor) -> bool {
        v.wf()
    }
}

/// The trivial lock invariant of the running flag.
pub struct FlagPred {}

impl RwLockPredicate<bool> for FlagPred {
    open spec fn inv(self, v: bool) -> bool {
        true
    }
}

/// What one admission attempt did.  A refused event comes back to its
/// caller, so no event is ever dropped silently.
pub enum PushOutcome {
    /// The event was appended to the buffer.
    Admitted,
    /// The buffer is at capacity; the event comes back and the caller must
    /// retry — backpressure, not discard.
    AtCapacity(ChangeEvent),
    /// The buffer has been closed; the event comes back and the caller
    /// must treat this as the signal to stop cleanly.
    Closed(ChangeEvent),
}

/// A shared-ownership handle to the one ingestion buffer of a pipeline run.
/// Every connector the coordinator starts holds one; writers are
/// serialized against each other and against the single draining consumer
/// by the internal lock.  Because the lock is shared, per-call contracts
/// here only fix the error surface; what each operation does to the buffer
/// state is the contract of the corresponding [`Ingestor`] operation.
pub struct SharedIngestor {
    inner: Arc<RwLock<Ingestor, BufferPred>>,
}

impl SharedIngestor {
    /// A fresh, open buffer admitting at most `capacity` undrained events.
    pub fn new(capacity: usize) -> (s: Self)
        requires
            capacity >= 1,
    {
        let ing = Ingestor::new(capacity);
        SharedIngestor { inner: Arc::new(RwLock::new(ing, Ghost(BufferPred {}))) }
    }

    /// One more handle to the same buffer, for one more connector.
    pub fn handle(&self) -> (s: Self) {
        SharedIngestor { inner: self.inner.clone() }
    }

    /// One admission attempt.  Backpressure is blocking, never discard: a
    /// refused event is handed back in `AtCapacity`, and the caller's own
    /// bounded retry loop — a connector's start loop, which re-polls its
    /// running flag between attempts — supplies the blocking, since every
    /// loop in this library is bounded.  `Closed` is the only failure: the
    /// buffer was torn down, and the connector must stop cleanly.
    pub fn push(&self, ev: ChangeEvent) -> (r: PushOutcome)
        ensures
            r matches PushOutcome::AtCapacity(e) ==> e == ev,
            r matches PushOutcome::Closed(e) ==> e == ev,
    {
        let (mut ing, wh) = self.inner.acquire_write();
        if ing.closed() {
            wh.release_write(ing);
            return PushOutcome::Closed(ev);
        }
        if ing.is_full() {
            wh.release_write(ing);
            return PushOutcome::AtCapacity(ev);
        }
        let _admitted = ing.push(ev);
        wh.release_write(ing);
        PushOutcome::Admitted
    }

    /// Hand the oldest undrained event to the single consumer, if any.
    pub fn drain_next(&self) -> (r: Option<ChangeEvent>) {
        let (mut ing, wh) = self.inner.acquire_write();
        let r = ing.drain_next();
        wh.release_write(ing);
        r
    }

    /// Close the buffer: all later pushes fail with `BufferClosed`.
    /// Idempotent; already admitted events stay drainable.
    pub fn close(&self) {
        let (mut ing, wh) = self.inner.acquire_write();
        ing.close();
        wh.release_write(ing);
    }

    /// Register a table's schema the first time a connector reports it; a
    /// name registered earlier keeps its first schema.
    pub fn register_schema(&self, name: String, schema: Schema) {
        let (mut ing, wh) = self.inner.acquire_write();
        ing.register_schema(name, schema);
        wh.release_write(ing);
    }

    /// Query the schema registry by table name, as the downstream consumer
    /// does; `None` exactly when no connector has registered the name at
    /// the time of the lookup.
    pub fn get_schema(&self, name: &String) -> (r: Option<Schema>) {
        let read_handle = self.inner.acquire_read();
        let ing = read_handle.borrow();
        let r = match ing.get_schema(name) {
            Some(s) => Some(s.clone()),
            None => None,
        };
        read_handle.release_read();
        r
    }
}

/// The shared cooperative-cancellation flag between the lifecycle
/// coordinator and a connector's blocking `start` loop.  Single-writer
/// policy: the coordinator writes, the connector only reads; a connector
/// seeing `false` must leave its start loop within its poll bound.
pub struct SharedFlag {
    inner: Arc<RwLock<bool, FlagPred>>,
}

impl SharedFlag {
    /// A fresh flag holding `initial`.
    pub fn new(initial: bool) -> (s: Self) {
        SharedFlag { inner: Arc::new(RwLock::new(initial, Ghost(FlagPred {}))) }
    }

    /// One more handle to the same flag.
    pub fn handle(&self) -> (s: Self) {
        SharedFlag { inner: self.inner.clone() }
    }

    /// Overwrite the flag.  Coordinator-only under the single-writer
    /// policy.
    pub fn set(&self, v: bool) {
        let (_prev, wh) = self.inner.acquire_write();
        wh.release_write(v);
    }

    /// Read the flag.  The value is whatever the coordinator last stored;
    /// a concurrent writer may change it at any time, so nothing more can
    /// be promised of the result.
    pub fn get(&self) -> (r: bool) {
        let read_handle = self.inner.acquire_read();
        let r = *read_handle.borrow();
        read_handle.release_read();
        r
    }
}

} // verus!
