//! The lifecycle coordinator: the per-connector state machine
//! `Built → Initialized → Running → Stopping → Stopped` and the registry
//! that drives every configured connector's lifecycle independently.
//!
//! The coordinator owns each connector's running flag; the spawned thread
//! that blocks inside `start` only reads it.  One connector's failure
//! never leaves the states of its siblings.

use vstd::prelude::*;

use crate::errors::ConnectorError;
use crate::shared::SharedFlag;

verus! {

/// The lifecycle state of one managed connector.
#[derive(Clone, Copy, Debug, PartialEq, Eq, Structural)]
pub enum Phase {
    /// Constructed by the factory, not yet bound to a buffer.
    Built,
    /// Bound to the buffer and the table filter.
    Initialized,
    /// A dedicated thread is blocking inside `start`.
    Running,
    /// Shutdown signalled or `start` has returned; awaiting the join.
    Stopping,
    /// The thread has been joined (or given up on after the bounded join
    /// timeout, a fatal condition that is recorded, not ignored).
    Stopped,
}

/// One observed lifecycle occurrence, fed to the state machine.
#[derive(Clone, Copy, Debug, PartialEq, Eq, Structural)]
pub enum LifecycleEvent {
    /// `initialize` returned `Ok`.
    InitializeOk,
    /// `initialize` failed; the connector stays `Built`, reported and
    /// never retried.
    InitializeFailed,
    /// The dedicated thread invoking `start` was spawned, with a fresh
    /// running flag set to true.
    Spawned,
    /// An external shutdown request cleared the flag and/or called
    /// `stop`.
    StopRequested,
    /// The connector's `start` returned cleanly.
    StartReturned,
    /// The connector's `start` returned early with an error.
    StartFailed,
    /// The spawned thread was joined within the bounded timeout.
    Joined,
    /// The bounded join timeout elapsed: fatal for this connector,
    /// surfaced and recorded.
    JoinTimedOut,
}

/// The transition relation of the per-connector lifecycle.  `None` marks
/// an invalid transition: defect-class misuse, not a recoverable runtime
/// condition.  Requesting a stop while already `Stopping` or `Stopped` is
/// valid and changes nothing, which is what makes `stop` idempotent.
pub open spec fn phase_step(p: Phase, e: LifecycleEvent) -> Option<Phase> {
    match (p, e) {
        (Phase::Built, LifecycleEvent::InitializeOk) => Some(Phase::Initialized),
        (Phase::Built, LifecycleEvent::InitializeFailed) => Some(Phase::Built),
        (Phase::Initialized, LifecycleEvent::Spawned) => Some(Phase::Running),
        (Phase::Running, LifecycleEvent::StopRequested) => Some(Phase::Stopping),
        (Phase::Running, LifecycleEvent::StartReturned) => Some(Phase::Stopping),
        (Phase::Running, LifecycleEvent::StartFailed) => Some(Phase::Stopping),
        (Phase::Stopping, LifecycleEvent::StopRequested) => Some(Phase::Stopping),
        (Phase::Stopping, LifecycleEvent::Joined) => Some(Phase::Stopped),
        (Phase::Stopping, LifecycleEvent::JoinTimedOut) => Some(Phase::Stopped),
        (Phase::Stopped, LifecycleEvent::StopRequested) => Some(Phase::Stopped),
        _ => None,
    }
}

/// Apply one lifecycle event to a phase: the next phase on a valid
/// transition, a defect-class error on an invalid one.
pub fn lifecycle_step(p: Phase, e: LifecycleEvent) -> (r: Result<Phase, ConnectorError>)
    ensures
        phase_step(p, e) matches Some(q) ==> r == Ok::<Phase, ConnectorError>(q),
        phase_step(p, e) is None ==> r == Err::<Phase, ConnectorError>(
            ConnectorError::LifecycleMisuse,
        ),
{
    match (p, e) {
        (Phase::Built, LifecycleEvent::InitializeOk) => Ok(Phase::Initialized),
        (Phase::Built, LifecycleEvent::InitializeFailed) => Ok(Phase::Built),
        (Phase::Initialized, LifecycleEvent::Spawned) => Ok(Phase::Running),
        (Phase::Running, LifecycleEvent::StopRequested) => Ok(Phase::Stopping),
        (Phase::Running, LifecycleEvent::StartReturned) => Ok(Phase::Stopping),
        (Phase::Running, LifecycleEvent::StartFailed) => Ok(Phase::Stopping),
        (Phase::Stopping, LifecycleEvent::StopRequested) => Ok(Phase::Stopping),
        (Phase::Stopping, LifecycleEvent::Joined) => Ok(Phase::Stopped),
        (Phase::Stopping, LifecycleEvent::JoinTimedOut) => Ok(Phase::Stopped),
        (Phase::Stopped, LifecycleEvent::StopRequested) => Ok(Phase::Stopped),
        _ => Err(ConnectorError::LifecycleMisuse),
    }
}

/// Once `Stopped`, no event leads anywhere but `Stopped`: a connector's
/// lifecycle never restarts within a run, so a late or repeated stop (or
/// any other straggler event) can never resurrect it.
pub proof fn lemma_stopped_is_terminal(e: LifecycleEvent)
    ensures
        phase_step(Phase::Stopped, e) matches Some(q) ==> q == Phase::Stopped,
{
}

/// Requesting a stop is idempotent at the state-machine level: wherever a
/// first `StopRequested` lands, a second one is valid and lands in the
/// same phase.
pub proof fn lemma_stop_idempotent(p: Phase)
    ensures
        phase_step(p, LifecycleEvent::StopRequested) matches Some(q) ==> phase_step(
            q,
            LifecycleEvent::StopRequested,
        ) == Some(q),
{
}

/// The coordinator's record of one connector: its phase, its running
/// flag, and the recorded failure reason once it stopped on an error.
pub struct ManagedConnector {
    /// Where the connector stands in its lifecycle.
    pub phase: Phase,
    /// The running flag its `start` loop polls; the coordinator is the
    /// single writer.
    pub flag: SharedFlag,
    /// The recorded failure reason, if the connector stopped on one.
    pub failure: Option<ConnectorError>,
}

/// The lifecycle coordinator: one entry per configured connector, each
/// driven independently.
pub struct LifecycleCoordinator {
    /// The managed connectors, in registration order.
    pub entries: Vec<ManagedConnector>,
}

impl LifecycleCoordinator {
    /// A coordinator managing no connectors yet.
    pub fn new() -> (s: Self)
        ensures
            s.entries@.len() == 0,
    {
        LifecycleCoordinator { entries: Vec::new() }
    }

    /// Register one connector: a fresh entry in `Built` with an armed
    /// running flag and no recorded failure.  Returns its index.
    pub fn add_connector(&mut self) -> (idx: usize)
        ensures
            idx == old(self).entries@.len(),
            final(self).entries@.len() == old(self).entries@.len() + 1,
            forall|i: int|
                0 <= i < old(self).entries@.len() ==> final(self).entries@[i] == old(
                    self,
                ).entries@[i],
            final(self).entries@[idx as int].phase == Phase::Built,
            final(self).entries@[idx as int].failure is None,
    {
        let idx = self.entries.len();
        self.entries.push(
            ManagedConnector { phase: Phase::Built, flag: SharedFlag::new(true), failure: None },
        );
        idx
    }

    /// A handle to the running flag of connector `i`, for the thread that
    /// will block inside its `start`.
    pub fn flag_of(&self, i: usize) -> (f: SharedFlag)
        requires
            i < self.entries@.len(),
    {
        self.entries[i].flag.handle()
    }

    /// Drive connector `i` one lifecycle step.  A valid transition moves
    /// only that entry's phase; an invalid one is a defect-class error
    /// and changes nothing.  Siblings are never touched.
    pub fn apply(&mut self, i: usize, e: LifecycleEvent) -> (r: Result<Phase, ConnectorError>)
        requires
            i < old(self).entries@.len(),
        ensures
            final(self).entries@.len() == old(self).entries@.len(),
            forall|j: int|
                0 <= j < old(self).entries@.len() && j != i ==> final(self).entries@[j] == old(
                    self,
                ).entries@[j],
            final(self).entries@[i as int].flag == old(self).entries@[i as int].flag,
            final(self).entries@[i as int].failure == old(self).entries@[i as int].failure,
            phase_step(old(self).entries@[i as int].phase, e) matches Some(q) ==> r == Ok::<
                Phase,
                ConnectorError,
            >(q) && final(self).entries@[i as int].phase == q,
            phase_step(old(self).entries@[i as int].phase, e) is None ==> r == Err::<
                Phase,
                ConnectorError,
            >(ConnectorError::LifecycleMisuse) && final(self).entries@[i as int].phase == old(
                self,
            ).entries@[i as int].phase,
    {
        let next = lifecycle_step(self.entries[i].phase, e);
        match next {
            Ok(q) => {
                self.entries[i].phase = q;
                Ok(q)
            },
            Err(err) => Err(err),
        }
    }

    /// Record that connector `i` stopped on a failure: its phase becomes
    /// `Stopped` with the reason kept, and no sibling is affected.
    pub fn record_failure(&mut self, i: usize, reason: ConnectorError)
        requires
            i < old(self).entries@.len(),
        ensures
            final(self).entries@.len() == old(self).entries@.len(),
            forall|j: int|
                0 <= j < old(self).entries@.len() && j != i ==> final(self).entries@[j] == old(
                    self,
                ).entries@[j],
            final(self).entries@[i as int].phase == Phase::Stopped,
            final(self).entries@[i as int].failure == Some(reason),
            final(self).entries@[i as int].flag == old(self).entries@[i as int].flag,
    {
        self.entries[i].phase = Phase::Stopped;
        self.entries[i].failure = Some(reason);
    }

    /// Aggregate shutdown: clear every connector's running flag first,
    /// then move every `Running` connector to `Stopping`; connectors in
    /// any other phase keep it.  The joins that follow, bounded by one
    /// uniform timeout, are reported back through `apply`.
    pub fn stop_all(&mut self)
        ensures
            final(self).entries@.len() == old(self).entries@.len(),
            forall|i: int|
                0 <= i < old(self).entries@.len() ==> (#[trigger] final(self).entries@[i]).flag
                    == old(self).entries@[i].flag && final(self).entries@[i].failure == old(
                    self,
                ).entries@[i].failure,
            forall|i: int|
                0 <= i < old(self).entries@.len() ==> (#[trigger] final(self).entries@[i]).phase
                    == (if old(self).entries@[i].phase == Phase::Running {
                        Phase::Stopping
                    } else {
                        old(self).entries@[i].phase
                    }),
    {
        let n = self.entries.len();
        let mut i: usize = 0;
        while i < n
            invariant
                n == self.entries@.len(),
                0 <= i <= n,
                *self == *old(self),
            decreases n - i,
        {
            self.entries[i].flag.set(false);
            i += 1;
        }
        let mut i: usize = 0;
        while i < n
            invariant
                n == self.entries@.len(),
                0 <= i <= n,
                self.entries@.len() == old(self).entries@.len(),
                forall|j: int|
                    i <= j < n ==> #[trigger] self.entries@[j] == old(self).entries@[j],
                forall|j: int|
                    0 <= j < i ==> (#[trigger] self.entries@[j]).flag == old(self).entries@[j].flag
                        && self.entries@[j].failure == old(self).entries@[j].failure,
                forall|j: int|
                    0 <= j < i ==> (#[trigger] self.entries@[j]).phase == (if old(
                        self,
                    ).entries@[j].phase == Phase::Running {
                        Phase::Stopping
                    } else {
                        old(self).entries@[j].phase
                    }),
            decreases n - i,
        {
            if matches!(self.entries[i].phase, Phase::Running) {
                self.entries[i].phase = Phase::Stopping;
            }
            i += 1;
        }
    }
}

} // verus!
