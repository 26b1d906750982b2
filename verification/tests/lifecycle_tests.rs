//! The lifecycle state machine and coordinator: valid transitions, misuse
//! detection, idempotent stop, and aggregate shutdown.

use dozer_ingestion::connector::Connector;
use dozer_ingestion::connectors::events::EventsConnector;
use dozer_ingestion::errors::ConnectorError;
use dozer_ingestion::lifecycle::{
    lifecycle_step, LifecycleCoordinator, LifecycleEvent, Phase,
};
use dozer_ingestion::shared::{SharedFlag, SharedIngestor};

#[test]
fn happy_path_walks_all_five_phases() {
    let p = lifecycle_step(Phase::Built, LifecycleEvent::InitializeOk).unwrap();
    assert_eq!(p, Phase::Initialized);
    let p = lifecycle_step(p, LifecycleEvent::Spawned).unwrap();
    assert_eq!(p, Phase::Running);
    let p = lifecycle_step(p, LifecycleEvent::StartReturned).unwrap();
    assert_eq!(p, Phase::Stopping);
    let p = lifecycle_step(p, LifecycleEvent::Joined).unwrap();
    assert_eq!(p, Phase::Stopped);
}

#[test]
fn initialize_failure_keeps_built_and_start_failure_stops() {
    assert_eq!(
        lifecycle_step(Phase::Built, LifecycleEvent::InitializeFailed).unwrap(),
        Phase::Built
    );
    assert_eq!(
        lifecycle_step(Phase::Running, LifecycleEvent::StartFailed).unwrap(),
        Phase::Stopping
    );
    assert_eq!(
        lifecycle_step(Phase::Stopping, LifecycleEvent::JoinTimedOut).unwrap(),
        Phase::Stopped
    );
}

#[test]
fn invalid_transitions_are_defects() {
    assert_eq!(
        lifecycle_step(Phase::Built, LifecycleEvent::Spawned),
        Err(ConnectorError::LifecycleMisuse)
    );
    assert_eq!(
        lifecycle_step(Phase::Initialized, LifecycleEvent::InitializeOk),
        Err(ConnectorError::LifecycleMisuse)
    );
    assert_eq!(
        lifecycle_step(Phase::Stopped, LifecycleEvent::Spawned),
        Err(ConnectorError::LifecycleMisuse)
    );
}

#[test]
fn stop_requested_is_idempotent_across_phases() {
    let once = lifecycle_step(Phase::Running, LifecycleEvent::StopRequested).unwrap();
    let twice = lifecycle_step(once, LifecycleEvent::StopRequested).unwrap();
    assert_eq!(once, twice);
    assert_eq!(
        lifecycle_step(Phase::Stopped, LifecycleEvent::StopRequested).unwrap(),
        Phase::Stopped
    );
}

#[test]
fn connector_stop_twice_and_before_start_never_panics() {
    let c = EventsConnector::new(3, "bus".to_string());
    // stop before start has ever run
    c.stop();
    c.stop();
    // a fresh connector still refuses start before initialize, cleanly
    let mut c = c;
    let flag = SharedFlag::new(true);
    assert_eq!(c.start(&flag), Err(ConnectorError::LifecycleMisuse));
    // and a stopped, initialized connector starts and returns cleanly
    let buffer = SharedIngestor::new(4);
    assert!(c.initialize(buffer, None).is_ok());
    c.stop();
    c.stop();
    assert!(c.start(&flag).is_ok());
}

#[test]
fn double_initialize_is_a_defect_and_changes_nothing() {
    let mut c = EventsConnector::new(3, "bus".to_string());
    let buffer = SharedIngestor::new(4);
    assert!(c.initialize(buffer.handle(), None).is_ok());
    assert_eq!(
        c.initialize(buffer, None),
        Err(ConnectorError::LifecycleMisuse)
    );
}

#[test]
fn coordinator_drives_each_connector_independently() {
    let mut coordinator = LifecycleCoordinator::new();
    let a = coordinator.add_connector();
    let b = coordinator.add_connector();
    assert_eq!(coordinator.apply(a, LifecycleEvent::InitializeOk), Ok(Phase::Initialized));
    assert_eq!(coordinator.apply(a, LifecycleEvent::Spawned), Ok(Phase::Running));
    assert_eq!(coordinator.apply(b, LifecycleEvent::InitializeOk), Ok(Phase::Initialized));
    // a failing sibling never moves the other connector's phase
    coordinator.record_failure(a, ConnectorError::ConnectionFailure);
    assert_eq!(coordinator.entries[a].phase, Phase::Stopped);
    assert_eq!(
        coordinator.entries[a].failure,
        Some(ConnectorError::ConnectionFailure)
    );
    assert_eq!(coordinator.entries[b].phase, Phase::Initialized);
    assert!(coordinator.entries[b].failure.is_none());
}

#[test]
fn stop_all_clears_flags_and_moves_only_running_connectors() {
    let mut coordinator = LifecycleCoordinator::new();
    let a = coordinator.add_connector();
    let b = coordinator.add_connector();
    let c = coordinator.add_connector();
    coordinator.apply(a, LifecycleEvent::InitializeOk).unwrap();
    coordinator.apply(a, LifecycleEvent::Spawned).unwrap();
    coordinator.apply(b, LifecycleEvent::InitializeOk).unwrap();
    let flag_a = coordinator.flag_of(a);
    assert!(flag_a.get());
    coordinator.stop_all();
    assert!(!flag_a.get());
    assert!(!coordinator.flag_of(b).get());
    assert!(!coordinator.flag_of(c).get());
    assert_eq!(coordinator.entries[a].phase, Phase::Stopping);
    assert_eq!(coordinator.entries[b].phase, Phase::Initialized);
    assert_eq!(coordinator.entries[c].phase, Phase::Built);
    // stopping all twice is as idempotent as a single stop
    coordinator.stop_all();
    assert_eq!(coordinator.entries[a].phase, Phase::Stopping);
}
