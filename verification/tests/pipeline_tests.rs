//! End-to-end scenarios: a relational-style connector and an internal-bus
//! connector sharing one buffer, cooperative cancellation, table filters,
//! and the closed-buffer shutdown signal.

use dozer_ingestion::connector::{Connector, TableInfo};
use dozer_ingestion::connectors::events::EventsConnector;
use dozer_ingestion::factory::{get_connector, AnyConnector};
use dozer_ingestion::shared::{SharedFlag, SharedIngestor};
use dozer_ingestion::types::{Authentication, ChangeEvent, Connection, Operation, Value};

fn insert_of(v: u64) -> Operation {
    Operation::Insert {
        row: vec![Value::UInt(v)],
    }
}

fn drain_all(buffer: &SharedIngestor) -> Vec<ChangeEvent> {
    let mut out = Vec::new();
    while let Some(ev) = buffer.drain_next() {
        out.push(ev);
    }
    out
}

#[test]
fn two_connectors_one_buffer_hundred_events() {
    let buffer = SharedIngestor::new(100);
    let flag = SharedFlag::new(true);

    // a relational-style connector with 50 decoded changes waiting
    let mut relational = match get_connector(Connection {
        name: "pg".to_string(),
        authentication: Authentication::PostgresAuthentication {
            user: "u".to_string(),
            password: "p".to_string(),
            host: "h".to_string(),
            port: 5432,
            database: "d".to_string(),
        },
    }) {
        AnyConnector::Postgres(p) => p,
        _ => panic!("expected the relational connector"),
    };
    for _ in 0..50 {
        relational
            .runtime
            .record_change(0, insert_of(relational.runtime.next_seq));
    }

    // an internal-bus connector with 50 published events
    let mut bus = EventsConnector::new(3, "bus".to_string());
    for _ in 0..50 {
        let v = bus.runtime.next_seq;
        bus.publish(1, insert_of(v));
    }

    assert!(relational.initialize(buffer.handle(), None).is_ok());
    assert!(bus.initialize(buffer.handle(), None).is_ok());
    assert!(relational.start(&flag).is_ok());
    assert!(bus.start(&flag).is_ok());

    let drained = drain_all(&buffer);
    assert_eq!(drained.len(), 100);
    let relational_seqs: Vec<u64> = drained
        .iter()
        .filter(|e| e.connector_id == 1)
        .map(|e| e.seq_no)
        .collect();
    let bus_seqs: Vec<u64> = drained
        .iter()
        .filter(|e| e.connector_id == 3)
        .map(|e| e.seq_no)
        .collect();
    assert_eq!(relational_seqs, (0..50).collect::<Vec<u64>>());
    assert_eq!(bus_seqs, (0..50).collect::<Vec<u64>>());
}

#[test]
fn cleared_flag_returns_start_promptly_with_nothing_pushed() {
    let buffer = SharedIngestor::new(16);
    let flag = SharedFlag::new(true);
    let mut c = EventsConnector::new(3, "bus".to_string());
    for s in 0..8u64 {
        c.publish(0, insert_of(s));
    }
    assert!(c.initialize(buffer.handle(), None).is_ok());
    flag.set(false);
    assert!(c.start(&flag).is_ok());
    assert!(buffer.drain_next().is_none());
    // the stream was not consumed: raising the flag resumes from the front
    flag.set(true);
    assert!(c.start(&flag).is_ok());
    let drained = drain_all(&buffer);
    assert_eq!(drained.len(), 8);
    assert_eq!(drained[0].seq_no, 0);
}

#[test]
fn own_stop_signal_cancels_start_like_the_flag() {
    let buffer = SharedIngestor::new(16);
    let flag = SharedFlag::new(true);
    let mut c = EventsConnector::new(3, "bus".to_string());
    c.publish(0, insert_of(0));
    assert!(c.initialize(buffer.handle(), None).is_ok());
    c.stop();
    assert!(c.start(&flag).is_ok());
    assert!(buffer.drain_next().is_none());
}

#[test]
fn closed_buffer_stops_start_cleanly_keeping_the_stream() {
    let buffer = SharedIngestor::new(16);
    let flag = SharedFlag::new(true);
    let mut c = EventsConnector::new(3, "bus".to_string());
    for s in 0..4u64 {
        c.publish(0, insert_of(s));
    }
    assert!(c.initialize(buffer.handle(), None).is_ok());
    buffer.close();
    assert!(c.start(&flag).is_ok());
    assert!(buffer.drain_next().is_none());
}

#[test]
fn table_filter_restricts_the_change_stream() {
    let buffer = SharedIngestor::new(16);
    let flag = SharedFlag::new(true);
    let mut c = EventsConnector::new(3, "bus".to_string());
    for s in 0..6u64 {
        // even events hit table 0, odd ones table 1
        c.publish((s % 2) as u32, insert_of(s));
    }
    let only_table_zero = vec![TableInfo {
        name: "films".to_string(),
        id: 0,
        columns: None,
    }];
    assert!(c.initialize(buffer.handle(), Some(only_table_zero)).is_ok());
    assert!(c.start(&flag).is_ok());
    let drained = drain_all(&buffer);
    assert_eq!(drained.len(), 3);
    assert!(drained.iter().all(|e| e.table_id == 0));
    assert_eq!(
        drained.iter().map(|e| e.seq_no).collect::<Vec<u64>>(),
        vec![0, 2, 4]
    );
}

#[test]
fn fully_rejecting_filter_always_starts_and_stops_cleanly() {
    // nothing the filter admits may be pushed, so even a full, undrained
    // buffer cannot stall this connector: start must return Ok
    let buffer = SharedIngestor::new(1);
    assert!(matches!(
        buffer.push(ChangeEvent {
            connector_id: 9,
            table_id: 5,
            seq_no: 0,
            op: insert_of(0),
        }),
        dozer_ingestion::shared::PushOutcome::Admitted
    ));
    let flag = SharedFlag::new(true);
    let mut c = EventsConnector::new(3, "bus".to_string());
    for s in 0..4u64 {
        c.publish(0, insert_of(s));
    }
    let rejects_everything = vec![TableInfo {
        name: "films".to_string(),
        id: 42,
        columns: None,
    }];
    assert!(c.initialize(buffer.handle(), Some(rejects_everything)).is_ok());
    assert!(c.start(&flag).is_ok());
    // the one event drained is the stranger's; none of ours passed
    assert_eq!(buffer.drain_next().unwrap().connector_id, 9);
    assert!(buffer.drain_next().is_none());
}

#[test]
fn stalled_pipeline_surfaces_terminal_connectivity_error() {
    // a full buffer that nobody drains: pushes stay at capacity past the
    // connector's grace bound, which is a terminal error, not a hang
    let buffer = SharedIngestor::new(1);
    assert!(matches!(
        buffer.push(ChangeEvent {
            connector_id: 9,
            table_id: 0,
            seq_no: 0,
            op: insert_of(0),
        }),
        dozer_ingestion::shared::PushOutcome::Admitted
    ));
    let flag = SharedFlag::new(true);
    let mut c = EventsConnector::new(3, "bus".to_string());
    c.publish(0, insert_of(0));
    assert!(c.initialize(buffer.handle(), None).is_ok());
    assert_eq!(
        c.start(&flag),
        Err(dozer_ingestion::errors::ConnectorError::ConnectionFailure)
    );
}

#[test]
fn start_registers_discovered_schemas_with_the_buffer() {
    let buffer = SharedIngestor::new(16);
    let flag = SharedFlag::new(true);
    let mut c = EventsConnector::new(3, "bus".to_string());
    c.expose_table(
        "films".to_string(),
        dozer_ingestion::types::Schema { fields: Vec::new() },
    );
    assert!(c.initialize(buffer.handle(), None).is_ok());
    assert!(c.start(&flag).is_ok());
    assert!(buffer.get_schema(&"films".to_string()).is_some());
    assert!(buffer.get_schema(&"actors".to_string()).is_none());
}
