//! The shared ingestion buffer: admission order, bounded backpressure,
//! closed-buffer failure, the schema registry, and loss-free interleaving
//! of independent writers.

use dozer_ingestion::errors::ConnectorError;
use dozer_ingestion::ingestor::Ingestor;
use dozer_ingestion::shared::{PushOutcome, SharedIngestor};
use dozer_ingestion::types::{
    ChangeEvent, FieldDefinition, FieldType, Operation, Schema, Value,
};

fn event(connector_id: u32, table_id: u32, seq_no: u64) -> ChangeEvent {
    ChangeEvent {
        connector_id,
        table_id,
        seq_no,
        op: Operation::Insert {
            row: vec![Value::UInt(seq_no)],
        },
    }
}

#[test]
fn drain_returns_admissions_in_order() {
    let buffer = SharedIngestor::new(8);
    for s in 0..5u64 {
        assert!(matches!(buffer.push(event(1, 0, s)), PushOutcome::Admitted));
    }
    for s in 0..5u64 {
        let ev = buffer.drain_next().unwrap();
        assert_eq!(ev.seq_no, s);
        assert_eq!(ev.connector_id, 1);
    }
    assert!(buffer.drain_next().is_none());
}

#[test]
fn at_capacity_push_hands_event_back() {
    let buffer = SharedIngestor::new(2);
    assert!(matches!(buffer.push(event(1, 0, 0)), PushOutcome::Admitted));
    assert!(matches!(buffer.push(event(1, 0, 1)), PushOutcome::Admitted));
    match buffer.push(event(1, 0, 2)) {
        PushOutcome::AtCapacity(ev) => assert_eq!(ev.seq_no, 2),
        _ => panic!("a full buffer must refuse and hand the event back"),
    }
    // the consumer makes room; the retried push is then admitted
    assert!(buffer.drain_next().is_some());
    assert!(matches!(buffer.push(event(1, 0, 2)), PushOutcome::Admitted));
}

#[test]
fn closed_buffer_refuses_pushes_but_stays_drainable() {
    let buffer = SharedIngestor::new(4);
    assert!(matches!(buffer.push(event(1, 0, 0)), PushOutcome::Admitted));
    buffer.close();
    match buffer.push(event(1, 0, 1)) {
        PushOutcome::Closed(ev) => assert_eq!(ev.seq_no, 1),
        _ => panic!("a closed buffer must refuse the push"),
    }
    // closing twice is harmless, and what was admitted is still there
    buffer.close();
    assert_eq!(buffer.drain_next().unwrap().seq_no, 0);
    assert!(buffer.drain_next().is_none());
}

#[test]
fn interleaved_writers_lose_nothing_and_keep_their_own_order() {
    let buffer = SharedIngestor::new(64);
    let writer_a = buffer.handle();
    let writer_b = buffer.handle();
    // interleave two independent streams through separate handles
    for s in 0..10u64 {
        assert!(matches!(writer_a.push(event(1, 0, s)), PushOutcome::Admitted));
        assert!(matches!(writer_b.push(event(2, 7, s)), PushOutcome::Admitted));
    }
    let mut drained = Vec::new();
    while let Some(ev) = buffer.drain_next() {
        drained.push(ev);
    }
    assert_eq!(drained.len(), 20);
    let from_a: Vec<u64> = drained
        .iter()
        .filter(|e| e.connector_id == 1)
        .map(|e| e.seq_no)
        .collect();
    let from_b: Vec<u64> = drained
        .iter()
        .filter(|e| e.connector_id == 2)
        .map(|e| e.seq_no)
        .collect();
    assert_eq!(from_a, (0..10).collect::<Vec<u64>>());
    assert_eq!(from_b, (0..10).collect::<Vec<u64>>());
}

#[test]
fn sequential_core_reports_buffer_closed() {
    let mut core = Ingestor::new(2);
    assert!(core.push(event(1, 0, 0)).is_ok());
    core.close();
    assert_eq!(core.push(event(1, 0, 1)), Err(ConnectorError::BufferClosed));
    assert_eq!(core.drain_next().unwrap().seq_no, 0);
    assert!(core.drain_next().is_none());
}

#[test]
fn schema_registry_keeps_first_registration() {
    let buffer = SharedIngestor::new(4);
    let films = Schema {
        fields: vec![FieldDefinition {
            name: "film_id".to_string(),
            typ: FieldType::Int,
            nullable: false,
        }],
    };
    let other = Schema {
        fields: vec![FieldDefinition {
            name: "something_else".to_string(),
            typ: FieldType::Text,
            nullable: true,
        }],
    };
    buffer.register_schema("films".to_string(), films);
    buffer.register_schema("films".to_string(), other);
    let got = buffer.get_schema(&"films".to_string()).unwrap();
    assert_eq!(got.fields.len(), 1);
    assert_eq!(got.fields[0].name, "film_id");
    assert!(buffer.get_schema(&"actors".to_string()).is_none());
}
