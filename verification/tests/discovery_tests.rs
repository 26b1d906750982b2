//! Schema discovery: filtered results equal the requested set, an absent
//! table fails the whole call with a schema-class error, and enumeration
//! mirrors the catalog.

use dozer_ingestion::connector::Connector;
use dozer_ingestion::connectors::events::EventsConnector;
use dozer_ingestion::errors::ConnectorError;
use dozer_ingestion::types::{FieldDefinition, FieldType, Schema};

fn schema_of(columns: &[(&str, FieldType)]) -> Schema {
    let mut fields = Vec::new();
    for (name, typ) in columns {
        fields.push(FieldDefinition {
            name: name.to_string(),
            typ: *typ,
            nullable: false,
        });
    }
    Schema { fields }
}

fn films_fixture() -> EventsConnector {
    let mut c = EventsConnector::new(3, "fixture".to_string());
    c.expose_table(
        "films".to_string(),
        schema_of(&[("film_id", FieldType::Int), ("title", FieldType::Text)]),
    );
    c.expose_table(
        "actors".to_string(),
        schema_of(&[("actor_id", FieldType::Int), ("name", FieldType::Text)]),
    );
    c
}

#[test]
fn filtered_discovery_returns_exactly_the_requested_table() {
    let c = films_fixture();
    let out = c.get_schemas(Some(vec!["films".to_string()])).unwrap();
    assert_eq!(out.len(), 1);
    assert_eq!(out[0].0, "films");
    assert_eq!(out[0].1.fields.len(), 2);
    assert_eq!(out[0].1.fields[0].name, "film_id");
    assert_eq!(out[0].1.fields[1].name, "title");
}

#[test]
fn missing_table_fails_whole_call_with_schema_error() {
    let c = films_fixture();
    let r = c.get_schemas(Some(vec!["missing_table".to_string()]));
    assert_eq!(
        r,
        Err(ConnectorError::SchemaNotFound("missing_table".to_string()))
    );
}

#[test]
fn one_missing_table_poisons_a_mixed_request() {
    let c = films_fixture();
    let r = c.get_schemas(Some(vec![
        "films".to_string(),
        "ghost".to_string(),
        "actors".to_string(),
    ]));
    assert_eq!(r, Err(ConnectorError::SchemaNotFound("ghost".to_string())));
}

#[test]
fn unfiltered_discovery_returns_whole_catalog_in_order() {
    let c = films_fixture();
    let out = c.get_schemas(None).unwrap();
    assert_eq!(out.len(), 2);
    assert_eq!(out[0].0, "films");
    assert_eq!(out[1].0, "actors");
}

#[test]
fn empty_filter_succeeds_with_no_tables() {
    let c = films_fixture();
    let out = c.get_schemas(Some(Vec::new())).unwrap();
    assert!(out.is_empty());
}

#[test]
fn repeated_exposure_keeps_first_schema() {
    let mut c = films_fixture();
    c.expose_table("films".to_string(), schema_of(&[("other", FieldType::UInt)]));
    let out = c.get_schemas(Some(vec!["films".to_string()])).unwrap();
    assert_eq!(out[0].1.fields[0].name, "film_id");
}

#[test]
fn enumeration_lists_tables_with_positional_ids_and_no_columns() {
    let c = films_fixture();
    let tables = c.get_tables().unwrap();
    assert_eq!(tables.len(), 2);
    assert_eq!(tables[0].name, "films");
    assert_eq!(tables[0].id, 0);
    assert!(tables[0].columns.is_none());
    assert_eq!(tables[1].name, "actors");
    assert_eq!(tables[1].id, 1);
}

#[test]
fn error_kinds_describe_themselves() {
    assert_eq!(
        ConnectorError::SchemaNotFound("films".to_string()).describe(),
        "schema not found"
    );
    assert_eq!(ConnectorError::BufferClosed.describe(), "ingestion buffer closed");
    assert_eq!(ConnectorError::LifecycleMisuse.describe(), "lifecycle misuse");
    assert_eq!(ConnectorError::ConnectionFailure.describe(), "connection failure");
    assert_eq!(
        ConnectorError::InvalidConfiguration.describe(),
        "invalid configuration"
    );
}
