use traderd::store::{init_sqlite, missing_tables, DatabaseBackend, Store, StoreError};

#[test]
fn detects_backends_from_url() {
    assert_eq!(
        DatabaseBackend::from_url("sqlite://bot.db").unwrap(),
        DatabaseBackend::Sqlite
    );
    assert_eq!(
        DatabaseBackend::from_url("sqlite::memory:?cache=shared").unwrap(),
        DatabaseBackend::Sqlite
    );
    assert_eq!(
        DatabaseBackend::from_url("postgres://localhost/poly").unwrap(),
        DatabaseBackend::Postgres
    );
    assert_eq!(
        DatabaseBackend::from_url("postgresql://localhost/poly").unwrap(),
        DatabaseBackend::Postgres
    );
}

#[test]
fn init_and_validate_required_tables() {
    let store = init_sqlite("sqlite::memory:?cache=shared").unwrap();
    let missing_tables = store.validate_required_tables();
    assert!(
        missing_tables.is_empty(),
        "missing tables: {:?}",
        missing_tables
    );
}

#[test]
fn runs_migrations_on_postgres_when_available() {
    let store = Store::connect("postgres://localhost/poly").unwrap();
    let missing_tables = store.validate_required_tables();
    assert!(
        missing_tables.is_empty(),
        "missing tables: {:?}",
        missing_tables
    );
}

#[test]
fn rejects_unrecognized_scheme() {
    let err = DatabaseBackend::from_url("mysql://localhost/poly").unwrap_err();
    assert_eq!(err, StoreError::UnrecognizedScheme);
    assert!(err
        .message()
        .contains("sqlite://, sqlite::memory:, postgres://, or postgresql://"));
    assert!(Store::connect("bot.db").is_err());
}

#[test]
fn upsert_run_row_keeps_one_row_per_id() {
    let mut store = init_sqlite("sqlite://bot.db").unwrap();
    store.upsert_run_row(traderd::store::RunRow {
        run_id: "run-1".to_string(),
        started_at_ms: 1,
        git_sha: None,
        host: "host-a".to_string(),
    });
    store.upsert_run_row(traderd::store::RunRow {
        run_id: "run-1".to_string(),
        started_at_ms: 2,
        git_sha: Some("abc".to_string()),
        host: "host-b".to_string(),
    });
    assert_eq!(store.runs.len(), 1);
    let row = store.get_run("run-1").unwrap();
    assert_eq!(row.host, "host-b");
    assert_eq!(row.started_at_ms, 2);
    assert_eq!(row.git_sha.as_deref(), Some("abc"));
}

#[test]
fn insert_run_overwrites_prior_fields() {
    let mut store = init_sqlite("sqlite://bot.db").unwrap();
    store.insert_run("run-1", None);
    store.insert_run("run-1", Some("deadbeef"));
    store.insert_run("run-2", None);
    assert_eq!(store.runs.len(), 2);
    let row = store.get_run("run-1").unwrap();
    assert_eq!(row.run_id, "run-1");
    assert_eq!(row.git_sha.as_deref(), Some("deadbeef"));
    assert!(store.get_run("run-3").is_none());
}

#[test]
fn log_event_is_append_only() {
    let mut store = init_sqlite("sqlite://bot.db").unwrap();
    store.log_event("run-1", "internal", "tick", "{\"tick\":1}");
    let first_topic = store.events[0].topic.clone();
    store.log_event("run-1", "internal", "tick", "{\"tick\":2}");
    store.log_event("run-1", "ws", "quote", "{}");
    assert_eq!(store.events.len(), 3);
    assert_eq!(store.events[0].topic, first_topic);
    assert_eq!(store.events[0].payload_json, "{\"tick\":1}");
    assert_eq!(store.events[2].source, "ws");
}

#[test]
fn log_incident_is_append_only() {
    let mut store = init_sqlite("sqlite://bot.db").unwrap();
    store.log_incident("run-1", "info", "ready", "traderd booted and ready");
    store.log_incident("run-1", "warning", "db_schema_missing", "missing");
    assert_eq!(store.incidents.len(), 2);
    assert_eq!(store.incidents[0].severity, "info");
    assert_eq!(store.incidents[0].kind, "ready");
    assert_eq!(store.incidents[1].severity, "warning");
}

#[test]
fn missing_incidents_relation_is_reported() {
    let present = vec!["runs".to_string(), "raw_events".to_string()];
    let missing = missing_tables(&present);
    assert_eq!(missing, vec!["incidents".to_string()]);
}

#[test]
fn missing_tables_reports_all_when_catalog_empty() {
    let missing = missing_tables(&Vec::new());
    assert_eq!(
        missing,
        vec![
            "runs".to_string(),
            "raw_events".to_string(),
            "incidents".to_string()
        ]
    );
}

#[test]
fn backend_is_fixed_at_connect_time() {
    let store = init_sqlite("sqlite://bot.db").unwrap();
    assert_eq!(store.backend(), DatabaseBackend::Sqlite);
    let store = traderd::store::init_postgres("postgresql://h/db").unwrap();
    assert_eq!(store.backend(), DatabaseBackend::Postgres);
}
