use traderd::default_socket_path;
use traderd::sql::{
    create_incidents_sql, create_raw_events_sql, create_runs_sql, insert_run_sql,
    log_event_sql, log_incident_sql, table_exists_sql,
};
use traderd::state::{initial_snapshot, FEATURE_SCHEMA_VERSION};
use traderd::store::DatabaseBackend;
use traderd::trading::{ExecutionEngine, IntentKind};

#[test]
fn default_socket_path_is_well_known() {
    assert_eq!(default_socket_path(), "/tmp/polymarket_bot.sock");
}

#[test]
fn initial_snapshot_is_the_bootstrap_marker() {
    let snap = initial_snapshot();
    assert_eq!(snap.snapshot_id, "bootstrap");
    assert_eq!(snap.market_id, 0);
    assert_eq!(FEATURE_SCHEMA_VERSION, 1);
}

#[test]
fn trading_stubs_construct() {
    let _engine = ExecutionEngine::new();
    let _engine = ExecutionEngine::default();
    assert!(matches!(IntentKind::NoOp, IntentKind::NoOp));
}

#[test]
fn query_text_differs_only_in_placeholders() {
    let s = insert_run_sql(DatabaseBackend::Sqlite);
    let p = insert_run_sql(DatabaseBackend::Postgres);
    assert!(s.contains("?1") && !s.contains("$1"));
    assert!(p.contains("$1") && !p.contains("?1"));
    assert_eq!(s.replace("?1", "$1").replace("?2", "$2").replace("?3", "$3").replace("?4", "$4"), p);
    assert!(s.contains("ON CONFLICT(run_id) DO UPDATE"));

    let s = log_event_sql(DatabaseBackend::Sqlite);
    let p = log_event_sql(DatabaseBackend::Postgres);
    assert!(s.starts_with("INSERT INTO raw_events"));
    assert!(p.starts_with("INSERT INTO raw_events"));
    assert!(!s.contains("ON CONFLICT"));

    let s = log_incident_sql(DatabaseBackend::Sqlite);
    let p = log_incident_sql(DatabaseBackend::Postgres);
    assert!(s.starts_with("INSERT INTO incidents"));
    assert!(p.starts_with("INSERT INTO incidents"));

    assert!(table_exists_sql(DatabaseBackend::Sqlite).contains("sqlite_master"));
    assert!(table_exists_sql(DatabaseBackend::Postgres).contains("information_schema.tables"));
}

#[test]
fn migrations_are_idempotent_by_construction() {
    assert!(create_runs_sql().starts_with("CREATE TABLE IF NOT EXISTS runs"));
    assert!(create_raw_events_sql().starts_with("CREATE TABLE IF NOT EXISTS raw_events"));
    assert!(create_incidents_sql().starts_with("CREATE TABLE IF NOT EXISTS incidents"));
}
