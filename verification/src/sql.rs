//! All backend-specific query text, in one place, so that the behavioural
//! contract of `store` can be read independently of SQL dialect. The two
//! engines differ only in placeholder syntax and catalog table; the rows
//! visible afterward must be the same.

use vstd::prelude::*;

use crate::store::DatabaseBackend;

verus! {

/// The upsert statement behind `insert_run`: an insert whose conflict
/// clause overwrites every non-key field, so the last write wins.
pub fn insert_run_sql(b: DatabaseBackend) -> (r: &'static str)
    ensures
        b == DatabaseBackend::Sqlite ==> r@
            == "INSERT INTO runs (run_id, started_at_ms, git_sha, host) VALUES (?1, ?2, ?3, ?4) ON CONFLICT(run_id) DO UPDATE SET started_at_ms = excluded.started_at_ms, git_sha = excluded.git_sha, host = excluded.host"@,
        b == DatabaseBackend::Postgres ==> r@
            == "INSERT INTO runs (run_id, started_at_ms, git_sha, host) VALUES ($1, $2, $3, $4) ON CONFLICT(run_id) DO UPDATE SET started_at_ms = excluded.started_at_ms, git_sha = excluded.git_sha, host = excluded.host"@,
{
    match b {
        DatabaseBackend::Sqlite => "INSERT INTO runs (run_id, started_at_ms, git_sha, host) VALUES (?1, ?2, ?3, ?4) ON CONFLICT(run_id) DO UPDATE SET started_at_ms = excluded.started_at_ms, git_sha = excluded.git_sha, host = excluded.host",
        DatabaseBackend::Postgres => "INSERT INTO runs (run_id, started_at_ms, git_sha, host) VALUES ($1, $2, $3, $4) ON CONFLICT(run_id) DO UPDATE SET started_at_ms = excluded.started_at_ms, git_sha = excluded.git_sha, host = excluded.host",
    }
}

/// The plain insert behind `log_event`: no conflict clause, rows are never
/// replaced.
pub fn log_event_sql(b: DatabaseBackend) -> (r: &'static str)
    ensures
        b == DatabaseBackend::Sqlite ==> r@
            == "INSERT INTO raw_events (run_id, ts_ms, source, topic, payload_json) VALUES (?1, ?2, ?3, ?4, ?5)"@,
        b == DatabaseBackend::Postgres ==> r@
            == "INSERT INTO raw_events (run_id, ts_ms, source, topic, payload_json) VALUES ($1, $2, $3, $4, $5)"@,
{
    match b {
        DatabaseBackend::Sqlite => "INSERT INTO raw_events (run_id, ts_ms, source, topic, payload_json) VALUES (?1, ?2, ?3, ?4, ?5)",
        DatabaseBackend::Postgres => "INSERT INTO raw_events (run_id, ts_ms, source, topic, payload_json) VALUES ($1, $2, $3, $4, $5)",
    }
}

/// The plain insert behind `log_incident`.
pub fn log_incident_sql(b: DatabaseBackend) -> (r: &'static str)
    ensures
        b == DatabaseBackend::Sqlite ==> r@
            == "INSERT INTO incidents (run_id, ts_ms, severity, kind, message) VALUES (?1, ?2, ?3, ?4, ?5)"@,
        b == DatabaseBackend::Postgres ==> r@
            == "INSERT INTO incidents (run_id, ts_ms, severity, kind, message) VALUES ($1, $2, $3, $4, $5)"@,
{
    match b {
        DatabaseBackend::Sqlite => "INSERT INTO incidents (run_id, ts_ms, severity, kind, message) VALUES (?1, ?2, ?3, ?4, ?5)",
        DatabaseBackend::Postgres => "INSERT INTO incidents (run_id, ts_ms, severity, kind, message) VALUES ($1, $2, $3, $4, $5)",
    }
}

/// The catalog probe behind `validate_required_tables`: one bound relation
/// name, one row or one boolean back.
pub fn table_exists_sql(b: DatabaseBackend) -> (r: &'static str)
    ensures
        b == DatabaseBackend::Sqlite ==> r@
            == "SELECT name FROM sqlite_master WHERE type='table' AND name = ?1"@,
        b == DatabaseBackend::Postgres ==> r@
            == "SELECT EXISTS (SELECT 1 FROM information_schema.tables WHERE table_schema = current_schema() AND table_name = $1)"@,
{
    match b {
        DatabaseBackend::Sqlite => "SELECT name FROM sqlite_master WHERE type='table' AND name = ?1",
        DatabaseBackend::Postgres => "SELECT EXISTS (SELECT 1 FROM information_schema.tables WHERE table_schema = current_schema() AND table_name = $1)",
    }
}

/// The migration step for the run table. Safe to re-run: it creates only
/// what is absent. The text is dialect-neutral.
pub fn create_runs_sql() -> (r: &'static str)
    ensures
        r@
            == "CREATE TABLE IF NOT EXISTS runs (run_id TEXT PRIMARY KEY, started_at_ms BIGINT NOT NULL, git_sha TEXT, host TEXT NOT NULL)"@,
{
    "CREATE TABLE IF NOT EXISTS runs (run_id TEXT PRIMARY KEY, started_at_ms BIGINT NOT NULL, git_sha TEXT, host TEXT NOT NULL)"
}

/// The migration step for the raw event stream.
pub fn create_raw_events_sql() -> (r: &'static str)
    ensures
        r@
            == "CREATE TABLE IF NOT EXISTS raw_events (run_id TEXT NOT NULL, ts_ms BIGINT NOT NULL, source TEXT NOT NULL, topic TEXT NOT NULL, payload_json TEXT NOT NULL)"@,
{
    "CREATE TABLE IF NOT EXISTS raw_events (run_id TEXT NOT NULL, ts_ms BIGINT NOT NULL, source TEXT NOT NULL, topic TEXT NOT NULL, payload_json TEXT NOT NULL)"
}

/// The migration step for the incident log.
pub fn create_incidents_sql() -> (r: &'static str)
    ensures
        r@
            == "CREATE TABLE IF NOT EXISTS incidents (run_id TEXT NOT NULL, ts_ms BIGINT NOT NULL, severity TEXT NOT NULL, kind TEXT NOT NULL, message TEXT NOT NULL)"@,
{
    "CREATE TABLE IF NOT EXISTS incidents (run_id TEXT NOT NULL, ts_ms BIGINT NOT NULL, severity TEXT NOT NULL, kind TEXT NOT NULL, message TEXT NOT NULL)"
}

} // verus!
