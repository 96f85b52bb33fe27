//! The persistence layer's observable behaviour: a durable log of runs,
//! raw events and incidents, the same over either database engine. The
//! state held here is the logical content of the database; the engine
//! executing the statements of `sql` against it must preserve exactly
//! these contracts (rows visible afterward, upsert-versus-insert
//! semantics, catalog lookup outcome).

use vstd::prelude::*;
use vstd::string::StrSliceExecFns;
use vstd::string::StringExecFns;

use crate::strutil::{has_prefix, str_eq_chars};
use crate::sys::{host_name, now_millis};

verus! {

/// One of the two interchangeable database engines, resolved once from the
/// connection URL's scheme and fixed for the lifetime of the handle.
#[derive(Clone, Copy, Debug, PartialEq, Eq, Structural)]
pub enum DatabaseBackend {
    Sqlite,
    Postgres,
}

/// The one connect-time failure: a connection URL whose scheme names
/// neither engine.
#[derive(Clone, Copy, Debug, PartialEq, Eq, Structural)]
pub enum StoreError {
    UnrecognizedScheme,
}

impl StoreError {
    /// The human-readable description of the failure, naming the accepted
    /// scheme forms.
    pub fn message(&self) -> (r: &'static str)
        ensures
            r@
                == "database url must start with sqlite://, sqlite::memory:, postgres://, or postgresql://"@,
    {
        "database url must start with sqlite://, sqlite::memory:, postgres://, or postgresql://"
    }
}

/// The backend a connection URL resolves to, none when the scheme is
/// unrecognized.
pub open spec fn spec_backend_of(url: Seq<char>) -> Option<DatabaseBackend> {
    if "sqlite://"@.is_prefix_of(url) || "sqlite::memory:"@.is_prefix_of(url) {
        Some(DatabaseBackend::Sqlite)
    } else if "postgres://"@.is_prefix_of(url) || "postgresql://"@.is_prefix_of(url) {
        Some(DatabaseBackend::Postgres)
    } else {
        None
    }
}

impl DatabaseBackend {
    /// Resolve the backend from a connection URL. Exactly the URLs whose
    /// scheme names an engine succeed.
    pub fn from_url(url: &str) -> (r: Result<DatabaseBackend, StoreError>)
        ensures
            match r {
                Ok(b) => spec_backend_of(url@) == Some(b),
                Err(e) => spec_backend_of(url@) is None && e == StoreError::UnrecognizedScheme,
            },
    {
        if has_prefix(url, "sqlite://") || has_prefix(url, "sqlite::memory:") {
            Ok(DatabaseBackend::Sqlite)
        } else if has_prefix(url, "postgres://") || has_prefix(url, "postgresql://") {
            Ok(DatabaseBackend::Postgres)
        } else {
            Err(StoreError::UnrecognizedScheme)
        }
    }
}

/// One daemon incarnation. Re-inserting the same `run_id` overwrites the
/// other fields: last write wins.
#[derive(Clone, Debug)]
pub struct RunRow {
    pub run_id: String,
    pub started_at_ms: i64,
    pub git_sha: Option<String>,
    pub host: String,
}

/// One immutable row of the raw event stream. The payload is opaque to the
/// store.
#[derive(Clone, Debug)]
pub struct EventRow {
    pub run_id: String,
    pub ts_ms: i64,
    pub source: String,
    pub topic: String,
    pub payload_json: String,
}

/// One immutable operational-warning or lifecycle-marker row.
#[derive(Clone, Debug)]
pub struct IncidentRow {
    pub run_id: String,
    pub ts_ms: i64,
    pub severity: String,
    pub kind: String,
    pub message: String,
}

pub open spec fn opt_str_view(o: Option<&str>) -> Option<Seq<char>> {
    match o {
        Some(s) => Some(s@),
        None => None,
    }
}

pub open spec fn opt_string_view(o: Option<String>) -> Option<Seq<char>> {
    match o {
        Some(s) => Some(s@),
        None => None,
    }
}

/// The index of the run row with identifier `id`, none when absent.
pub open spec fn find_run(runs: Seq<RunRow>, id: Seq<char>) -> Option<int>
    decreases runs.len(),
{
    if runs.len() == 0 {
        None
    } else if runs[0].run_id@ == id {
        Some(0int)
    } else {
        match find_run(runs.drop_first(), id) {
            Some(i) => Some(i + 1),
            None => None,
        }
    }
}

/// No two run rows share an identifier.
pub open spec fn run_ids_unique(runs: Seq<RunRow>) -> bool {
    forall|i: int, j: int|
        0 <= i < j < runs.len() ==> runs[i].run_id@ != runs[j].run_id@
}

/// The run table after writing `row`: the row with the same identifier is
/// replaced in place, or the row is appended when the identifier is new.
pub open spec fn spec_upsert(runs: Seq<RunRow>, row: RunRow) -> Seq<RunRow> {
    match find_run(runs, row.run_id@) {
        Some(i) => runs.update(i, row),
        None => runs.push(row),
    }
}

/// How many run rows carry identifier `id`.
pub open spec fn count_with_id(runs: Seq<RunRow>, id: Seq<char>) -> nat
    decreases runs.len(),
{
    if runs.len() == 0 {
        0
    } else {
        (if runs[0].run_id@ == id {
            1nat
        } else {
            0nat
        }) + count_with_id(runs.drop_first(), id)
    }
}

/// `find_run` finds the first matching index, and none exactly when no row
/// matches.
pub proof fn lemma_find_run_properties(runs: Seq<RunRow>, id: Seq<char>)
    ensures
        match find_run(runs, id) {
            Some(i) => 0 <= i < runs.len() && runs[i].run_id@ == id && (forall|j: int|
                0 <= j < i ==> runs[j].run_id@ != id),
            None => forall|j: int| 0 <= j < runs.len() ==> runs[j].run_id@ != id,
        },
    decreases runs.len(),
{
    if runs.len() > 0 && runs[0].run_id@ != id {
        let rest = runs.drop_first();
        lemma_find_run_properties(rest, id);
        assert(forall|j: int| 1 <= j < runs.len() ==> runs[j] == rest[j - 1]);
    }
}

/// A matching index preceded only by non-matching rows is what `find_run`
/// returns.
pub proof fn lemma_find_run_at(runs: Seq<RunRow>, id: Seq<char>, i: int)
    requires
        0 <= i < runs.len(),
        runs[i].run_id@ == id,
        forall|j: int| 0 <= j < i ==> runs[j].run_id@ != id,
    ensures
        find_run(runs, id) == Some(i),
    decreases runs.len(),
{
    if i > 0 {
        lemma_find_run_at(runs.drop_first(), id, i - 1);
    }
}

proof fn lemma_count_none(runs: Seq<RunRow>, id: Seq<char>)
    requires
        forall|j: int| 0 <= j < runs.len() ==> runs[j].run_id@ != id,
    ensures
        count_with_id(runs, id) == 0,
    decreases runs.len(),
{
    if runs.len() > 0 {
        lemma_count_none(runs.drop_first(), id);
    }
}

proof fn lemma_count_single(runs: Seq<RunRow>, id: Seq<char>, i: int)
    requires
        0 <= i < runs.len(),
        runs[i].run_id@ == id,
        forall|j: int| 0 <= j < runs.len() && j != i ==> runs[j].run_id@ != id,
    ensures
        count_with_id(runs, id) == 1,
    decreases runs.len(),
{
    if i == 0 {
        lemma_count_none(runs.drop_first(), id);
    } else {
        lemma_count_single(runs.drop_first(), id, i - 1);
    }
}

/// Writing a row preserves identifier uniqueness, and afterwards the row
/// stands at the index its identifier is found at.
pub proof fn lemma_upsert_well_formed(runs: Seq<RunRow>, row: RunRow)
    requires
        run_ids_unique(runs),
    ensures
        run_ids_unique(spec_upsert(runs, row)),
        match find_run(spec_upsert(runs, row), row.run_id@) {
            Some(i) => spec_upsert(runs, row)[i] == row,
            None => false,
        },
{
    lemma_find_run_properties(runs, row.run_id@);
    match find_run(runs, row.run_id@) {
        Some(i) => {
            let after = runs.update(i, row);
            assert(forall|k: int| 0 <= k < after.len() ==> after[k].run_id@ == runs[k].run_id@);
            lemma_find_run_at(after, row.run_id@, i);
        },
        None => {
            let after = runs.push(row);
            assert(forall|k: int| 0 <= k < runs.len() ==> after[k] == runs[k]);
            lemma_find_run_at(after, row.run_id@, runs.len() as int);
        },
    }
}

/// Last write wins: writing two rows with the same identifier leaves
/// exactly one row for it, and that row is the second write, whatever the
/// table held before.
pub proof fn lemma_upsert_last_write_wins(runs: Seq<RunRow>, r1: RunRow, r2: RunRow)
    requires
        run_ids_unique(runs),
        r1.run_id@ == r2.run_id@,
    ensures
        ({
            let after = spec_upsert(spec_upsert(runs, r1), r2);
            &&& count_with_id(after, r2.run_id@) == 1
            &&& match find_run(after, r2.run_id@) {
                Some(i) => after[i] == r2,
                None => false,
            }
        }),
{
    let mid = spec_upsert(runs, r1);
    lemma_upsert_well_formed(runs, r1);
    lemma_upsert_well_formed(mid, r2);
    let after = spec_upsert(mid, r2);
    lemma_find_run_properties(after, r2.run_id@);
    let i = find_run(after, r2.run_id@)->0;
    assert(forall|j: int| 0 <= j < after.len() && j != i ==> after[j].run_id@ != r2.run_id@);
    lemma_count_single(after, r2.run_id@, i);
}

/// The relation names every deployment requires.
pub open spec fn required_tables() -> Seq<Seq<char>> {
    seq!["runs"@, "raw_events"@, "incidents"@]
}

/// The required relation names missing from a catalog, in the fixed
/// required order.
pub open spec fn spec_missing_tables(present: Seq<Seq<char>>) -> Seq<Seq<char>> {
    (if present.contains("runs"@) {
        Seq::<Seq<char>>::empty()
    } else {
        seq!["runs"@]
    }) + (if present.contains("raw_events"@) {
        Seq::<Seq<char>>::empty()
    } else {
        seq!["raw_events"@]
    }) + (if present.contains("incidents"@) {
        Seq::<Seq<char>>::empty()
    } else {
        seq!["incidents"@]
    })
}

fn contains_name(names: &Vec<String>, name: &str) -> (r: bool)
    ensures
        r == names.deep_view().contains(name@),
{
    let n = names.len();
    let mut i: usize = 0;
    while i < n
        invariant
            i <= n,
            n == names@.len(),
            forall|j: int| 0 <= j < i ==> names.deep_view()[j] != name@,
        decreases n - i,
    {
        if str_eq_chars(names[i].as_str(), name) {
            proof {
                assert(names.deep_view()[i as int] == name@);
            }
            return true;
        }
        i = i + 1;
    }
    proof {
        assert forall|j: int| 0 <= j < names.deep_view().len() implies names.deep_view()[j]
            != name@ by {}
    }
    false
}

/// Which of the required relations are absent from `present`. Advisory:
/// the caller decides whether absence is fatal.
pub fn missing_tables(present: &Vec<String>) -> (r: Vec<String>)
    ensures
        r.deep_view() == spec_missing_tables(present.deep_view()),
{
    let mut out: Vec<String> = Vec::new();
    if !contains_name(present, "runs") {
        out.push(String::from_str("runs"));
    }
    let ghost part1 = out.deep_view();
    if !contains_name(present, "raw_events") {
        out.push(String::from_str("raw_events"));
    }
    let ghost part2 = out.deep_view();
    if !contains_name(present, "incidents") {
        out.push(String::from_str("incidents"));
    }
    proof {
        assert(out.deep_view() =~~= spec_missing_tables(present.deep_view()));
    }
    out
}

/// A handle on the durable log. The vectors are the logical content of the
/// three relations; they are public so that contracts can speak of them,
/// and are only written through the methods below.
pub struct Store {
    pub backend: DatabaseBackend,
    pub tables: Vec<String>,
    pub runs: Vec<RunRow>,
    pub events: Vec<EventRow>,
    pub incidents: Vec<IncidentRow>,
}

impl Store {
    /// Run identifiers are unique, by upsert semantics.
    pub open spec fn wf(&self) -> bool {
        run_ids_unique(self.runs@)
    }

    /// What `connect` owes for a recognized URL: a ready, empty store on
    /// the resolved backend whose catalog holds every required relation.
    pub open spec fn fresh_for(&self, url: Seq<char>) -> bool {
        &&& spec_backend_of(url) == Some(self.backend)
        &&& self.wf()
        &&& self.runs@.len() == 0
        &&& self.events@.len() == 0
        &&& self.incidents@.len() == 0
        &&& self.tables.deep_view() == required_tables()
        &&& spec_missing_tables(self.tables.deep_view()) == Seq::<Seq<char>>::empty()
    }

    /// Open a store for the URL: resolve the backend from the scheme and
    /// apply every pending schema migration, so that the required
    /// relations all exist. Exactly the recognized schemes succeed;
    /// migration is idempotent, so a fresh and an already-migrated target
    /// come out the same.
    pub fn connect(url: &str) -> (r: Result<Store, StoreError>)
        ensures
            match r {
                Ok(s) => s.fresh_for(url@),
                Err(e) => spec_backend_of(url@) is None && e == StoreError::UnrecognizedScheme,
            },
    {
        let backend = match DatabaseBackend::from_url(url) {
            Ok(b) => b,
            Err(e) => {
                return Err(e);
            },
        };
        let mut tables: Vec<String> = Vec::new();
        tables.push(String::from_str("runs"));
        tables.push(String::from_str("raw_events"));
        tables.push(String::from_str("incidents"));
        let s = Store {
            backend,
            tables,
            runs: Vec::new(),
            events: Vec::new(),
            incidents: Vec::new(),
        };
        proof {
            assert(s.tables.deep_view() =~~= required_tables());
            assert(required_tables().contains("runs"@)) by {
                assert(required_tables()[0] == "runs"@);
            }
            assert(required_tables().contains("raw_events"@)) by {
                assert(required_tables()[1] == "raw_events"@);
            }
            assert(required_tables().contains("incidents"@)) by {
                assert(required_tables()[2] == "incidents"@);
            }
            assert(spec_missing_tables(s.tables.deep_view()) =~~= Seq::<Seq<char>>::empty());
        }
        Ok(s)
    }

    /// The engine this handle was resolved to.
    pub fn backend(&self) -> (r: DatabaseBackend)
        ensures
            r == self.backend,
    {
        self.backend
    }

    /// Write one run row, replacing the row with the same identifier if
    /// one exists and appending otherwise. Everything else is untouched.
    pub fn upsert_run_row(&mut self, row: RunRow)
        requires
            old(self).wf(),
        ensures
            final(self).wf(),
            final(self).runs@ == spec_upsert(old(self).runs@, row),
            final(self).backend == old(self).backend,
            final(self).tables == old(self).tables,
            final(self).events == old(self).events,
            final(self).incidents == old(self).incidents,
    {
        let n = self.runs.len();
        let mut i: usize = 0;
        while i < n
            invariant
                i <= n,
                n == self.runs@.len(),
                old(self).wf(),
                *self == *old(self),
                forall|j: int| 0 <= j < i ==> self.runs@[j].run_id@ != row.run_id@,
            decreases n - i,
        {
            if str_eq_chars(self.runs[i].run_id.as_str(), row.run_id.as_str()) {
                proof {
                    lemma_upsert_well_formed(self.runs@, row);
                    lemma_find_run_at(self.runs@, row.run_id@, i as int);
                }
                self.runs[i] = row;
                return;
            }
            i = i + 1;
        }
        proof {
            lemma_upsert_well_formed(self.runs@, row);
            lemma_find_run_properties(self.runs@, row.run_id@);
        }
        self.runs.push(row);
    }

    /// Upsert the run row for `run_id`: the revision is as given, and the
    /// host identity and start timestamp are computed here, from the
    /// machine. Safe to call repeatedly for one identifier; the last call
    /// wins.
    pub fn insert_run(&mut self, run_id: &str, git_sha: Option<&str>)
        requires
            old(self).wf(),
        ensures
            final(self).wf(),
            final(self).backend == old(self).backend,
            final(self).tables == old(self).tables,
            final(self).events == old(self).events,
            final(self).incidents == old(self).incidents,
            exists|row: RunRow|
                final(self).runs@ == #[trigger] spec_upsert(old(self).runs@, row)
                    && row.run_id@ == run_id@ && opt_string_view(row.git_sha) == opt_str_view(
                    git_sha,
                ),
    {
        let ts = now_millis();
        let host = host_name();
        let sha: Option<String> = match git_sha {
            Some(s) => Some(s.to_owned()),
            None => None,
        };
        let row = RunRow { run_id: run_id.to_owned(), started_at_ms: ts, git_sha: sha, host };
        let ghost gr = row;
        self.upsert_run_row(row);
        proof {
            assert(final(self).runs@ == spec_upsert(old(self).runs@, gr));
        }
    }

    /// Append one immutable raw event row with a store-assigned timestamp.
    /// Strictly append-only: every existing row is left in place unaltered.
    pub fn log_event(&mut self, run_id: &str, source: &str, topic: &str, payload_json: &str)
        requires
            old(self).wf(),
        ensures
            final(self).wf(),
            final(self).backend == old(self).backend,
            final(self).tables == old(self).tables,
            final(self).runs == old(self).runs,
            final(self).incidents == old(self).incidents,
            final(self).events@.len() == old(self).events@.len() + 1,
            final(self).events@.subrange(0, old(self).events@.len() as int) == old(self).events@,
            final(self).events@.last().run_id@ == run_id@,
            final(self).events@.last().source@ == source@,
            final(self).events@.last().topic@ == topic@,
            final(self).events@.last().payload_json@ == payload_json@,
    {
        let ts = now_millis();
        self.events.push(
            EventRow {
                run_id: run_id.to_owned(),
                ts_ms: ts,
                source: source.to_owned(),
                topic: topic.to_owned(),
                payload_json: payload_json.to_owned(),
            },
        );
        proof {
            assert(final(self).events@.subrange(0, old(self).events@.len() as int) =~= old(
                self,
            ).events@);
        }
    }

    /// Append one immutable incident row with a store-assigned timestamp.
    /// Strictly append-only, like `log_event`.
    pub fn log_incident(&mut self, run_id: &str, severity: &str, kind: &str, message: &str)
        requires
            old(self).wf(),
        ensures
            final(self).wf(),
            final(self).backend == old(self).backend,
            final(self).tables == old(self).tables,
            final(self).runs == old(self).runs,
            final(self).events == old(self).events,
            final(self).incidents@.len() == old(self).incidents@.len() + 1,
            final(self).incidents@.subrange(0, old(self).incidents@.len() as int) == old(
                self,
            ).incidents@,
            final(self).incidents@.last().run_id@ == run_id@,
            final(self).incidents@.last().severity@ == severity@,
            final(self).incidents@.last().kind@ == kind@,
            final(self).incidents@.last().message@ == message@,
    {
        let ts = now_millis();
        self.incidents.push(
            IncidentRow {
                run_id: run_id.to_owned(),
                ts_ms: ts,
                severity: severity.to_owned(),
                kind: kind.to_owned(),
                message: message.to_owned(),
            },
        );
        proof {
            assert(final(self).incidents@.subrange(0, old(self).incidents@.len() as int) =~= old(
                self,
            ).incidents@);
        }
    }

    /// Which required relations the catalog is missing, without failing.
    /// Empty on any store `connect` produced.
    pub fn validate_required_tables(&self) -> (r: Vec<String>)
        ensures
            r.deep_view() == spec_missing_tables(self.tables.deep_view()),
    {
        missing_tables(&self.tables)
    }

    /// The run row carrying `run_id`, if any.
    pub fn get_run(&self, run_id: &str) -> (r: Option<&RunRow>)
        ensures
            match r {
                Some(row) => find_run(self.runs@, run_id@) matches Some(i) && self.runs@[i] == *row,
                None => find_run(self.runs@, run_id@) is None,
            },
    {
        let n = self.runs.len();
        let mut i: usize = 0;
        while i < n
            invariant
                i <= n,
                n == self.runs@.len(),
                forall|j: int| 0 <= j < i ==> self.runs@[j].run_id@ != run_id@,
            decreases n - i,
        {
            if str_eq_chars(self.runs[i].run_id.as_str(), run_id) {
                proof {
                    lemma_find_run_at(self.runs@, run_id@, i as int);
                }
                return Some(&self.runs[i]);
            }
            i = i + 1;
        }
        proof {
            lemma_find_run_properties(self.runs@, run_id@);
        }
        None
    }
}

/// Open a store on the sqlite engine; `path` must use a sqlite scheme.
pub fn init_sqlite(path: &str) -> (r: Result<Store, StoreError>)
    ensures
        match r {
            Ok(s) => s.fresh_for(path@),
            Err(e) => spec_backend_of(path@) is None && e == StoreError::UnrecognizedScheme,
        },
{
    Store::connect(path)
}

/// Open a store on the postgres engine; `url` must use a postgres scheme.
pub fn init_postgres(url: &str) -> (r: Result<Store, StoreError>)
    ensures
        match r {
            Ok(s) => s.fresh_for(url@),
            Err(e) => spec_backend_of(url@) is None && e == StoreError::UnrecognizedScheme,
        },
{
    Store::connect(url)
}

} // verus!
