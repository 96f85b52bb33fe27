//! The two environment readings the persistence layer fills rows with.
//! Both depend on the machine, so their contracts promise nothing about
//! the values; every caller states what holds whatever comes back.

use vstd::prelude::*;

verus! {

/// Relies on chrono's `Utc::now` and `timestamp_millis`: the current
/// wall-clock time as milliseconds since the Unix epoch. The value depends
/// on the machine's clock, so nothing is promised of it.
#[verifier::external_body]
pub(crate) fn now_millis() -> i64 {
    chrono::Utc::now().timestamp_millis()
}

/// Relies on `hostname::get`: the local host identity, lossily decoded to
/// text, empty when it cannot be read. The value depends on the machine,
/// so nothing is promised of it.
#[verifier::external_body]
pub(crate) fn host_name() -> String {
    hostname::get().unwrap_or_default().to_string_lossy().to_string()
}

} // verus!
