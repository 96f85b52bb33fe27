//! The market-state snapshot the trading collaborators start from. The
//! core never reads one; it only owes them a well-formed bootstrap value.

use vstd::prelude::*;
use vstd::string::StringExecFns;

use crate::sys::now_millis;

verus! {

/// Version tag of the feature schema snapshots are computed under.
pub const FEATURE_SCHEMA_VERSION: i32 = 1;

/// One observation of a market at a point in time.
#[derive(Clone, Debug)]
pub struct StateSnapshot {
    pub snapshot_id: String,
    pub market_id: i64,
    pub ts_ms: i64,
}

/// The snapshot a fresh daemon starts from: the bootstrap marker for the
/// null market, stamped with the current wall-clock time.
pub fn initial_snapshot() -> (r: StateSnapshot)
    ensures
        r.snapshot_id@ == "bootstrap"@,
        r.market_id == 0,
{
    StateSnapshot {
        snapshot_id: String::from_str("bootstrap"),
        market_id: 0,
        ts_ms: now_millis(),
    }
}

} // verus!
