use vstd::prelude::*;

verus! {

/// Creates the `reports` table unless it exists already, so it is safe to run
/// on every start. One row per run: the instant the run started, whether the
/// probe succeeded, the endpoint's description (`N/A` after a failed probe)
/// and the three averages (zero after a failed probe).
pub const CREATE_REPORTS_TABLE: &'static str = "CREATE TABLE IF NOT EXISTS reports(
    time DATETIME,
    ping_succeeded BOOL,
    metadata TEXT,
    avg_latency REAL,
    avg_down REAL,
    avg_up REAL
)";

/// Appends one row to the `reports` table; its six parameters are the fields
/// of a `StoredRow`, in order.
pub const INSERT_REPORT: &'static str = "INSERT INTO reports (time, ping_succeeded, metadata, avg_latency, avg_down, avg_up) VALUES (?1, ?2, ?3, ?4, ?5, ?6)";

} // verus!
