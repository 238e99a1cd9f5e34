use vstd::prelude::*;
use vstd::string::StringExecFns;
use crate::sample::{Sample, SampleKind, kind_count, kind_mean, mean_magnitude};

verus! {

/// Why a set of samples could not be reduced to averages.
#[derive(Clone, Copy, Debug, PartialEq, Eq, Structural)]
pub enum AggregateError {
    /// No sample of kind `Download` was taken: its mean is undefined.
    NoDownloadSamples,
    /// No sample of kind `Upload` was taken: its mean is undefined.
    NoUploadSamples,
}

/// The averages of a run whose probe succeeded, in the units of `Sample`.
#[derive(Debug)]
pub struct Measurement {
    pub metadata: String,
    pub avg_latency: u64,
    pub avg_down: u64,
    pub avg_up: u64,
}

/// What reducing `s` gives: the download and upload means, or the error for
/// the first of the two kinds that has no sample.
pub open spec fn aggregate_outcome(s: Seq<Sample>) -> Result<(u64, u64), AggregateError> {
    match kind_mean(s, SampleKind::Download) {
        None => Err(AggregateError::NoDownloadSamples),
        Some(down) => match kind_mean(s, SampleKind::Upload) {
            None => Err(AggregateError::NoUploadSamples),
            Some(up) => Ok((down as u64, up as u64)),
        },
    }
}

impl Measurement {
    /// Reduces the throughput samples of a run to their means, by kind.
    ///
    /// A kind with no sample has no mean; rather than inventing one, the
    /// reduction fails with the matching error (download is checked first).
    pub fn aggregate(metadata: String, avg_latency: u64, samples: &Vec<Sample>) -> (r: Result<
        Measurement,
        AggregateError,
    >)
        ensures
            match aggregate_outcome(samples@) {
                Ok((down, up)) => r == Ok::<_, AggregateError>(
                    Measurement { metadata, avg_latency, avg_down: down, avg_up: up },
                ),
                Err(e) => r == Err::<Measurement, _>(e),
            },
            kind_count(samples@, SampleKind::Download) == 0 ==> r == Err::<Measurement, _>(
                AggregateError::NoDownloadSamples,
            ),
            kind_count(samples@, SampleKind::Download) > 0 && kind_count(
                samples@,
                SampleKind::Upload,
            ) == 0 ==> r == Err::<Measurement, _>(AggregateError::NoUploadSamples),
            kind_count(samples@, SampleKind::Download) > 0 && kind_count(
                samples@,
                SampleKind::Upload,
            ) > 0 ==> (r matches Ok(m) && m.metadata == metadata && m.avg_latency == avg_latency
                && kind_mean(samples@, SampleKind::Download) == Some(m.avg_down as nat)
                && kind_mean(samples@, SampleKind::Upload) == Some(m.avg_up as nat)),
    {
        let avg_down = match mean_magnitude(samples, SampleKind::Download) {
            Some(m) => m,
            None => {
                return Err(AggregateError::NoDownloadSamples);
            },
        };
        let avg_up = match mean_magnitude(samples, SampleKind::Upload) {
            Some(m) => m,
            None => {
                return Err(AggregateError::NoUploadSamples);
            },
        };
        Ok(Measurement { metadata, avg_latency, avg_down, avg_up })
    }
}

/// The outcome of one run.
#[derive(Debug)]
pub enum Report {
    /// The reachability probe failed; nothing was measured.
    PingFailed,
    /// The probe succeeded and the samples were reduced to averages.
    PingSucceeded(Measurement),
}

/// One row of the `reports` table: a report stamped with the instant its run
/// started, in microseconds since the Unix epoch (UTC).
#[derive(Debug)]
pub struct StoredRow {
    pub time: i64,
    pub ping_succeeded: bool,
    pub metadata: String,
    pub avg_latency: u64,
    pub avg_down: u64,
    pub avg_up: u64,
}

/// `row` is how `report`, stamped with `time`, is stored: a failed probe has
/// metadata `N/A` and zero averages, a successful one its own values.
pub open spec fn is_row_of(row: StoredRow, report: Report, time: i64) -> bool {
    &&& row.time == time
    &&& match report {
        Report::PingFailed => {
            &&& !row.ping_succeeded
            &&& row.metadata@ == "N/A"@
            &&& row.avg_latency == 0
            &&& row.avg_down == 0
            &&& row.avg_up == 0
        },
        Report::PingSucceeded(m) => {
            &&& row.ping_succeeded
            &&& row.metadata == m.metadata
            &&& row.avg_latency == m.avg_latency
            &&& row.avg_down == m.avg_down
            &&& row.avg_up == m.avg_up
        },
    }
}

impl Report {
    /// The row that stores this report for a run that started at `time`.
    pub fn into_row(self, time: i64) -> (r: StoredRow)
        ensures
            is_row_of(r, self, time),
    {
        match self {
            Report::PingFailed => StoredRow {
                time,
                ping_succeeded: false,
                metadata: String::from_str("N/A"),
                avg_latency: 0,
                avg_down: 0,
                avg_up: 0,
            },
            Report::PingSucceeded(m) => StoredRow {
                time,
                ping_succeeded: true,
                metadata: m.metadata,
                avg_latency: m.avg_latency,
                avg_down: m.avg_down,
                avg_up: m.avg_up,
            },
        }
    }
}

} // verus!
