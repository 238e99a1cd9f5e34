//! Records the outcome of one network quality run: a reachability probe, then,
//! when the probe succeeds, latency and throughput samples reduced to averages,
//! and finally one stored row per run.

mod clock;
pub mod report;
pub mod run;
pub mod sample;
pub mod store;

pub use report::{AggregateError, Measurement, Report, StoredRow};
pub use sample::{MICROS_PER_UNIT, Sample, SampleKind, mean_magnitude};
pub use store::{CREATE_REPORTS_TABLE, INSERT_REPORT};
pub use run::{Action, Event, Run, RunConfig, RunError, Stage};
