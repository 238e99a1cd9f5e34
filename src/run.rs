use vstd::prelude::*;
use crate::clock::now_micros;
use crate::report::{AggregateError, Measurement, Report, StoredRow, aggregate_outcome, is_row_of};
use crate::sample::{kind_count, kind_mean};
use crate::sample::{Sample, SampleKind};

verus! {

/// The parameters of a run.
#[derive(Clone, Copy, Debug, PartialEq, Eq, Structural)]
pub struct RunConfig {
    /// How many latency round trips to take.
    pub latency_samples: u32,
    /// The payload of each throughput trial, in bytes.
    pub payload_size: usize,
    /// How many throughput trials to run for each direction.
    pub throughput_samples: u32,
    /// Whether to keep the measurement service from cutting a series of
    /// throughput trials short when they run slowly.
    pub disable_dynamic_sizing: bool,
}

impl RunConfig {
    /// The standard configuration: 16 latency samples, 16 trials of 1 MB in
    /// each direction, with the service's dynamic sizing left as it is.
    pub fn standard() -> (r: RunConfig)
        ensures
            r.latency_samples == 16,
            r.payload_size == 1_000_000,
            r.throughput_samples == 16,
            !r.disable_dynamic_sizing,
    {
        RunConfig {
            latency_samples: 16,
            payload_size: 1_000_000,
            throughput_samples: 16,
            disable_dynamic_sizing: false,
        }
    }
}

/// Where a run stands, with what it has gathered so far.
#[derive(Debug)]
pub enum Stage {
    /// Waiting for the outcome of the reachability probe.
    Probing,
    /// The probe succeeded; waiting for the endpoint's description.
    FetchingMetadata,
    /// Waiting for the mean latency.
    MeasuringLatency { metadata: String },
    /// Waiting for the download samples.
    MeasuringDownload { metadata: String, avg_latency: u64 },
    /// Waiting for the upload samples.
    MeasuringUpload { metadata: String, avg_latency: u64, download: Vec<Sample> },
    /// The row has been handed out for storage; waiting for it to be stored.
    Storing,
    /// The row is stored: the run is over.
    Done,
    /// The run stopped without a row to store, or after an event out of order.
    Aborted,
}

/// What the outside world reports back to a run.
#[derive(Debug)]
pub enum Event {
    ProbeSucceeded,
    ProbeFailed,
    /// The description of the measurement endpoint.
    Metadata(String),
    /// The mean latency, in the units of `Sample`.
    Latency(u64),
    /// The samples of one throughput test.
    Samples(Vec<Sample>),
    /// The row has been appended to the store.
    Stored,
}

/// Why a run stopped without storing a row.
#[derive(Clone, Copy, Debug, PartialEq, Eq, Structural)]
pub enum RunError {
    /// The throughput samples could not be reduced to averages.
    Aggregate(AggregateError),
    /// An event arrived that the run's stage does not expect.
    UnexpectedEvent,
}

/// What a run asks the outside world to do next.
#[derive(Debug)]
pub enum Action {
    /// Send one reachability probe.
    Probe,
    /// Fetch the description of the measurement endpoint.
    FetchMetadata,
    /// Take latency samples and report their mean.
    MeasureLatency { samples: u32 },
    /// Run throughput trials of one kind and report their samples.
    MeasureThroughput { kind: SampleKind, payload_size: usize, samples: u32, disable_dynamic_sizing: bool },
    /// Append the row of `report`, stamped with `time`, to the store.
    Insert { time: i64, report: Report },
    /// Nothing is left to do.
    Finish,
    /// Stop: nothing will be stored by this run.
    Abort(RunError),
}

/// One run, from the probe to the stored row.
#[derive(Debug)]
pub struct Run {
    pub config: RunConfig,
    /// When the run started, in microseconds since the Unix epoch (UTC).
    pub started: i64,
    pub stage: Stage,
}

/// The throughput trials that `config` asks for, of the given kind.
pub open spec fn throughput_action(config: RunConfig, kind: SampleKind) -> Action {
    Action::MeasureThroughput {
        kind,
        payload_size: config.payload_size,
        samples: config.throughput_samples,
        disable_dynamic_sizing: config.disable_dynamic_sizing,
    }
}

/// `run` at another stage.
pub open spec fn at(run: Run, stage: Stage) -> Run {
    Run { config: run.config, started: run.started, stage }
}

/// How a run answers an event: its next state and what it asks for.
pub open spec fn next(run: Run, event: Event) -> (Run, Action) {
    match run.stage {
        Stage::Probing => match event {
            Event::ProbeFailed => (
                at(run, Stage::Storing),
                Action::Insert { time: run.started, report: Report::PingFailed },
            ),
            Event::ProbeSucceeded => (at(run, Stage::FetchingMetadata), Action::FetchMetadata),
            _ => (at(run, Stage::Aborted), Action::Abort(RunError::UnexpectedEvent)),
        },
        Stage::FetchingMetadata => match event {
            Event::Metadata(metadata) => (
                at(run, Stage::MeasuringLatency { metadata }),
                Action::MeasureLatency { samples: run.config.latency_samples },
            ),
            _ => (at(run, Stage::Aborted), Action::Abort(RunError::UnexpectedEvent)),
        },
        Stage::MeasuringLatency { metadata } => match event {
            Event::Latency(avg_latency) => (
                at(run, Stage::MeasuringDownload { metadata, avg_latency }),
                throughput_action(run.config, SampleKind::Download),
            ),
            _ => (at(run, Stage::Aborted), Action::Abort(RunError::UnexpectedEvent)),
        },
        Stage::MeasuringDownload { metadata, avg_latency } => match event {
            Event::Samples(download) => (
                at(run, Stage::MeasuringUpload { metadata, avg_latency, download }),
                throughput_action(run.config, SampleKind::Upload),
            ),
            _ => (at(run, Stage::Aborted), Action::Abort(RunError::UnexpectedEvent)),
        },
        Stage::MeasuringUpload { metadata, avg_latency, download } => match event {
            Event::Samples(upload) => match aggregate_outcome(download@ + upload@) {
                Ok((avg_down, avg_up)) => (
                    at(run, Stage::Storing),
                    Action::Insert {
                        time: run.started,
                        report: Report::PingSucceeded(
                            Measurement { metadata, avg_latency, avg_down, avg_up },
                        ),
                    },
                ),
                Err(e) => (at(run, Stage::Aborted), Action::Abort(RunError::Aggregate(e))),
            },
            _ => (at(run, Stage::Aborted), Action::Abort(RunError::UnexpectedEvent)),
        },
        Stage::Storing => match event {
            Event::Stored => (at(run, Stage::Done), Action::Finish),
            _ => (at(run, Stage::Aborted), Action::Abort(RunError::UnexpectedEvent)),
        },
        _ => (at(run, Stage::Aborted), Action::Abort(RunError::UnexpectedEvent)),
    }
}

impl Run {
    /// Starts a run that began at `started` (microseconds since the Unix
    /// epoch, UTC): it first asks for the reachability probe.
    pub fn start_at(config: RunConfig, started: i64) -> (r: (Run, Action))
        ensures
            r.0.config == config,
            r.0.started == started,
            r.0.stage is Probing,
            r.1 is Probe,
    {
        (Run { config, started, stage: Stage::Probing }, Action::Probe)
    }

    /// Starts a run now, stamped with the system clock's reading.
    pub fn start(config: RunConfig) -> (r: (Run, Action))
        ensures
            r.0.config == config,
            r.0.stage is Probing,
            r.1 is Probe,
    {
        Run::start_at(config, now_micros())
    }

    /// Feeds one event to the run: returns the run's next state and the
    /// action it asks for, as `next` states.
    pub fn step(self, event: Event) -> (r: (Run, Action))
        ensures
            r == next(self, event),
    {
        let Run { config, started, stage } = self;
        let unexpected = Action::Abort(RunError::UnexpectedEvent);
        match stage {
            Stage::Probing => match event {
                Event::ProbeFailed => (
                    Run { config, started, stage: Stage::Storing },
                    Action::Insert { time: started, report: Report::PingFailed },
                ),
                Event::ProbeSucceeded => (
                    Run { config, started, stage: Stage::FetchingMetadata },
                    Action::FetchMetadata,
                ),
                _ => (Run { config, started, stage: Stage::Aborted }, unexpected),
            },
            Stage::FetchingMetadata => match event {
                Event::Metadata(metadata) => (
                    Run { config, started, stage: Stage::MeasuringLatency { metadata } },
                    Action::MeasureLatency { samples: config.latency_samples },
                ),
                _ => (Run { config, started, stage: Stage::Aborted }, unexpected),
            },
            Stage::MeasuringLatency { metadata } => match event {
                Event::Latency(avg_latency) => (
                    Run { config, started, stage: Stage::MeasuringDownload { metadata, avg_latency } },
                    Action::MeasureThroughput {
                        kind: SampleKind::Download,
                        payload_size: config.payload_size,
                        samples: config.throughput_samples,
                        disable_dynamic_sizing: config.disable_dynamic_sizing,
                    },
                ),
                _ => (Run { config, started, stage: Stage::Aborted }, unexpected),
            },
            Stage::MeasuringDownload { metadata, avg_latency } => match event {
                Event::Samples(download) => (
                    Run {
                        config,
                        started,
                        stage: Stage::MeasuringUpload { metadata, avg_latency, download },
                    },
                    Action::MeasureThroughput {
                        kind: SampleKind::Upload,
                        payload_size: config.payload_size,
                        samples: config.throughput_samples,
                        disable_dynamic_sizing: config.disable_dynamic_sizing,
                    },
                ),
                _ => (Run { config, started, stage: Stage::Aborted }, unexpected),
            },
            Stage::MeasuringUpload { metadata, avg_latency, download } => match event {
                Event::Samples(upload) => {
                    let mut samples = download;
                    let mut upload = upload;
                    samples.append(&mut upload);
                    match Measurement::aggregate(metadata, avg_latency, &samples) {
                        Ok(m) => (
                            Run { config, started, stage: Stage::Storing },
                            Action::Insert { time: started, report: Report::PingSucceeded(m) },
                        ),
                        Err(e) => (
                            Run { config, started, stage: Stage::Aborted },
                            Action::Abort(RunError::Aggregate(e)),
                        ),
                    }
                },
                _ => (Run { config, started, stage: Stage::Aborted }, unexpected),
            },
            Stage::Storing => match event {
                Event::Stored => (Run { config, started, stage: Stage::Done }, Action::Finish),
                _ => (Run { config, started, stage: Stage::Aborted }, unexpected),
            },
            _ => (Run { config, started, stage: Stage::Aborted }, unexpected),
        }
    }
}

/// The state `run` ends in after answering `events` in order, and the actions
/// it asked for on the way.
pub open spec fn trace(run: Run, events: Seq<Event>) -> (Run, Seq<Action>)
    decreases events.len(),
{
    if events.len() == 0 {
        (run, Seq::empty())
    } else {
        let (before, actions) = trace(run, events.drop_last());
        let (after, action) = next(before, events.last());
        (after, actions.push(action))
    }
}

/// How many of `actions` ask for a row to be stored.
pub open spec fn insert_count(actions: Seq<Action>) -> nat
    decreases actions.len(),
{
    if actions.len() == 0 {
        0
    } else {
        insert_count(actions.drop_last()) + if actions.last() is Insert {
            1nat
        } else {
            0nat
        }
    }
}

/// The stages before the row is handed out.
pub open spec fn gathering(stage: Stage) -> bool {
    ||| stage is Probing
    ||| stage is FetchingMetadata
    ||| stage is MeasuringLatency
    ||| stage is MeasuringDownload
    ||| stage is MeasuringUpload
}

proof fn lemma_trace_counts_inserts(run: Run, events: Seq<Event>)
    requires
        run.stage is Probing,
    ensures
        gathering(trace(run, events).0.stage) ==> insert_count(trace(run, events).1) == 0,
        trace(run, events).0.stage is Storing ==> insert_count(trace(run, events).1) == 1,
        trace(run, events).0.stage is Done ==> insert_count(trace(run, events).1) == 1,
        insert_count(trace(run, events).1) <= 1,
    decreases events.len(),
{
    if events.len() > 0 {
        lemma_trace_counts_inserts(run, events.drop_last());
        let (before, actions) = trace(run, events.drop_last());
        let (after, action) = next(before, events.last());
        assert(actions.push(action).drop_last() == actions);
    }
}

/// One row per run: from its probe on, a run asks for at most one row to be
/// stored, whatever events it is fed, and a run that is done has asked for
/// exactly one, whether its probe failed or succeeded.
pub proof fn lemma_one_row_per_run(run: Run, events: Seq<Event>)
    requires
        run.stage is Probing,
    ensures
        insert_count(trace(run, events).1) <= 1,
        trace(run, events).0.stage is Done ==> insert_count(trace(run, events).1) == 1,
{
    lemma_trace_counts_inserts(run, events);
}

/// A failed probe is recorded: the run asks at once for the row of
/// `PingFailed`, stamped with its start, and that row says that the probe
/// failed, with metadata `N/A` and all three averages zero.
pub proof fn lemma_failed_probe_row(run: Run, row: StoredRow)
    requires
        run.stage is Probing,
        is_row_of(row, Report::PingFailed, run.started),
    ensures
        next(run, Event::ProbeFailed).0.stage is Storing,
        next(run, Event::ProbeFailed).1 == (Action::Insert {
            time: run.started,
            report: Report::PingFailed,
        }),
        row.time == run.started,
        !row.ping_succeeded,
        row.metadata@ == "N/A"@,
        row.avg_latency == 0,
        row.avg_down == 0,
        row.avg_up == 0,
{
}

/// A successful run stores the means of its samples: when both throughput
/// tests gave samples of their kind, the row asked for holds the metadata and
/// mean latency reported, and the means of the download and of the upload
/// samples among all the samples taken.
pub proof fn lemma_succeeded_row_means(run: Run, upload: Vec<Sample>)
    requires
        run.stage is MeasuringUpload,
        kind_count(run.stage->download@ + upload@, SampleKind::Download) > 0,
        kind_count(run.stage->download@ + upload@, SampleKind::Upload) > 0,
    ensures
        next(run, Event::Samples(upload)).0.stage is Storing,
        next(run, Event::Samples(upload)).1 matches Action::Insert {
            time,
            report: Report::PingSucceeded(m),
        } && time == run.started && m.metadata == run.stage->MeasuringUpload_metadata
            && m.avg_latency == run.stage->MeasuringUpload_avg_latency && kind_mean(
            run.stage->download@ + upload@,
            SampleKind::Download,
        ) == Some(m.avg_down as nat) && kind_mean(
            run.stage->download@ + upload@,
            SampleKind::Upload,
        ) == Some(m.avg_up as nat),
{
    let all = run.stage->download@ + upload@;
    crate::sample::lemma_mean_fits(all, SampleKind::Download);
    crate::sample::lemma_mean_fits(all, SampleKind::Upload);
}

} // verus!
