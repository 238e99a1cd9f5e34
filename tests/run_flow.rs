use speed_reports::{
    Action, AggregateError, Event, Run, RunConfig, RunError, Sample, SampleKind, Stage,
    StoredRow, MICROS_PER_UNIT,
};

fn sample(kind: SampleKind, units: u64) -> Sample {
    Sample { kind, magnitude: units * MICROS_PER_UNIT }
}

/// Feeds `events` to a fresh run; returns the run and every action it asked for.
fn drive(events: Vec<Event>) -> (Run, Vec<Action>) {
    let (mut run, first) = Run::start(RunConfig::standard());
    let mut actions = vec![first];
    for event in events {
        let (next, action) = run.step(event);
        run = next;
        actions.push(action);
    }
    (run, actions)
}

/// The rows that `actions` ask to be stored.
fn rows(actions: Vec<Action>) -> Vec<StoredRow> {
    let mut rows = Vec::new();
    for action in actions {
        if let Action::Insert { time, report } = action {
            rows.push(report.into_row(time));
        }
    }
    rows
}

#[test]
fn standard_config() {
    let c = RunConfig::standard();
    assert_eq!(c.latency_samples, 16);
    assert_eq!(c.payload_size, 1_000_000);
    assert_eq!(c.throughput_samples, 16);
    assert!(!c.disable_dynamic_sizing);
}

#[test]
fn start_stamps_the_run_and_asks_for_probe() {
    let (run, action) = Run::start(RunConfig::standard());
    // 2020-01-01T00:00:00Z in microseconds: the clock was read.
    assert!(run.started > 1_577_836_800_000_000);
    assert!(matches!(run.stage, Stage::Probing));
    assert!(matches!(action, Action::Probe));
}

#[test]
fn start_at_keeps_the_given_instant() {
    let config = RunConfig { latency_samples: 3, payload_size: 10, throughput_samples: 2, disable_dynamic_sizing: true };
    let (run, action) = Run::start_at(config, -5);
    assert_eq!(run.started, -5);
    assert_eq!(run.config, config);
    assert!(matches!(run.stage, Stage::Probing));
    assert!(matches!(action, Action::Probe));
}

#[test]
fn failed_probe_row_carries_the_start_instant() {
    let (run, _) = Run::start_at(RunConfig::standard(), 1_700_000_000_000_000);
    let (_, action) = run.step(Event::ProbeFailed);
    let rows = rows(vec![action]);
    assert_eq!(rows.len(), 1);
    assert_eq!(rows[0].time, 1_700_000_000_000_000);
}

#[test]
fn probe_failure_stores_sentinel_row() {
    let (run, actions) = drive(vec![Event::ProbeFailed, Event::Stored]);
    assert!(matches!(run.stage, Stage::Done));
    assert!(matches!(actions[2], Action::Finish));
    let rows = rows(actions);
    assert_eq!(rows.len(), 1);
    let row = &rows[0];
    assert_eq!(row.time, run.started);
    assert!(!row.ping_succeeded);
    assert_eq!(row.metadata, "N/A");
    assert_eq!((row.avg_latency, row.avg_down, row.avg_up), (0, 0, 0));
}

#[test]
fn probe_success_stores_averages() {
    let (run, actions) = drive(vec![
        Event::ProbeSucceeded,
        Event::Metadata("example-endpoint".to_string()),
        Event::Latency(15 * MICROS_PER_UNIT),
        Event::Samples(vec![sample(SampleKind::Download, 100), sample(SampleKind::Download, 200)]),
        Event::Samples(vec![sample(SampleKind::Upload, 50)]),
        Event::Stored,
    ]);
    assert!(matches!(actions[1], Action::FetchMetadata));
    assert!(matches!(actions[2], Action::MeasureLatency { samples: 16 }));
    assert!(matches!(
        actions[3],
        Action::MeasureThroughput { kind: SampleKind::Download, payload_size: 1_000_000, samples: 16, disable_dynamic_sizing: false }
    ));
    assert!(matches!(
        actions[4],
        Action::MeasureThroughput { kind: SampleKind::Upload, payload_size: 1_000_000, samples: 16, disable_dynamic_sizing: false }
    ));
    assert!(matches!(actions[6], Action::Finish));
    assert!(matches!(run.stage, Stage::Done));
    let rows = rows(actions);
    assert_eq!(rows.len(), 1);
    let row = &rows[0];
    assert_eq!(row.time, run.started);
    assert!(row.ping_succeeded);
    assert_eq!(row.metadata, "example-endpoint");
    assert_eq!(row.avg_latency, 15 * MICROS_PER_UNIT);
    assert_eq!(row.avg_down, 150 * MICROS_PER_UNIT);
    assert_eq!(row.avg_up, 50 * MICROS_PER_UNIT);
}

#[test]
fn empty_download_set_aborts_without_row() {
    let (run, actions) = drive(vec![
        Event::ProbeSucceeded,
        Event::Metadata("m".to_string()),
        Event::Latency(1),
        Event::Samples(Vec::new()),
        Event::Samples(vec![sample(SampleKind::Upload, 50)]),
    ]);
    assert!(matches!(run.stage, Stage::Aborted));
    assert!(matches!(actions[5], Action::Abort(RunError::Aggregate(AggregateError::NoDownloadSamples))));
    assert!(rows(actions).is_empty());
}

#[test]
fn empty_upload_set_aborts_without_row() {
    let (run, actions) = drive(vec![
        Event::ProbeSucceeded,
        Event::Metadata("m".to_string()),
        Event::Latency(1),
        Event::Samples(vec![sample(SampleKind::Download, 50)]),
        Event::Samples(Vec::new()),
    ]);
    assert!(matches!(run.stage, Stage::Aborted));
    assert!(matches!(actions[5], Action::Abort(RunError::Aggregate(AggregateError::NoUploadSamples))));
    assert!(rows(actions).is_empty());
}

#[test]
fn unexpected_event_aborts() {
    let (run, actions) = drive(vec![Event::Stored]);
    assert!(matches!(run.stage, Stage::Aborted));
    assert!(matches!(actions[1], Action::Abort(RunError::UnexpectedEvent)));
    assert!(rows(actions).is_empty());
}

#[test]
fn one_row_per_run_even_when_fed_more_events() {
    let (_, actions) = drive(vec![
        Event::ProbeFailed,
        Event::ProbeFailed,
        Event::Stored,
        Event::ProbeSucceeded,
    ]);
    let inserts = actions.iter().filter(|a| matches!(a, Action::Insert { .. })).count();
    assert_eq!(inserts, 1);
    assert_eq!(rows(actions).len(), 1);
}

#[test]
fn one_row_per_run_for_both_probe_outcomes() {
    let (failed, failed_actions) = drive(vec![Event::ProbeFailed, Event::Stored]);
    let (succeeded, succeeded_actions) = drive(vec![
        Event::ProbeSucceeded,
        Event::Metadata("m".to_string()),
        Event::Latency(1),
        Event::Samples(vec![sample(SampleKind::Download, 1)]),
        Event::Samples(vec![sample(SampleKind::Upload, 1)]),
        Event::Stored,
    ]);
    assert!(matches!(failed.stage, Stage::Done));
    assert!(matches!(succeeded.stage, Stage::Done));
    assert_eq!(rows(failed_actions).len(), 1);
    assert_eq!(rows(succeeded_actions).len(), 1);
}
