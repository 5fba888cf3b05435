//! Iter orchestration driven with scripted host results, and the row worker decisions.

use valence_platform::iter::orchestrator::{
    IterOrchestrator, IterOrchestratorAction, IterOrchestratorEvent,
    ValenceIterOrchestratorRowDispatch, DEFAULT_BATCH_SIZE, ITER_RUN_MISSING, ITER_RUN_NOT_FOUND,
    POLL_INTERVAL_MS,
};
use valence_platform::iter::row_worker::{
    after_execute, after_load, after_should_run, bump_batch_field, bump_run_field, counters_for,
    inject_row_id_if_missing, maybe_complete_batch, missing_descriptor_error, row_worker_proceeds,
    IdField, RowOutcome, RowStep,
};
use valence_platform::iter::run_service::{default_initiated_by, IterRunOptions, IterService};
use valence_platform::model::{
    Actor, PlatformError, ValenceIterBatch, ValenceIterBatchStatus, ValenceIterRowErrorErrorKind,
    ValenceIterRun, ValenceIterRunStatus,
};

fn run(status: ValenceIterRunStatus, total: i64, done: (i64, i64, i64)) -> ValenceIterRun {
    ValenceIterRun {
        iter_name: "MarkProcessedIter".to_string(),
        target_table: "demo_note".to_string(),
        status,
        total_rows: total,
        scanned_rows: 0,
        processed_rows: done.0,
        skipped_rows: done.1,
        failed_rows: done.2,
        initiated_by: "tester".to_string(),
        target_row_id: None,
    }
}

fn batch(row_count: i64, done: (i64, i64, i64)) -> ValenceIterBatch {
    ValenceIterBatch {
        run_id: "r1".to_string(),
        batch_index: 0,
        status: ValenceIterBatchStatus::Processing,
        row_count,
        enqueued_count: row_count,
        processed: done.0,
        skipped: done.1,
        failed: done.2,
        cursor: None,
    }
}

/// Plays the host: returns the row ids dispatched, per batch, and the scanned counts written.
fn drive(
    o: &mut IterOrchestrator,
    pages: Vec<Vec<&str>>,
    start: ValenceIterRun,
    polls: Vec<ValenceIterRun>,
) -> (Vec<Vec<String>>, Vec<i64>, Vec<Option<String>>) {
    let mut pages = pages.into_iter();
    let mut polls = polls.into_iter();
    let mut batches: Vec<Vec<String>> = Vec::new();
    let mut scanned_written = Vec::new();
    let mut cursors = Vec::new();
    let mut scanned: i64 = 0;
    let mut started = false;
    for _ in 0..200 {
        match o.next_action() {
            IterOrchestratorAction::GetRun { run_id } => {
                assert_eq!(run_id, "r1");
                // The first read sees the run as started; later reads (before polling) see it
                // scanning.
                let mut r = if !started {
                    started = true;
                    start.clone()
                } else {
                    run(ValenceIterRunStatus::Scanning, 0, (0, 0, 0))
                };
                r.scanned_rows = scanned;
                o.on_event(IterOrchestratorEvent::RunRead(Ok(Some(r))));
            }
            IterOrchestratorAction::MergeRun { patch, .. } => {
                if let Some(s) = patch.scanned_rows {
                    scanned = s;
                    scanned_written.push(s);
                }
                if patch.status == Some(ValenceIterRunStatus::Processing) {
                    // Polling starts now: hand back the scripted runs.
                    o.on_event(IterOrchestratorEvent::Written(Ok(())));
                    return poll(o, &mut polls, batches, scanned_written, cursors);
                }
                o.on_event(IterOrchestratorEvent::Written(Ok(())));
            }
            IterOrchestratorAction::CountRows { table } => {
                assert_eq!(table, "demo_note");
                o.on_event(IterOrchestratorEvent::Counted(Ok(3)));
            }
            IterOrchestratorAction::PageRowIds { table, after, limit } => {
                assert_eq!(table, "demo_note");
                assert_eq!(limit, DEFAULT_BATCH_SIZE);
                cursors.push(after);
                let page: Vec<String> =
                    pages.next().unwrap_or_default().into_iter().map(String::from).collect();
                o.on_event(IterOrchestratorEvent::PageFetched(Ok(page)));
            }
            IterOrchestratorAction::UpsertBatch { batch_id, batch } => {
                assert_eq!(batch_id.len(), 36);
                assert_eq!(batch_id.chars().nth(14), Some('4'));
                assert_eq!(batch.batch_index, batches.len() as i64);
                assert_eq!(batch.status, ValenceIterBatchStatus::Enqueuing);
                batches.push(Vec::new());
                o.on_event(IterOrchestratorEvent::Written(Ok(())));
            }
            IterOrchestratorAction::DispatchRow { row_id, iter_name, table, .. } => {
                assert_eq!(iter_name, "MarkProcessedIter");
                assert_eq!(table, "demo_note");
                batches.last_mut().unwrap().push(row_id);
                o.on_event(IterOrchestratorEvent::RowDispatched(Ok(())));
            }
            IterOrchestratorAction::MergeBatch { patch, .. } => {
                if let Some(n) = patch.enqueued_count {
                    assert_eq!(n, batches.last().unwrap().len() as i64);
                }
                o.on_event(IterOrchestratorEvent::Written(Ok(())));
            }
            IterOrchestratorAction::Sleep { .. } => panic!("sleep before polling"),
            IterOrchestratorAction::Finish(_) => return (batches, scanned_written, cursors),
        }
    }
    panic!("orchestration did not end")
}

fn poll(
    o: &mut IterOrchestrator,
    polls: &mut std::vec::IntoIter<ValenceIterRun>,
    batches: Vec<Vec<String>>,
    scanned: Vec<i64>,
    cursors: Vec<Option<String>>,
) -> (Vec<Vec<String>>, Vec<i64>, Vec<Option<String>>) {
    for _ in 0..50 {
        match o.next_action() {
            IterOrchestratorAction::GetRun { .. } => {
                let r = polls.next().expect("scripted poll");
                o.on_event(IterOrchestratorEvent::RunRead(Ok(Some(r))));
            }
            IterOrchestratorAction::Sleep { ms } => {
                assert_eq!(ms, POLL_INTERVAL_MS);
                o.on_event(IterOrchestratorEvent::Slept);
            }
            IterOrchestratorAction::MergeRun { .. } => {
                o.on_event(IterOrchestratorEvent::Written(Ok(())));
            }
            IterOrchestratorAction::Finish(_) => return (batches, scanned, cursors),
            _ => panic!("unexpected action while polling"),
        }
    }
    panic!("polling did not end")
}

#[test]
fn scan_pages_batches_and_completes() {
    let mut o =
        IterOrchestrator::new("r1".to_string(), ValenceIterOrchestratorRowDispatch::InlineWorker);
    let start = run(ValenceIterRunStatus::Pending, 0, (0, 0, 0));
    let polls = vec![
        run(ValenceIterRunStatus::Processing, 3, (1, 0, 0)),
        run(ValenceIterRunStatus::Processing, 3, (1, 2, 0)),
    ];
    let (batches, scanned, cursors) =
        drive(&mut o, vec![vec!["n1", "n2"], vec!["n3"], vec![]], start, polls);
    assert_eq!(batches, vec![vec!["n1".to_string(), "n2".to_string()], vec!["n3".to_string()]]);
    assert_eq!(scanned, vec![2, 3]);
    assert_eq!(cursors, vec![None, Some("n2".to_string()), Some("n3".to_string())]);
    assert!(matches!(o.next_action(), IterOrchestratorAction::Finish(Ok(()))));
}

#[test]
fn failed_rows_fail_the_run() {
    let mut o =
        IterOrchestrator::new("r1".to_string(), ValenceIterOrchestratorRowDispatch::BosonQueue);
    o.on_event(IterOrchestratorEvent::RunRead(Ok(Some(run(ValenceIterRunStatus::Pending, 0, (0, 0, 0))))));
    o.on_event(IterOrchestratorEvent::Written(Ok(())));
    o.on_event(IterOrchestratorEvent::Counted(Ok(0)));
    o.on_event(IterOrchestratorEvent::Written(Ok(())));
    o.on_event(IterOrchestratorEvent::RunRead(Ok(Some(run(ValenceIterRunStatus::Scanning, 0, (0, 0, 0))))));
    o.on_event(IterOrchestratorEvent::PageFetched(Ok(Vec::new())));
    match o.next_action() {
        IterOrchestratorAction::MergeRun { patch, .. } => {
            assert_eq!(patch.status, Some(ValenceIterRunStatus::Processing))
        }
        _ => panic!("expected processing"),
    }
    o.on_event(IterOrchestratorEvent::Written(Ok(())));
    o.on_event(IterOrchestratorEvent::RunRead(Ok(Some(run(ValenceIterRunStatus::Processing, 4, (2, 1, 1))))));
    match o.next_action() {
        IterOrchestratorAction::MergeRun { patch, .. } => {
            assert_eq!(patch.status, Some(ValenceIterRunStatus::Failed));
            assert!(patch.stamp_completed_at);
        }
        _ => panic!("expected the terminal merge"),
    }
    o.on_event(IterOrchestratorEvent::Written(Ok(())));
    assert!(matches!(o.next_action(), IterOrchestratorAction::Finish(Ok(()))));
}

#[test]
fn cancelled_run_stops_at_every_check() {
    let mut o =
        IterOrchestrator::new("r1".to_string(), ValenceIterOrchestratorRowDispatch::BosonQueue);
    o.on_event(IterOrchestratorEvent::RunRead(Ok(Some(run(ValenceIterRunStatus::Cancelled, 0, (0, 0, 0))))));
    assert!(matches!(o.next_action(), IterOrchestratorAction::Finish(Ok(()))));

    let mut o =
        IterOrchestrator::new("r1".to_string(), ValenceIterOrchestratorRowDispatch::BosonQueue);
    o.on_event(IterOrchestratorEvent::RunRead(Ok(Some(run(ValenceIterRunStatus::Pending, 0, (0, 0, 0))))));
    o.on_event(IterOrchestratorEvent::Written(Ok(())));
    o.on_event(IterOrchestratorEvent::Counted(Ok(10)));
    o.on_event(IterOrchestratorEvent::Written(Ok(())));
    o.on_event(IterOrchestratorEvent::RunRead(Ok(Some(run(ValenceIterRunStatus::Cancelled, 10, (0, 0, 0))))));
    assert!(matches!(o.next_action(), IterOrchestratorAction::Finish(Ok(()))));
}

#[test]
fn missing_run_is_an_error() {
    let mut o =
        IterOrchestrator::new("r1".to_string(), ValenceIterOrchestratorRowDispatch::BosonQueue);
    o.on_event(IterOrchestratorEvent::RunRead(Ok(None)));
    match o.next_action() {
        IterOrchestratorAction::Finish(Err(m)) => assert_eq!(m, ITER_RUN_NOT_FOUND),
        _ => panic!("expected an error"),
    }
    let mut o =
        IterOrchestrator::new("r1".to_string(), ValenceIterOrchestratorRowDispatch::BosonQueue);
    o.on_event(IterOrchestratorEvent::RunRead(Ok(Some(run(ValenceIterRunStatus::Pending, 0, (0, 0, 0))))));
    o.on_event(IterOrchestratorEvent::Written(Ok(())));
    o.on_event(IterOrchestratorEvent::Counted(Ok(0)));
    o.on_event(IterOrchestratorEvent::Written(Ok(())));
    o.on_event(IterOrchestratorEvent::RunRead(Ok(Some(run(ValenceIterRunStatus::Scanning, 0, (0, 0, 0))))));
    o.on_event(IterOrchestratorEvent::PageFetched(Ok(Vec::new())));
    o.on_event(IterOrchestratorEvent::Written(Ok(())));
    o.on_event(IterOrchestratorEvent::RunRead(Ok(None)));
    match o.next_action() {
        IterOrchestratorAction::Finish(Err(m)) => assert_eq!(m, ITER_RUN_MISSING),
        _ => panic!("expected an error"),
    }
}

#[test]
fn target_row_scans_one_row() {
    let mut o =
        IterOrchestrator::new("r1".to_string(), ValenceIterOrchestratorRowDispatch::InlineWorker);
    let mut start = run(ValenceIterRunStatus::Pending, 0, (0, 0, 0));
    start.target_row_id = Some("n2".to_string());
    o.on_event(IterOrchestratorEvent::RunRead(Ok(Some(start))));
    o.on_event(IterOrchestratorEvent::Written(Ok(())));
    match o.next_action() {
        IterOrchestratorAction::MergeRun { patch, .. } => assert_eq!(patch.total_rows, Some(1)),
        _ => panic!("expected total_rows = 1 without counting"),
    }
    o.on_event(IterOrchestratorEvent::Written(Ok(())));
    o.on_event(IterOrchestratorEvent::RunRead(Ok(Some(run(ValenceIterRunStatus::Scanning, 1, (0, 0, 0))))));
    match o.next_action() {
        IterOrchestratorAction::UpsertBatch { batch, .. } => {
            assert_eq!(batch.row_count, 1);
            assert_eq!(batch.cursor.as_deref(), Some("n2"));
        }
        _ => panic!("expected the single-row batch"),
    }
    o.on_event(IterOrchestratorEvent::Written(Ok(())));
    match o.next_action() {
        IterOrchestratorAction::DispatchRow { row_id, .. } => assert_eq!(row_id, "n2"),
        _ => panic!("expected the row"),
    }
    o.on_event(IterOrchestratorEvent::RowDispatched(Ok(())));
    o.on_event(IterOrchestratorEvent::Written(Ok(())));
    o.on_event(IterOrchestratorEvent::Written(Ok(())));
    o.on_event(IterOrchestratorEvent::RunRead(Ok(Some(run(ValenceIterRunStatus::Scanning, 1, (0, 0, 0))))));
    o.on_event(IterOrchestratorEvent::Written(Ok(())));
    o.on_event(IterOrchestratorEvent::RunRead(Ok(Some(run(ValenceIterRunStatus::Scanning, 1, (0, 0, 0))))));
    match o.next_action() {
        IterOrchestratorAction::MergeRun { patch, .. } => {
            assert_eq!(patch.status, Some(ValenceIterRunStatus::Processing))
        }
        _ => panic!("expected the scan to end after the target row"),
    }
}

#[test]
fn row_worker_steps() {
    assert!(!row_worker_proceeds(&None));
    assert!(!row_worker_proceeds(&Some(run(ValenceIterRunStatus::Cancelled, 0, (0, 0, 0)))));
    assert!(row_worker_proceeds(&Some(run(ValenceIterRunStatus::Processing, 0, (0, 0, 0)))));

    assert!(matches!(after_load(Ok(())), RowStep::EvaluateShouldRun));
    assert!(matches!(
        after_load(Err("gone".to_string())),
        RowStep::Record(RowOutcome::Failed { kind: ValenceIterRowErrorErrorKind::ShouldRunError, message })
            if message == "gone"
    ));
    assert!(matches!(after_should_run(Ok(true)), RowStep::Execute));
    assert!(matches!(after_should_run(Ok(false)), RowStep::Record(RowOutcome::Skipped)));
    assert!(matches!(
        after_should_run(Err("bad".to_string())),
        RowStep::Record(RowOutcome::Failed { kind: ValenceIterRowErrorErrorKind::ShouldRunError, .. })
    ));
    assert!(matches!(after_execute(Ok(())), RowOutcome::Processed));
    assert!(matches!(
        after_execute(Err("boom".to_string())),
        RowOutcome::Failed { kind: ValenceIterRowErrorErrorKind::ExecuteError, message } if message == "boom"
    ));
    assert_eq!(counters_for(&RowOutcome::Processed), ("processed_rows", "processed"));
    assert_eq!(counters_for(&RowOutcome::Skipped), ("skipped_rows", "skipped"));
    assert_eq!(
        counters_for(&RowOutcome::Failed {
            kind: ValenceIterRowErrorErrorKind::ExecuteError,
            message: String::new()
        }),
        ("failed_rows", "failed")
    );
    assert_eq!(
        missing_descriptor_error("demo_note", "X"),
        "no IterDescriptor for table=demo_note iter=X"
    );
}

#[test]
fn counters_and_batch_completion() {
    let r = run(ValenceIterRunStatus::Processing, 3, (1, 1, 0));
    assert_eq!(bump_run_field(&r, "processed_rows", 1), Ok(2));
    assert_eq!(bump_run_field(&r, "failed_rows", 1), Ok(1));
    assert!(bump_run_field(&r, "total_rows", 1).is_err());
    let b = batch(3, (1, 1, 0));
    assert_eq!(bump_batch_field(&b, "skipped", 1), Ok(2));
    assert!(bump_batch_field(&b, "processed_rows", 1).is_err());
    assert!(!maybe_complete_batch(&b));
    assert!(maybe_complete_batch(&batch(3, (1, 1, 1))));
    assert!(maybe_complete_batch(&batch(0, (0, 0, 0))));
}

#[test]
fn row_payload_id_injection() {
    assert_eq!(
        inject_row_id_if_missing("demo_note", "n1", true, IdField::Missing),
        Some("demo_note:n1".to_string())
    );
    assert_eq!(
        inject_row_id_if_missing("demo_note", "n1", true, IdField::Null),
        Some("demo_note:n1".to_string())
    );
    assert_eq!(inject_row_id_if_missing("demo_note", "n1", true, IdField::Present), None);
    assert_eq!(inject_row_id_if_missing("demo_note", "n1", false, IdField::Missing), None);
}

#[test]
fn run_creation_and_options() {
    let actor = Actor::User { user_id: "u-7".to_string() };
    assert_eq!(default_initiated_by(&actor), "u-7");
    assert_eq!(default_initiated_by(&Actor::Anonymous), "anonymous");
    let created = IterService::create_run(
        &actor,
        "MarkProcessedIter",
        "demo_note",
        IterRunOptions::default().run_id("fixed").target_row_id("n2"),
    )
    .unwrap();
    assert_eq!(created.run_id, "fixed");
    assert_eq!(created.run.status, ValenceIterRunStatus::Pending);
    assert_eq!(created.run.initiated_by, "u-7");
    assert_eq!(created.run.target_row_id.as_deref(), Some("n2"));
    assert_eq!(created.run.total_rows, 0);
    let created = IterService::create_run(
        &actor,
        "MarkProcessedIter",
        "demo_note",
        IterRunOptions::default().initiated_by("ops"),
    )
    .unwrap();
    assert_eq!(created.run.initiated_by, "ops");
    assert_eq!(created.run_id.len(), 36);
    assert_eq!(created.run_id.chars().nth(14), Some('4'));
    assert!(matches!(created.run_id.chars().nth(19), Some('8' | '9' | 'a' | 'b')));
    assert!(created.run_id.chars().all(|c| c == '-' || c.is_ascii_digit() || ('a'..='f').contains(&c)));
    assert!(matches!(
        IterService::create_run(&actor, "", "demo_note", IterRunOptions::default()),
        Err(PlatformError::Validation(_))
    ));
    assert!(matches!(
        IterService::create_run(&actor, "X", "", IterRunOptions::default()),
        Err(PlatformError::Validation(_))
    ));
}
