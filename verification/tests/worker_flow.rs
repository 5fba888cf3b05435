//! The deletion step worker and the iter row worker driven with scripted host results.

use valence_platform::deletion::run_service::RunFields;
use valence_platform::deletion::step_worker::{
    step_row_for_node, StepWorker, StepWorkerAction, StepWorkerEvent, DELETION_RUN_MISSING,
};
use valence_platform::iter::paging::keyset_page;
use valence_platform::iter::row_worker::{
    RowWorker, RowWorkerAction, RowWorkerEvent, ITER_RUN_MISSING_FOR_COUNTER,
};
use valence_platform::model::{
    DeletionAction, DeletionNode, ValenceDeletionStep, ValenceDeletionStepStatus,
    ValenceIterBatch, ValenceIterBatchStatus, ValenceIterRowErrorErrorKind, ValenceIterRun,
    ValenceIterRunStatus,
};

fn fields(status: &str, completed: Option<i64>, failed: Option<i64>) -> RunFields {
    RunFields {
        status: Some(status.to_string()),
        root_table: Some("widget".to_string()),
        root_record_id: Some("w1".to_string()),
        completed_steps: completed,
        failed_steps: failed,
    }
}

fn step(action: DeletionAction) -> ValenceDeletionStep {
    step_row_for_node(
        "r1",
        &DeletionNode {
            table: "gadget".to_string(),
            record_id: "g1".to_string(),
            action,
            depth: 1,
            connection_name: "owner".to_string(),
            from_table: "widget".to_string(),
        },
    )
}

/// Answers every action with success, the given run and step rows, and apply result; returns
/// the actions' names in order and the counter write.
fn drive_step(
    run: RunFields,
    row: Option<ValenceDeletionStep>,
    applied: Result<(), String>,
) -> (Vec<&'static str>, Option<(&'static str, i64)>, Result<(), String>) {
    let mut w = StepWorker::new("r1".to_string(), "s1".to_string());
    let mut trail = Vec::new();
    let mut counter = None;
    let mut row = Some(row);
    for _ in 0..32 {
        let e = match w.next_action() {
            StepWorkerAction::RestoreRequester { run_id } => {
                assert_eq!(run_id, "r1");
                trail.push("restore");
                StepWorkerEvent::RequesterRestored(Ok(()))
            }
            StepWorkerAction::LoadRun { .. } => {
                trail.push("load_run");
                StepWorkerEvent::RunRead(Ok(Some(run.clone())))
            }
            StepWorkerAction::LoadStep { step_id } => {
                assert_eq!(step_id, "s1");
                trail.push("load_step");
                StepWorkerEvent::StepRead(Ok(row.take().unwrap()))
            }
            StepWorkerAction::MergeStep { patch, .. } => {
                trail.push(match patch.status {
                    ValenceDeletionStepStatus::InProgress => "start",
                    ValenceDeletionStepStatus::Skipped => "skip",
                    ValenceDeletionStepStatus::Completed => "close_completed",
                    ValenceDeletionStepStatus::Failed => "close_failed",
                    ValenceDeletionStepStatus::Queued => "queued",
                });
                StepWorkerEvent::Written(Ok(()))
            }
            StepWorkerAction::Apply { node } => {
                assert_eq!(node.record_id, "g1");
                trail.push("apply");
                StepWorkerEvent::Applied(applied.clone())
            }
            StepWorkerAction::MarkOwnershipDeleted { table, record_id } => {
                assert_eq!((table.as_str(), record_id.as_str()), ("gadget", "g1"));
                trail.push("ownership");
                StepWorkerEvent::Written(Err("no ownership".to_string()))
            }
            StepWorkerAction::RecordError { row } => {
                assert_eq!(row.step_id, "s1");
                assert_eq!(row.record_id, "g1");
                trail.push("error_row");
                StepWorkerEvent::Written(Ok(()))
            }
            StepWorkerAction::SetRunCounter { field, value, .. } => {
                trail.push("counter");
                counter = Some((field, value));
                StepWorkerEvent::Written(Ok(()))
            }
            StepWorkerAction::Finish(r) => return (trail, counter, r),
        };
        w.on_event(e);
    }
    panic!("step worker did not end")
}

#[test]
fn applied_cascade_step_marks_ownership_and_counts_completed() {
    let (trail, counter, r) =
        drive_step(fields("processing", Some(4), None), Some(step(DeletionAction::CascadeDelete)), Ok(()));
    assert_eq!(
        trail,
        vec!["restore", "load_run", "load_step", "start", "apply", "ownership", "close_completed", "load_run", "counter"]
    );
    assert_eq!(counter, Some(("completed_steps", 5)));
    assert_eq!(r, Ok(()));
}

#[test]
fn failed_apply_records_error_then_counts_failed() {
    let (trail, counter, r) = drive_step(
        fields("processing", None, Some(1)),
        Some(step(DeletionAction::SetNull { field: "owner".to_string() })),
        Err("denied".to_string()),
    );
    assert_eq!(
        trail,
        vec!["restore", "load_run", "load_step", "start", "apply", "error_row", "close_failed", "load_run", "counter"]
    );
    assert_eq!(counter, Some(("failed_steps", 2)));
    assert_eq!(r, Ok(()));
}

#[test]
fn undecodable_step_fails_without_apply() {
    let mut bad = step(DeletionAction::SetNull { field: "owner".to_string() });
    bad.set_null_field = None;
    let (trail, counter, _) = drive_step(fields("processing", None, None), Some(bad), Ok(()));
    assert!(!trail.contains(&"apply"));
    assert_eq!(counter, Some(("failed_steps", 1)));
}

#[test]
fn cancelled_run_skips_the_step() {
    let (trail, counter, r) =
        drive_step(fields("cancelled", None, None), Some(step(DeletionAction::CascadeDelete)), Ok(()));
    assert_eq!(trail, vec!["restore", "load_run", "skip"]);
    assert_eq!(counter, None);
    assert_eq!(r, Ok(()));
}

#[test]
fn missing_step_ends_quietly() {
    let (trail, counter, r) = drive_step(fields("processing", None, None), None, Ok(()));
    assert_eq!(trail, vec!["restore", "load_run", "load_step"]);
    assert_eq!(counter, None);
    assert_eq!(r, Ok(()));
}

#[test]
fn restore_failure_and_vanished_run() {
    let mut w = StepWorker::new("r1".to_string(), "s1".to_string());
    w.on_event(StepWorkerEvent::RequesterRestored(Err("bad actor".to_string())));
    assert!(matches!(
        w.next_action(),
        StepWorkerAction::Finish(Err(m)) if m == "requester actor restore failed: bad actor"
    ));

    let mut w = StepWorker::new("r1".to_string(), "s1".to_string());
    w.on_event(StepWorkerEvent::RequesterRestored(Ok(())));
    w.on_event(StepWorkerEvent::RunRead(Ok(Some(fields("processing", None, None)))));
    w.on_event(StepWorkerEvent::StepRead(Ok(Some(step(DeletionAction::RemoveEdge {
        edge_table: "likes".to_string(),
    })))));
    w.on_event(StepWorkerEvent::Written(Ok(())));
    w.on_event(StepWorkerEvent::Applied(Ok(())));
    w.on_event(StepWorkerEvent::Written(Ok(())));
    w.on_event(StepWorkerEvent::RunRead(Ok(None)));
    assert!(matches!(w.next_action(), StepWorkerAction::Finish(Err(m)) if m == DELETION_RUN_MISSING));
}

fn iter_run(status: ValenceIterRunStatus) -> ValenceIterRun {
    ValenceIterRun {
        iter_name: "X".to_string(),
        target_table: "demo_note".to_string(),
        status,
        total_rows: 3,
        scanned_rows: 3,
        processed_rows: 1,
        skipped_rows: 0,
        failed_rows: 0,
        initiated_by: "t".to_string(),
        target_row_id: None,
    }
}

fn batch(done: (i64, i64, i64)) -> ValenceIterBatch {
    ValenceIterBatch {
        run_id: "r1".to_string(),
        batch_index: 0,
        status: ValenceIterBatchStatus::Processing,
        row_count: 2,
        enqueued_count: 2,
        processed: done.0,
        skipped: done.1,
        failed: done.2,
        cursor: None,
    }
}

fn drive_row(
    should_run: Result<bool, String>,
    executed: Result<(), String>,
    before: (i64, i64, i64),
    after: (i64, i64, i64),
) -> (Vec<String>, Result<(), String>) {
    let mut w = RowWorker::new(
        "r1".to_string(),
        "b1".to_string(),
        "n1".to_string(),
        "X".to_string(),
        "demo_note".to_string(),
    );
    let mut trail = Vec::new();
    let mut batch_reads = 0;
    for _ in 0..32 {
        let e = match w.next_action() {
            RowWorkerAction::GetRun { .. } => {
                trail.push("get_run".to_string());
                RowWorkerEvent::RunRead(Ok(Some(iter_run(ValenceIterRunStatus::Processing))))
            }
            RowWorkerAction::FindDescriptor { table, iter_name } => {
                assert_eq!((table.as_str(), iter_name.as_str()), ("demo_note", "X"));
                RowWorkerEvent::DescriptorFound(true)
            }
            RowWorkerAction::LoadRow { row_id, .. } => {
                assert_eq!(row_id, "n1");
                RowWorkerEvent::RowLoaded(Ok(()))
            }
            RowWorkerAction::ShouldRun => RowWorkerEvent::ShouldRunDone(should_run.clone()),
            RowWorkerAction::Execute => {
                trail.push("execute".to_string());
                RowWorkerEvent::Executed(executed.clone())
            }
            RowWorkerAction::RecordError { kind, message, .. } => {
                trail.push(format!("error:{kind:?}:{message}"));
                RowWorkerEvent::Written(Ok(()))
            }
            RowWorkerAction::SetRunCounter { field, value, .. } => {
                trail.push(format!("run:{field}={value}"));
                RowWorkerEvent::Written(Ok(()))
            }
            RowWorkerAction::GetBatch { .. } => {
                batch_reads += 1;
                RowWorkerEvent::BatchRead(Ok(Some(batch(if batch_reads == 1 { before } else { after }))))
            }
            RowWorkerAction::SetBatchCounter { field, value, .. } => {
                trail.push(format!("batch:{field}={value}"));
                RowWorkerEvent::Written(Ok(()))
            }
            RowWorkerAction::CompleteBatch { .. } => {
                trail.push("complete".to_string());
                RowWorkerEvent::Written(Ok(()))
            }
            RowWorkerAction::Finish(r) => return (trail, r),
        };
        w.on_event(e);
    }
    panic!("row worker did not end")
}

#[test]
fn processed_row_bumps_counters_and_completes_batch() {
    let (trail, r) = drive_row(Ok(true), Ok(()), (1, 0, 0), (2, 0, 0));
    assert_eq!(
        trail,
        vec!["get_run", "execute", "get_run", "run:processed_rows=2", "batch:processed=2", "complete"]
    );
    assert_eq!(r, Ok(()));
}

#[test]
fn skipped_row_does_not_execute() {
    let (trail, r) = drive_row(Ok(false), Ok(()), (0, 0, 0), (0, 1, 0));
    assert_eq!(trail, vec!["get_run", "get_run", "run:skipped_rows=1", "batch:skipped=1"]);
    assert_eq!(r, Ok(()));
}

#[test]
fn failing_execute_records_error_first() {
    let (trail, _) = drive_row(Ok(true), Err("boom".to_string()), (1, 0, 0), (1, 0, 1));
    assert_eq!(
        trail,
        vec![
            "get_run".to_string(),
            "execute".to_string(),
            format!("error:{:?}:boom", ValenceIterRowErrorErrorKind::ExecuteError),
            "get_run".to_string(),
            "run:failed_rows=1".to_string(),
            "batch:failed=1".to_string(),
            "complete".to_string(),
        ]
    );
}

#[test]
fn row_worker_stops_and_fails() {
    let mut w = RowWorker::new("r1".into(), "b1".into(), "n1".into(), "X".into(), "t".into());
    w.on_event(RowWorkerEvent::RunRead(Ok(Some(iter_run(ValenceIterRunStatus::Cancelled)))));
    assert!(matches!(w.next_action(), RowWorkerAction::Finish(Ok(()))));

    let mut w = RowWorker::new("r1".into(), "b1".into(), "n1".into(), "X".into(), "t".into());
    w.on_event(RowWorkerEvent::RunRead(Ok(Some(iter_run(ValenceIterRunStatus::Processing)))));
    w.on_event(RowWorkerEvent::DescriptorFound(false));
    assert!(matches!(
        w.next_action(),
        RowWorkerAction::Finish(Err(m)) if m == "no IterDescriptor for table=t iter=X"
    ));

    let mut w = RowWorker::new("r1".into(), "b1".into(), "n1".into(), "X".into(), "t".into());
    w.on_event(RowWorkerEvent::RunRead(Ok(Some(iter_run(ValenceIterRunStatus::Processing)))));
    w.on_event(RowWorkerEvent::DescriptorFound(true));
    w.on_event(RowWorkerEvent::RowLoaded(Err("row not found".to_string())));
    assert!(matches!(
        w.next_action(),
        RowWorkerAction::RecordError { kind: ValenceIterRowErrorErrorKind::ShouldRunError, message, .. }
            if message == "row not found"
    ));
    w.on_event(RowWorkerEvent::Written(Ok(())));
    w.on_event(RowWorkerEvent::RunRead(Ok(None)));
    assert!(matches!(
        w.next_action(),
        RowWorkerAction::Finish(Err(m)) if m == ITER_RUN_MISSING_FOR_COUNTER
    ));
}

#[test]
fn full_scan_of_1001_ids_visits_each_once() {
    let raw: Vec<String> = (0..1001).rev().map(|i| format!("id{i:05}")).collect();
    let mut seen: Vec<String> = Vec::new();
    let mut cursor: Option<String> = None;
    loop {
        let page = keyset_page(&raw, cursor.as_deref(), 1000);
        if page.is_empty() {
            break;
        }
        assert!(page.len() <= 1000);
        cursor = page.last().cloned();
        seen.extend(page);
    }
    let mut expected: Vec<String> = raw.clone();
    expected.sort();
    assert_eq!(seen, expected);
}
