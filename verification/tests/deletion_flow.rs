//! Deletion orchestration driven end to end with scripted host results, plus the wave plan and
//! the step worker decisions.

use valence_platform::deletion::orchestrator::{
    inflight_count, max_depth, plan_deletion_waves, terminal_status, wave_order,
    wave_wait_after_count, wave_wait_after_status, DagOutcome, DeletionOrchestrator,
    DeletionOrchestratorAction, DeletionOrchestratorEvent, IntCell,
    ValenceDeletionOrchestratorStepDispatch, WaveWait, RUN_MISSING_AFTER, RUN_NOT_FOUND,
    ROOT_TABLE_MISSING,
};
use valence_platform::deletion::run_service::{DeletionRunStatus, RunFields};
use valence_platform::deletion::step_worker::{
    after_apply, after_decode, bump_run_counter, closing_of, marks_ownership_deleted,
    step_disposition, step_failure, step_row_for_node, step_to_node, StepDisposition, StepNext,
    StepOutcome, MISSING_EDGE_TABLE, MISSING_SET_NULL_FIELD,
};
use valence_platform::model::{
    DeletionAction, DeletionNode, ValenceDeletionStepAction, ValenceDeletionStepStatus,
};

fn node(table: &str, id: &str, action: DeletionAction, depth: u32) -> DeletionNode {
    DeletionNode {
        table: table.to_string(),
        record_id: id.to_string(),
        action,
        depth,
        connection_name: "owner".to_string(),
        from_table: "widget".to_string(),
    }
}

fn sample_dag() -> Vec<DeletionNode> {
    vec![
        node("widget", "w1", DeletionAction::CascadeDelete, 0),
        node("gadget", "g1", DeletionAction::SetNull { field: "owner".to_string() }, 1),
        node("gadget", "g2", DeletionAction::CascadeDelete, 1),
        node("widget_likes", "e1", DeletionAction::RemoveEdge { edge_table: "likes".to_string() }, 1),
    ]
}

fn fields(status: &str, failed: Option<i64>) -> RunFields {
    RunFields {
        status: Some(status.to_string()),
        root_table: Some("widget".to_string()),
        root_record_id: Some("w1".to_string()),
        completed_steps: None,
        failed_steps: failed,
    }
}

/// Drives the orchestrator up to the point where it asks for the first depth check.
fn claimed_and_planned(dispatch: ValenceDeletionOrchestratorStepDispatch) -> DeletionOrchestrator {
    let mut o = DeletionOrchestrator::new("r1".to_string(), dispatch);
    assert!(matches!(o.next_action(), DeletionOrchestratorAction::TryClaim { run_id } if run_id == "r1"));
    o.on_event(DeletionOrchestratorEvent::Claimed(Ok(true)));
    assert!(matches!(o.next_action(), DeletionOrchestratorAction::RestoreRequester { .. }));
    o.on_event(DeletionOrchestratorEvent::RequesterRestored(Ok(())));
    assert!(matches!(o.next_action(), DeletionOrchestratorAction::LoadRun { .. }));
    o.on_event(DeletionOrchestratorEvent::RunLoaded(Ok(Some(fields("scanning", None)))));
    match o.next_action() {
        DeletionOrchestratorAction::ComputeDag { root_table, root_record_id } => {
            assert_eq!(root_table, "widget");
            assert_eq!(root_record_id, "w1");
        }
        _ => panic!("expected ComputeDag"),
    }
    o.on_event(DeletionOrchestratorEvent::DagComputed(Ok(DagOutcome {
        nodes: sample_dag(),
        restrict_violations: None,
    })));
    match o.next_action() {
        DeletionOrchestratorAction::MergeRun { patch, .. } => {
            assert_eq!(patch.status, Some(DeletionRunStatus::Processing));
            assert_eq!(patch.total_steps, Some(4));
            assert!(!patch.stamp_completed_at);
        }
        _ => panic!("expected MergeRun(processing)"),
    }
    o.on_event(DeletionOrchestratorEvent::RunMerged(Ok(())));
    o
}

/// Answers depth checks and step runs until the orchestrator asks for the final load; returns
/// the records of the steps in dispatch order and the depths it waited on.
fn run_waves(o: &mut DeletionOrchestrator) -> (Vec<String>, Vec<u32>) {
    let mut ran = Vec::new();
    let mut waited = Vec::new();
    let mut step_ids: Vec<String> = Vec::new();
    for _ in 0..64 {
        match o.next_action() {
            DeletionOrchestratorAction::LoadRun { .. } => {
                if ran.len() == 4 {
                    return (ran, waited);
                }
                o.on_event(DeletionOrchestratorEvent::RunLoaded(Ok(Some(fields("processing", None)))));
            }
            DeletionOrchestratorAction::RunStep { run_id, step_id, node, row, .. } => {
                assert_eq!(run_id, "r1");
                assert_eq!(row.record_id, node.record_id);
                assert_eq!(row.status, ValenceDeletionStepStatus::Queued);
                assert_eq!(row.depth, node.depth as i64);
                assert!(!step_ids.contains(&step_id));
                step_ids.push(step_id);
                ran.push(node.record_id.clone());
                o.on_event(DeletionOrchestratorEvent::StepRun(Ok(())));
            }
            DeletionOrchestratorAction::WaitWave { depth, .. } => {
                waited.push(depth);
                o.on_event(DeletionOrchestratorEvent::WaveWaited(Ok(())));
            }
            _ => panic!("unexpected action while running waves"),
        }
    }
    panic!("waves did not end")
}

#[test]
fn inline_run_walks_the_plan_deepest_first() {
    let mut o = claimed_and_planned(ValenceDeletionOrchestratorStepDispatch::InlineWorker);
    let (ran, waited) = run_waves(&mut o);
    assert_eq!(ran, vec!["e1", "g1", "g2", "w1"]);
    assert!(waited.is_empty());
    o.on_event(DeletionOrchestratorEvent::RunLoaded(Ok(Some(fields("processing", Some(0))))));
    match o.next_action() {
        DeletionOrchestratorAction::MergeRun { patch, .. } => {
            assert_eq!(patch.status, Some(DeletionRunStatus::Completed));
            assert!(patch.stamp_completed_at);
        }
        _ => panic!("expected the terminal merge"),
    }
    o.on_event(DeletionOrchestratorEvent::RunMerged(Ok(())));
    assert!(matches!(o.next_action(), DeletionOrchestratorAction::Finish(Ok(()))));
}

#[test]
fn queued_run_waits_for_each_sub_wave() {
    let mut o = claimed_and_planned(ValenceDeletionOrchestratorStepDispatch::BosonQueue);
    let (ran, waited) = run_waves(&mut o);
    assert_eq!(ran, vec!["e1", "g1", "g2", "w1"]);
    assert_eq!(waited, vec![1, 1, 1, 0]);
    o.on_event(DeletionOrchestratorEvent::RunLoaded(Ok(Some(fields("processing", Some(2))))));
    match o.next_action() {
        DeletionOrchestratorAction::MergeRun { patch, .. } => {
            assert_eq!(patch.status, Some(DeletionRunStatus::Failed));
        }
        _ => panic!("expected the terminal merge"),
    }
}

#[test]
fn cancelled_between_depths_skips_the_rest() {
    let mut o = claimed_and_planned(ValenceDeletionOrchestratorStepDispatch::InlineWorker);
    assert!(matches!(o.next_action(), DeletionOrchestratorAction::LoadRun { .. }));
    o.on_event(DeletionOrchestratorEvent::RunLoaded(Ok(Some(fields("cancelled", None)))));
    assert!(matches!(o.next_action(), DeletionOrchestratorAction::MarkQueuedStepsSkipped { .. }));
    o.on_event(DeletionOrchestratorEvent::StepsSkipped(Ok(())));
    assert!(matches!(o.next_action(), DeletionOrchestratorAction::Finish(Ok(()))));
}

#[test]
fn cancelled_at_the_end_keeps_its_status() {
    let mut o = claimed_and_planned(ValenceDeletionOrchestratorStepDispatch::InlineWorker);
    let _ = run_waves(&mut o);
    o.on_event(DeletionOrchestratorEvent::RunLoaded(Ok(Some(fields("cancelled", Some(1))))));
    assert!(matches!(o.next_action(), DeletionOrchestratorAction::Finish(Ok(()))));
}

#[test]
fn run_gone_at_the_end_is_an_error() {
    let mut o = claimed_and_planned(ValenceDeletionOrchestratorStepDispatch::InlineWorker);
    let _ = run_waves(&mut o);
    o.on_event(DeletionOrchestratorEvent::RunLoaded(Ok(None)));
    match o.next_action() {
        DeletionOrchestratorAction::Finish(Err(m)) => assert_eq!(m, RUN_MISSING_AFTER),
        _ => panic!("expected an error"),
    }
}

#[test]
fn lost_claim_ends_quietly() {
    let mut o =
        DeletionOrchestrator::new("r1".to_string(), ValenceDeletionOrchestratorStepDispatch::BosonQueue);
    o.on_event(DeletionOrchestratorEvent::Claimed(Ok(false)));
    assert!(matches!(o.next_action(), DeletionOrchestratorAction::Finish(Ok(()))));
}

#[test]
fn restore_failure_fails_the_run() {
    let mut o =
        DeletionOrchestrator::new("r1".to_string(), ValenceDeletionOrchestratorStepDispatch::BosonQueue);
    o.on_event(DeletionOrchestratorEvent::Claimed(Ok(true)));
    o.on_event(DeletionOrchestratorEvent::RequesterRestored(Err("bad actor".to_string())));
    match o.next_action() {
        DeletionOrchestratorAction::MergeRun { patch, .. } => {
            assert_eq!(patch.status, Some(DeletionRunStatus::Failed));
            assert_eq!(
                patch.error_message.as_deref(),
                Some("requester actor restore failed: bad actor")
            );
        }
        _ => panic!("expected a failing merge"),
    }
    o.on_event(DeletionOrchestratorEvent::RunMerged(Ok(())));
    match o.next_action() {
        DeletionOrchestratorAction::Finish(Err(m)) => {
            assert_eq!(m, "requester actor restore failed: bad actor")
        }
        _ => panic!("expected the restore error"),
    }
}

#[test]
fn restrict_violations_fail_without_steps() {
    let mut o =
        DeletionOrchestrator::new("r1".to_string(), ValenceDeletionOrchestratorStepDispatch::BosonQueue);
    o.on_event(DeletionOrchestratorEvent::Claimed(Ok(true)));
    o.on_event(DeletionOrchestratorEvent::RequesterRestored(Ok(())));
    o.on_event(DeletionOrchestratorEvent::RunLoaded(Ok(Some(fields("scanning", None)))));
    o.on_event(DeletionOrchestratorEvent::DagComputed(Ok(DagOutcome {
        nodes: sample_dag(),
        restrict_violations: Some("gadget.owner restricts".to_string()),
    })));
    match o.next_action() {
        DeletionOrchestratorAction::MergeRun { patch, .. } => {
            assert_eq!(patch.status, Some(DeletionRunStatus::Failed));
            assert_eq!(patch.error_message.as_deref(), Some("gadget.owner restricts"));
        }
        _ => panic!("expected a failing merge"),
    }
    o.on_event(DeletionOrchestratorEvent::RunMerged(Ok(())));
    assert!(matches!(o.next_action(), DeletionOrchestratorAction::Finish(Ok(()))));
}

#[test]
fn empty_dag_completes_at_once() {
    let mut o =
        DeletionOrchestrator::new("r1".to_string(), ValenceDeletionOrchestratorStepDispatch::BosonQueue);
    o.on_event(DeletionOrchestratorEvent::Claimed(Ok(true)));
    o.on_event(DeletionOrchestratorEvent::RequesterRestored(Ok(())));
    o.on_event(DeletionOrchestratorEvent::RunLoaded(Ok(Some(fields("scanning", None)))));
    o.on_event(DeletionOrchestratorEvent::DagComputed(Ok(DagOutcome {
        nodes: Vec::new(),
        restrict_violations: None,
    })));
    o.on_event(DeletionOrchestratorEvent::RunMerged(Ok(())));
    match o.next_action() {
        DeletionOrchestratorAction::MergeRun { patch, .. } => {
            assert_eq!(patch.status, Some(DeletionRunStatus::Completed));
        }
        _ => panic!("expected the completing merge"),
    }
}

#[test]
fn missing_run_fields_are_errors() {
    let mut o =
        DeletionOrchestrator::new("r1".to_string(), ValenceDeletionOrchestratorStepDispatch::BosonQueue);
    o.on_event(DeletionOrchestratorEvent::Claimed(Ok(true)));
    o.on_event(DeletionOrchestratorEvent::RequesterRestored(Ok(())));
    o.on_event(DeletionOrchestratorEvent::RunLoaded(Ok(None)));
    match o.next_action() {
        DeletionOrchestratorAction::Finish(Err(m)) => assert_eq!(m, RUN_NOT_FOUND),
        _ => panic!("expected an error"),
    }
    let mut o =
        DeletionOrchestrator::new("r1".to_string(), ValenceDeletionOrchestratorStepDispatch::BosonQueue);
    o.on_event(DeletionOrchestratorEvent::Claimed(Ok(true)));
    o.on_event(DeletionOrchestratorEvent::RequesterRestored(Ok(())));
    let mut f = fields("scanning", None);
    f.root_table = None;
    o.on_event(DeletionOrchestratorEvent::RunLoaded(Ok(Some(f))));
    match o.next_action() {
        DeletionOrchestratorAction::Finish(Err(m)) => assert_eq!(m, ROOT_TABLE_MISSING),
        _ => panic!("expected an error"),
    }
}

#[test]
fn wave_plan_groups_by_depth_and_action() {
    let dag = sample_dag();
    assert_eq!(max_depth(&dag), 1);
    let plan = plan_deletion_waves(&dag);
    assert_eq!(plan.len(), 2);
    assert_eq!(plan[0].depth, 1);
    let orders: Vec<u8> = plan[0].waves.iter().map(|w| w.order).collect();
    assert_eq!(orders, vec![0, 1, 2]);
    assert_eq!(plan[0].waves[0].nodes, vec![3]);
    assert_eq!(plan[0].waves[1].nodes, vec![1]);
    assert_eq!(plan[0].waves[2].nodes, vec![2]);
    assert_eq!(plan[1].depth, 0);
    assert_eq!(plan[1].waves.len(), 1);
    assert_eq!(plan[1].waves[0].nodes, vec![0]);
    assert_eq!(wave_order(&DeletionAction::RemoveEdge { edge_table: "x".to_string() }), 0);
    assert_eq!(wave_order(&DeletionAction::SetNull { field: "x".to_string() }), 1);
    assert_eq!(wave_order(&DeletionAction::CascadeDelete), 2);
    assert!(plan_deletion_waves(&Vec::new()).len() == 1);
}

#[test]
fn terminal_status_from_failed_steps() {
    assert_eq!(terminal_status(None), DeletionRunStatus::Completed);
    assert_eq!(terminal_status(Some(0)), DeletionRunStatus::Completed);
    assert_eq!(terminal_status(Some(3)), DeletionRunStatus::Failed);
}

#[test]
fn wave_waiting() {
    assert_eq!(wave_wait_after_status(&Some(fields("cancelled", None))), WaveWait::Stop);
    assert_eq!(wave_wait_after_status(&Some(fields("processing", None))), WaveWait::CountInflight);
    assert_eq!(wave_wait_after_status(&None), WaveWait::CountInflight);
    assert_eq!(wave_wait_after_count(0), WaveWait::Stop);
    assert_eq!(wave_wait_after_count(2), WaveWait::Poll);
    assert_eq!(inflight_count(Some(IntCell::PosInt(5))), 5);
    assert_eq!(inflight_count(Some(IntCell::NegInt(-1))), u64::MAX);
    assert_eq!(inflight_count(Some(IntCell::NotInt)), 0);
    assert_eq!(inflight_count(None), 0);
}

#[test]
fn step_rows_round_trip() {
    for n in sample_dag() {
        let row = step_row_for_node("r1", &n);
        assert_eq!(row.run_id, "r1");
        assert_eq!(row.status, ValenceDeletionStepStatus::Queued);
        assert_eq!(step_to_node(&row), Ok(n.clone()));
    }
    let mut row = step_row_for_node("r1", &sample_dag()[1]);
    assert_eq!(row.action, ValenceDeletionStepAction::SetNull);
    row.set_null_field = None;
    assert_eq!(step_to_node(&row), Err(MISSING_SET_NULL_FIELD.to_string()));
    let mut row = step_row_for_node("r1", &sample_dag()[3]);
    row.edge_table = None;
    assert_eq!(step_to_node(&row), Err(MISSING_EDGE_TABLE.to_string()));
}

#[test]
fn step_worker_decisions() {
    assert_eq!(step_disposition(&None), StepDisposition::Stop);
    assert_eq!(step_disposition(&Some(fields("cancelled", None))), StepDisposition::SkipStep);
    assert_eq!(step_disposition(&Some(fields("processing", None))), StepDisposition::Proceed);

    let n = sample_dag()[2].clone();
    assert!(matches!(after_decode(Ok(n.clone())), StepNext::Apply(m) if m == n));
    assert!(matches!(
        after_decode(Err("bad".to_string())),
        StepNext::Close(StepOutcome::Failed { message }) if message == "bad"
    ));
    let done = after_apply(Ok(()));
    let (patch, counter) = closing_of(&done);
    assert_eq!(patch.status, ValenceDeletionStepStatus::Completed);
    assert_eq!(patch.error_message, None);
    assert_eq!(counter, "completed_steps");
    let failed = after_apply(Err("denied".to_string()));
    let (patch, counter) = closing_of(&failed);
    assert_eq!(patch.status, ValenceDeletionStepStatus::Failed);
    assert_eq!(patch.error_message.as_deref(), Some("denied"));
    assert_eq!(counter, "failed_steps");

    assert!(marks_ownership_deleted(&DeletionAction::CascadeDelete));
    assert!(!marks_ownership_deleted(&DeletionAction::SetNull { field: "f".to_string() }));

    let row = step_row_for_node("r1", &n);
    let (err, patch) = step_failure("r1", "s9", &row, "denied");
    assert_eq!(err.run_id, "r1");
    assert_eq!(err.step_id, "s9");
    assert_eq!(err.record_table, "gadget");
    assert_eq!(err.record_id, "g2");
    assert_eq!(err.error_message, "denied");
    assert_eq!(patch.status, ValenceDeletionStepStatus::Failed);
}

#[test]
fn run_counters_bump() {
    let f = fields("processing", Some(2));
    assert_eq!(bump_run_counter(&f, "failed_steps", 1), Ok(3));
    assert_eq!(bump_run_counter(&f, "completed_steps", 1), Ok(1));
    assert_eq!(
        bump_run_counter(&f, "total_steps", 1),
        Err("unknown run counter total_steps".to_string())
    );
}
