//! One deletion step: the step row built for a DAG node, the node read back from a row, and
//! [`StepWorker`], the decisions of the worker that performs a step (requester first, skip on
//! cancel, start, apply, error row, close, one counter bump).

use vstd::prelude::*;

use crate::deletion::run_service::{run_status_is, status_is, RunFields};
use crate::model::{
    DeletionAction, DeletionNode, ValenceDeletionStep, ValenceDeletionStepAction,
    ValenceDeletionStepStatus,
};

verus! {

/// The step action column for a DAG action.
pub open spec fn step_action_of(a: DeletionAction) -> ValenceDeletionStepAction {
    match a {
        DeletionAction::CascadeDelete => ValenceDeletionStepAction::CascadeDelete,
        DeletionAction::SetNull { .. } => ValenceDeletionStepAction::SetNull,
        DeletionAction::RemoveEdge { .. } => ValenceDeletionStepAction::RemoveEdge,
    }
}

/// The queued step row the orchestrator writes for `node` of run `run_id`: the action column,
/// the `set_null` field or edge table the action carries, and the node's coordinates.
pub open spec fn step_row_spec(run_id: Seq<char>, node: DeletionNode, row: ValenceDeletionStep) -> bool {
    &&& row.run_id@ == run_id
    &&& row.record_table == node.table
    &&& row.record_id == node.record_id
    &&& row.action == step_action_of(node.action)
    &&& row.set_null_field == match node.action {
        DeletionAction::SetNull { field } => Some(field),
        _ => None,
    }
    &&& row.edge_table == match node.action {
        DeletionAction::RemoveEdge { edge_table } => Some(edge_table),
        _ => None,
    }
    &&& row.status == ValenceDeletionStepStatus::Queued
    &&& row.depth == node.depth as i64
    &&& row.connection_name == node.connection_name
    &&& row.from_table == node.from_table
}

/// The queued step row for a DAG node.
pub fn step_row_for_node(run_id: &str, node: &DeletionNode) -> (row: ValenceDeletionStep)
    ensures
        step_row_spec(run_id@, *node, row),
{
    let (action, set_null_field, edge_table) = match &node.action {
        DeletionAction::CascadeDelete => (ValenceDeletionStepAction::CascadeDelete, None, None),
        DeletionAction::SetNull { field } => (
            ValenceDeletionStepAction::SetNull,
            Some(field.clone()),
            None,
        ),
        DeletionAction::RemoveEdge { edge_table } => (
            ValenceDeletionStepAction::RemoveEdge,
            None,
            Some(edge_table.clone()),
        ),
    };
    ValenceDeletionStep {
        run_id: String::from_str(run_id),
        record_table: node.table.clone(),
        record_id: node.record_id.clone(),
        action,
        set_null_field,
        edge_table,
        status: ValenceDeletionStepStatus::Queued,
        depth: node.depth as i64,
        connection_name: node.connection_name.clone(),
        from_table: node.from_table.clone(),
    }
}

/// Error of a `set_null` step without a field.
pub const MISSING_SET_NULL_FIELD: &'static str = "set_null step missing set_null_field";

/// Error of a `remove_edge` step without an edge table.
pub const MISSING_EDGE_TABLE: &'static str = "remove_edge step missing edge_table";

/// The DAG node a step row describes, or why the row cannot describe one.
pub open spec fn step_to_node_spec(step: ValenceDeletionStep) -> Result<DeletionNode, Seq<char>> {
    let action = match step.action {
        ValenceDeletionStepAction::CascadeDelete => Ok(DeletionAction::CascadeDelete),
        ValenceDeletionStepAction::SetNull => match step.set_null_field {
            Some(field) => Ok(DeletionAction::SetNull { field }),
            None => Err(MISSING_SET_NULL_FIELD@),
        },
        ValenceDeletionStepAction::RemoveEdge => match step.edge_table {
            Some(edge_table) => Ok(DeletionAction::RemoveEdge { edge_table }),
            None => Err(MISSING_EDGE_TABLE@),
        },
    };
    match action {
        Ok(action) => Ok(
            DeletionNode {
                table: step.record_table,
                record_id: step.record_id,
                action,
                depth: step.depth as u32,
                connection_name: step.connection_name,
                from_table: step.from_table,
            },
        ),
        Err(m) => Err(m),
    }
}

/// Read the DAG node back from a step row (depth truncated to `u32`).
pub fn step_to_node(step: &ValenceDeletionStep) -> (r: Result<DeletionNode, String>)
    ensures
        match (r, step_to_node_spec(*step)) {
            (Ok(n), Ok(m)) => n == m,
            (Err(e), Err(m)) => e@ == m,
            _ => false,
        },
{
    let action = match step.action {
        ValenceDeletionStepAction::CascadeDelete => DeletionAction::CascadeDelete,
        ValenceDeletionStepAction::SetNull => match &step.set_null_field {
            Some(field) => DeletionAction::SetNull { field: field.clone() },
            None => {
                return Err(String::from_str(MISSING_SET_NULL_FIELD));
            },
        },
        ValenceDeletionStepAction::RemoveEdge => match &step.edge_table {
            Some(edge_table) => DeletionAction::RemoveEdge { edge_table: edge_table.clone() },
            None => {
                return Err(String::from_str(MISSING_EDGE_TABLE));
            },
        },
    };
    Ok(
        DeletionNode {
            table: step.record_table.clone(),
            record_id: step.record_id.clone(),
            action,
            depth: step.depth as u32,
            connection_name: step.connection_name.clone(),
            from_table: step.from_table.clone(),
        },
    )
}

/// Law: the step row written for a DAG node reads back as that node, so the step worker applies
/// exactly the node the orchestrator planned.
pub proof fn law_step_row_round_trip(run_id: Seq<char>, node: DeletionNode, row: ValenceDeletionStep)
    requires
        step_row_spec(run_id, node, row),
    ensures
        step_to_node_spec(row) == Ok::<DeletionNode, Seq<char>>(node),
{
    assert((node.depth as i64) as u32 == node.depth);
}

/// What the step worker does once it knows the run.
#[derive(Clone, Copy, Debug, PartialEq, Eq)]
pub enum StepDisposition {
    /// The run is gone: nothing to do.
    Stop,
    /// The run is cancelled: mark the step `skipped` and stop.
    SkipStep,
    /// Run the step.
    Proceed,
}

/// What happens to a step of a run in state `run`.
pub open spec fn step_disposition_spec(run: Option<RunFields>) -> StepDisposition {
    match run {
        None => StepDisposition::Stop,
        Some(f) => if status_is(f, "cancelled"@) {
            StepDisposition::SkipStep
        } else {
            StepDisposition::Proceed
        },
    }
}

/// Whether to run, skip or drop the step, given its run.
pub fn step_disposition(run: &Option<RunFields>) -> (g: StepDisposition)
    ensures
        g == step_disposition_spec(*run),
{
    match run {
        None => StepDisposition::Stop,
        Some(f) => if run_status_is(f, "cancelled") {
            StepDisposition::SkipStep
        } else {
            StepDisposition::Proceed
        },
    }
}

/// A change to a step row.
#[derive(Clone, Debug)]
pub struct StepPatch {
    /// New status.
    pub status: ValenceDeletionStepStatus,
    /// New `error_message`.
    pub error_message: Option<String>,
    /// Stamp `started_at`.
    pub stamp_started_at: bool,
    /// Stamp `completed_at`.
    pub stamp_completed_at: bool,
}

/// The patch that starts a step.
pub fn start_step_patch() -> (p: StepPatch)
    ensures
        p.status == ValenceDeletionStepStatus::InProgress,
        p.error_message is None,
        p.stamp_started_at && !p.stamp_completed_at,
{
    StepPatch {
        status: ValenceDeletionStepStatus::InProgress,
        error_message: None,
        stamp_started_at: true,
        stamp_completed_at: false,
    }
}

/// The patch that closes a step with `status` and an optional error message.
pub fn close_step_patch(status: ValenceDeletionStepStatus, error_message: Option<String>) -> (p:
    StepPatch)
    ensures
        p.status == status,
        p.error_message == error_message,
        !p.stamp_started_at && p.stamp_completed_at,
{
    StepPatch { status, error_message, stamp_started_at: false, stamp_completed_at: true }
}

/// A `valence_deletion_error` row.
#[derive(Clone, Debug)]
pub struct DeletionErrorRow {
    /// Deletion run.
    pub run_id: String,
    /// Failed step.
    pub step_id: String,
    /// Table of the step's record.
    pub record_table: String,
    /// Id of the step's record.
    pub record_id: String,
    /// What went wrong.
    pub error_message: String,
}

/// What a failed step records: an error row, the step closed `failed` with the message, and
/// one more `failed_steps` on the run.
pub fn step_failure(run_id: &str, step_id: &str, step: &ValenceDeletionStep, message: &str) -> (r: (
    DeletionErrorRow,
    StepPatch,
))
    ensures
        r.0.run_id@ == run_id@,
        r.0.step_id@ == step_id@,
        r.0.record_table == step.record_table,
        r.0.record_id == step.record_id,
        r.0.error_message@ == message@,
        r.1.status == ValenceDeletionStepStatus::Failed,
        r.1.error_message matches Some(m) && m@ == message@,
        r.1.stamp_completed_at,
{
    (
        DeletionErrorRow {
            run_id: String::from_str(run_id),
            step_id: String::from_str(step_id),
            record_table: step.record_table.clone(),
            record_id: step.record_id.clone(),
            error_message: String::from_str(message),
        },
        close_step_patch(ValenceDeletionStepStatus::Failed, Some(String::from_str(message))),
    )
}

/// The value of run step counter `field`, if it names one (a missing counter reads as 0).
pub open spec fn step_counter(run: RunFields, field: Seq<char>) -> Option<i64> {
    let read = |c: Option<i64>|
        match c {
            Some(n) => n,
            None => 0i64,
        };
    if field == "completed_steps"@ {
        Some(read(run.completed_steps))
    } else if field == "failed_steps"@ {
        Some(read(run.failed_steps))
    } else {
        None
    }
}

/// The new value of run counter `field` after adding `delta` (wrapping), or the error for an
/// unknown counter name.
pub fn bump_run_counter(run: &RunFields, field: &str, delta: i64) -> (r: Result<i64, String>)
    ensures
        match step_counter(*run, field@) {
            Some(cur) => r == Ok::<i64, String>(cur.wrapping_add(delta)),
            None => r matches Err(m) && m@ == "unknown run counter "@ + field@,
        },
{
    proof {
        reveal_strlit("completed_steps");
        reveal_strlit("failed_steps");
    }
    if crate::text::str_eq(field, "completed_steps") {
        let cur = match run.completed_steps {
            Some(n) => n,
            None => 0,
        };
        Ok(cur.wrapping_add(delta))
    } else if crate::text::str_eq(field, "failed_steps") {
        let cur = match run.failed_steps {
            Some(n) => n,
            None => 0,
        };
        Ok(cur.wrapping_add(delta))
    } else {
        Err(crate::text::concat2("unknown run counter ", field))
    }
}

/// Whether applying the node also marks the record's ownership deleted (cascade deletes only;
/// a failure there is logged and ignored).
pub fn marks_ownership_deleted(action: &DeletionAction) -> (r: bool)
    ensures
        r == (*action == DeletionAction::CascadeDelete),
{
    match action {
        DeletionAction::CascadeDelete => true,
        _ => false,
    }
}

/// Error text when the requester cannot be restored.
pub fn restore_failure(error: &str) -> (m: String)
    ensures
        m@ == "requester actor restore failed: "@ + error@,
{
    crate::text::concat2("requester actor restore failed: ", error)
}


/// How a started step ends.
#[derive(Clone, Debug)]
pub enum StepOutcome {
    /// Decoding or applying the step failed with `message`.
    Failed { message: String },
    /// The step's node was applied.
    Completed,
}

/// The next thing the step worker does once the step is marked in progress.
#[derive(Clone, Debug)]
pub enum StepNext {
    /// Apply this node as the requester.
    Apply(DeletionNode),
    /// Close the step with this outcome.
    Close(StepOutcome),
}

/// After decoding the step row: a node is applied, a decoding error fails the step.
pub fn after_decode(decoded: Result<DeletionNode, String>) -> (s: StepNext)
    ensures
        match decoded {
            Ok(n) => s == StepNext::Apply(n),
            Err(m) => s == StepNext::Close(StepOutcome::Failed { message: m }),
        },
{
    match decoded {
        Ok(n) => StepNext::Apply(n),
        Err(m) => StepNext::Close(StepOutcome::Failed { message: m }),
    }
}

/// After applying the node: an error fails the step, success completes it.
pub fn after_apply(applied: Result<(), String>) -> (o: StepOutcome)
    ensures
        match applied {
            Ok(()) => o == StepOutcome::Completed,
            Err(m) => o == StepOutcome::Failed { message: m },
        },
{
    match applied {
        Ok(()) => StepOutcome::Completed,
        Err(m) => StepOutcome::Failed { message: m },
    }
}

/// The run counter an outcome bumps by one.
pub open spec fn outcome_counter(o: StepOutcome) -> Seq<char> {
    match o {
        StepOutcome::Failed { .. } => "failed_steps"@,
        StepOutcome::Completed => "completed_steps"@,
    }
}

/// The status and error message a step is closed with.
pub open spec fn outcome_close(o: StepOutcome) -> (ValenceDeletionStepStatus, Option<String>) {
    match o {
        StepOutcome::Failed { message } => (ValenceDeletionStepStatus::Failed, Some(message)),
        StepOutcome::Completed => (ValenceDeletionStepStatus::Completed, None),
    }
}

/// How a step is closed: the patch for its row and the run counter to bump by one.
pub fn closing_of(o: &StepOutcome) -> (r: (StepPatch, &'static str))
    ensures
        (r.0.status, r.0.error_message) == outcome_close(*o),
        r.0.stamp_completed_at && !r.0.stamp_started_at,
        r.1@ == outcome_counter(*o),
{
    match o {
        StepOutcome::Failed { message } => (
            close_step_patch(ValenceDeletionStepStatus::Failed, Some(message.clone())),
            "failed_steps",
        ),
        StepOutcome::Completed => (
            close_step_patch(ValenceDeletionStepStatus::Completed, None),
            "completed_steps",
        ),
    }
}

/// Steps of the run that are done, failed or completed (missing counters read as 0).
pub open spec fn steps_done(run: RunFields) -> int {
    step_counter(run, "completed_steps"@).unwrap() + step_counter(run, "failed_steps"@).unwrap()
}

/// The run with step counter `field` set to `value`.
pub open spec fn with_step_counter(run: RunFields, field: Seq<char>, value: i64) -> RunFields {
    if field == "completed_steps"@ {
        RunFields { completed_steps: Some(value), ..run }
    } else if field == "failed_steps"@ {
        RunFields { failed_steps: Some(value), ..run }
    } else {
        run
    }
}

/// Law: every step outcome bumps a known run counter (so the bump never fails on an unknown
/// name), and that bump by one accounts for exactly one more finished step:
/// `completed_steps + failed_steps` grows by one (short of the counter's overflow).
pub proof fn law_one_counter_per_step(run: RunFields, o: StepOutcome)
    requires
        step_counter(run, "completed_steps"@).unwrap() < i64::MAX,
        step_counter(run, "failed_steps"@).unwrap() < i64::MAX,
    ensures
        step_counter(run, outcome_counter(o)) is Some,
        steps_done(
            with_step_counter(
                run,
                outcome_counter(o),
                step_counter(run, outcome_counter(o)).unwrap().wrapping_add(1),
            ),
        ) == steps_done(run) + 1,
{
    reveal_strlit("completed_steps");
    reveal_strlit("failed_steps");
    let cur = step_counter(run, outcome_counter(o)).unwrap();
    assert(cur < i64::MAX);
    assert(cur.wrapping_add(1) == cur + 1) by (bit_vector)
        requires
            cur < i64::MAX,
    ;
    let next = with_step_counter(run, outcome_counter(o), cur.wrapping_add(1));
    assert("completed_steps"@ != "failed_steps"@) by {
        assert("completed_steps"@[0] != "failed_steps"@[0]);
    }
    match o {
        StepOutcome::Failed { .. } => {
            assert(next.failed_steps == Some(cur.wrapping_add(1)));
            assert(next.completed_steps == run.completed_steps);
        },
        StepOutcome::Completed => {
            assert(next.completed_steps == Some(cur.wrapping_add(1)));
            assert(next.failed_steps == run.failed_steps);
        },
    }
}


/// Where the step worker stands.
pub enum StepWorkerPhase {
    /// Rebuilding the store handle as the run's requester.
    RestoringRequester,
    /// The requester could not be restored (`error`); the worker fails.
    RestoreFailed { error: String },
    /// Reading the run to decide whether the step runs.
    CheckingRun,
    /// The run is cancelled: marking the step `skipped`.
    SkippingStep,
    /// Reading the step row.
    LoadingStep,
    /// Marking the step `in_progress`.
    StartingStep { step: ValenceDeletionStep },
    /// Applying the step's node as the requester.
    Applying { step: ValenceDeletionStep, node: DeletionNode },
    /// Marking the deleted record's ownership deleted (a failure there is ignored).
    MarkingOwnership { step: ValenceDeletionStep },
    /// Writing the error row of a failed step.
    RecordingError { step: ValenceDeletionStep, message: String },
    /// Closing the step with its outcome.
    Closing { outcome: StepOutcome },
    /// Reading the run's counters.
    LoadingCounters { outcome: StepOutcome },
    /// The run vanished before its counter could be bumped; the worker fails.
    RunMissing,
    /// Writing the bumped counter of the outcome.
    BumpingCounter { outcome: StepOutcome, value: i64 },
    /// Over.
    Done { outcome: Result<(), String> },
}

/// Results the host hands back to the step worker (errors as rendered text).
pub enum StepWorkerEvent {
    /// Result of `RestoreRequester`.
    RequesterRestored(Result<(), String>),
    /// Result of `LoadRun`: the run's fields, or `None` when the row is gone.
    RunRead(Result<Option<RunFields>, String>),
    /// Result of `LoadStep`: the step row, or `None` when it is gone.
    StepRead(Result<Option<ValenceDeletionStep>, String>),
    /// Result of `MergeStep`, `MarkOwnershipDeleted`, `RecordError` or `SetRunCounter`.
    Written(Result<(), String>),
    /// Result of `Apply`.
    Applied(Result<(), String>),
}

/// What the step worker asks the host to do next.
pub enum StepWorkerAction {
    /// Rebuild the store handle as the requester of run `run_id` (never System).
    RestoreRequester { run_id: String },
    /// Read the run row.
    LoadRun { run_id: String },
    /// Read step row `step_id`.
    LoadStep { step_id: String },
    /// Merge `patch` into step row `step_id`.
    MergeStep { step_id: String, patch: StepPatch },
    /// Apply `node` as the requester.
    Apply { node: DeletionNode },
    /// Mark the ownership of `table`/`record_id` deleted, as the requester.
    MarkOwnershipDeleted { table: String, record_id: String },
    /// Create this `valence_deletion_error` row.
    RecordError { row: DeletionErrorRow },
    /// Set run counter `field` to `value`.
    SetRunCounter { run_id: String, field: &'static str, value: i64 },
    /// The worker is over with this outcome.
    Finish(Result<(), String>),
}

/// Abstract state of the step worker.
pub struct StepWorkerView {
    /// Run of the step.
    pub run_id: String,
    /// Step worked on.
    pub step_id: String,
    /// Current phase.
    pub phase: StepWorkerPhase,
}

/// Error when the run vanished before its counter could be bumped.
pub const DELETION_RUN_MISSING: &'static str = "deletion run missing";

/// The bumped value of the counter an outcome increments (a missing counter reads as 0).
pub open spec fn bumped_counter(f: RunFields, o: StepOutcome) -> i64 {
    step_counter(f, outcome_counter(o)).unwrap().wrapping_add(1)
}

/// The state that `e` leads to from `v`.
pub open spec fn worker_next(v: StepWorkerView, e: StepWorkerEvent, n: StepWorkerView) -> bool {
    &&& n.run_id == v.run_id
    &&& n.step_id == v.step_id
    &&& match (v.phase, e) {
        (StepWorkerPhase::RestoringRequester, StepWorkerEvent::RequesterRestored(r)) => match r {
            Err(m) => n.phase == (StepWorkerPhase::RestoreFailed { error: m }),
            Ok(()) => n.phase == StepWorkerPhase::CheckingRun,
        },
        (StepWorkerPhase::CheckingRun, StepWorkerEvent::RunRead(r)) => match r {
            Err(m) => n.phase == (StepWorkerPhase::Done { outcome: Err(m) }),
            Ok(run) => match step_disposition_spec(run) {
                StepDisposition::Stop => n.phase == (StepWorkerPhase::Done { outcome: Ok(()) }),
                StepDisposition::SkipStep => n.phase == StepWorkerPhase::SkippingStep,
                StepDisposition::Proceed => n.phase == StepWorkerPhase::LoadingStep,
            },
        },
        (StepWorkerPhase::SkippingStep, StepWorkerEvent::Written(_)) => n.phase == (
        StepWorkerPhase::Done { outcome: Ok(()) }),
        (StepWorkerPhase::LoadingStep, StepWorkerEvent::StepRead(r)) => match r {
            Err(m) => n.phase == (StepWorkerPhase::Done { outcome: Err(m) }),
            Ok(None) => n.phase == (StepWorkerPhase::Done { outcome: Ok(()) }),
            Ok(Some(step)) => n.phase == (StepWorkerPhase::StartingStep { step }),
        },
        (StepWorkerPhase::StartingStep { step }, StepWorkerEvent::Written(r)) => match r {
            Err(m) => n.phase == (StepWorkerPhase::Done { outcome: Err(m) }),
            Ok(()) => match step_to_node_spec(step) {
                Ok(node) => n.phase == (StepWorkerPhase::Applying { step, node }),
                Err(t) => n.phase matches StepWorkerPhase::RecordingError { step: s, message }
                    && s == step && message@ == t,
            },
        },
        (StepWorkerPhase::Applying { step, node }, StepWorkerEvent::Applied(r)) => match r {
            Err(m) => n.phase == (StepWorkerPhase::RecordingError { step, message: m }),
            Ok(()) => if node.action == DeletionAction::CascadeDelete {
                n.phase == (StepWorkerPhase::MarkingOwnership { step })
            } else {
                n.phase == (StepWorkerPhase::Closing { outcome: StepOutcome::Completed })
            },
        },
        (StepWorkerPhase::MarkingOwnership { .. }, StepWorkerEvent::Written(_)) => n.phase == (
        StepWorkerPhase::Closing { outcome: StepOutcome::Completed }),
        (StepWorkerPhase::RecordingError { message, .. }, StepWorkerEvent::Written(r)) => match r {
            Err(m) => n.phase == (StepWorkerPhase::Done { outcome: Err(m) }),
            Ok(()) => n.phase == (StepWorkerPhase::Closing {
                outcome: StepOutcome::Failed { message },
            }),
        },
        (StepWorkerPhase::Closing { outcome }, StepWorkerEvent::Written(r)) => match r {
            Err(m) => n.phase == (StepWorkerPhase::Done { outcome: Err(m) }),
            Ok(()) => n.phase == (StepWorkerPhase::LoadingCounters { outcome }),
        },
        (StepWorkerPhase::LoadingCounters { outcome }, StepWorkerEvent::RunRead(r)) => match r {
            Err(m) => n.phase == (StepWorkerPhase::Done { outcome: Err(m) }),
            Ok(None) => n.phase == StepWorkerPhase::RunMissing,
            Ok(Some(f)) => n.phase == (StepWorkerPhase::BumpingCounter {
                outcome,
                value: bumped_counter(f, outcome),
            }),
        },
        (StepWorkerPhase::BumpingCounter { .. }, StepWorkerEvent::Written(r)) => n.phase == (
        StepWorkerPhase::Done { outcome: r }),
        _ => false,
    }
}

/// The event answers the action the phase asked for.
pub open spec fn worker_event_fits(p: StepWorkerPhase, e: StepWorkerEvent) -> bool {
    match (p, e) {
        (StepWorkerPhase::RestoringRequester, StepWorkerEvent::RequesterRestored(_)) => true,
        (StepWorkerPhase::CheckingRun, StepWorkerEvent::RunRead(_)) => true,
        (StepWorkerPhase::LoadingCounters { .. }, StepWorkerEvent::RunRead(_)) => true,
        (StepWorkerPhase::LoadingStep, StepWorkerEvent::StepRead(_)) => true,
        (StepWorkerPhase::Applying { .. }, StepWorkerEvent::Applied(_)) => true,
        (StepWorkerPhase::SkippingStep, StepWorkerEvent::Written(_)) => true,
        (StepWorkerPhase::StartingStep { .. }, StepWorkerEvent::Written(_)) => true,
        (StepWorkerPhase::MarkingOwnership { .. }, StepWorkerEvent::Written(_)) => true,
        (StepWorkerPhase::RecordingError { .. }, StepWorkerEvent::Written(_)) => true,
        (StepWorkerPhase::Closing { .. }, StepWorkerEvent::Written(_)) => true,
        (StepWorkerPhase::BumpingCounter { .. }, StepWorkerEvent::Written(_)) => true,
        _ => false,
    }
}

/// Two outcomes with the same text.
pub open spec fn same_result_text(a: Result<(), String>, b: Result<(), String>) -> bool {
    match (a, b) {
        (Ok(()), Ok(())) => true,
        (Err(x), Err(y)) => x@ == y@,
        _ => false,
    }
}

/// The action a state asks for.
pub open spec fn worker_action_spec(v: StepWorkerView, a: StepWorkerAction) -> bool {
    match v.phase {
        StepWorkerPhase::RestoringRequester => a matches StepWorkerAction::RestoreRequester { run_id }
            && run_id == v.run_id,
        StepWorkerPhase::RestoreFailed { error } => a matches StepWorkerAction::Finish(Err(m))
            && m@ == "requester actor restore failed: "@ + error@,
        StepWorkerPhase::CheckingRun | StepWorkerPhase::LoadingCounters { .. } => a matches StepWorkerAction::LoadRun { run_id }
            && run_id == v.run_id,
        StepWorkerPhase::SkippingStep => a matches StepWorkerAction::MergeStep { step_id, patch }
            && step_id == v.step_id && patch.status == ValenceDeletionStepStatus::Skipped
            && patch.error_message is None && patch.stamp_completed_at && !patch.stamp_started_at,
        StepWorkerPhase::LoadingStep => a matches StepWorkerAction::LoadStep { step_id }
            && step_id == v.step_id,
        StepWorkerPhase::StartingStep { .. } => a matches StepWorkerAction::MergeStep { step_id, patch }
            && step_id == v.step_id && patch.status == ValenceDeletionStepStatus::InProgress
            && patch.error_message is None && patch.stamp_started_at && !patch.stamp_completed_at,
        StepWorkerPhase::Applying { node, .. } => a matches StepWorkerAction::Apply { node: x }
            && x == node,
        StepWorkerPhase::MarkingOwnership { step } => a matches StepWorkerAction::MarkOwnershipDeleted { table, record_id }
            && table == step.record_table && record_id == step.record_id,
        StepWorkerPhase::RecordingError { step, message } => a matches StepWorkerAction::RecordError { row }
            && row.run_id@ == v.run_id@ && row.step_id@ == v.step_id@ && row.record_table
            == step.record_table && row.record_id == step.record_id && row.error_message@
            == message@,
        StepWorkerPhase::Closing { outcome } => a matches StepWorkerAction::MergeStep { step_id, patch }
            && step_id == v.step_id && (patch.status, patch.error_message) == outcome_close(outcome)
            && patch.stamp_completed_at && !patch.stamp_started_at,
        StepWorkerPhase::RunMissing => a matches StepWorkerAction::Finish(Err(m)) && m@
            == DELETION_RUN_MISSING@,
        StepWorkerPhase::BumpingCounter { outcome, value } => a matches StepWorkerAction::SetRunCounter { run_id, field, value: x }
            && run_id == v.run_id && field@ == outcome_counter(outcome) && x == value,
        StepWorkerPhase::Done { outcome } => a matches StepWorkerAction::Finish(r)
            && same_result_text(r, outcome),
    }
}

/// How far a phase is from the end: every event moves the worker strictly closer.
pub open spec fn worker_rank(p: StepWorkerPhase) -> nat {
    match p {
        StepWorkerPhase::RestoringRequester => 10,
        StepWorkerPhase::CheckingRun => 9,
        StepWorkerPhase::SkippingStep => 8,
        StepWorkerPhase::LoadingStep => 8,
        StepWorkerPhase::StartingStep { .. } => 7,
        StepWorkerPhase::Applying { .. } => 6,
        StepWorkerPhase::MarkingOwnership { .. } => 5,
        StepWorkerPhase::RecordingError { .. } => 4,
        StepWorkerPhase::Closing { .. } => 3,
        StepWorkerPhase::LoadingCounters { .. } => 2,
        StepWorkerPhase::BumpingCounter { .. } => 1,
        _ => 0,
    }
}

/// Decisions of one deletion step: restore the requester first, skip the step of a cancelled
/// run, mark it in progress, apply its node, record a failure, close it, and bump one run
/// counter.
pub struct StepWorker {
    run_id: String,
    step_id: String,
    phase: StepWorkerPhase,
}

impl View for StepWorker {
    type V = StepWorkerView;

    closed spec fn view(&self) -> StepWorkerView {
        StepWorkerView { run_id: self.run_id, step_id: self.step_id, phase: self.phase }
    }
}

impl StepWorker {
    /// Start working on step `step_id` of run `run_id`: the requester is restored first.
    pub fn new(run_id: String, step_id: String) -> (w: Self)
        ensures
            w@.run_id == run_id,
            w@.step_id == step_id,
            w@.phase == StepWorkerPhase::RestoringRequester,
    {
        StepWorker { run_id, step_id, phase: StepWorkerPhase::RestoringRequester }
    }

    /// The action this state asks for.
    pub fn next_action(&self) -> (a: StepWorkerAction)
        ensures
            worker_action_spec(self@, a),
    {
        match &self.phase {
            StepWorkerPhase::RestoringRequester => StepWorkerAction::RestoreRequester {
                run_id: self.run_id.clone(),
            },
            StepWorkerPhase::RestoreFailed { error } => StepWorkerAction::Finish(
                Err(restore_failure(error.as_str())),
            ),
            StepWorkerPhase::CheckingRun | StepWorkerPhase::LoadingCounters { .. } => {
                StepWorkerAction::LoadRun { run_id: self.run_id.clone() }
            },
            StepWorkerPhase::SkippingStep => StepWorkerAction::MergeStep {
                step_id: self.step_id.clone(),
                patch: close_step_patch(ValenceDeletionStepStatus::Skipped, None),
            },
            StepWorkerPhase::LoadingStep => StepWorkerAction::LoadStep {
                step_id: self.step_id.clone(),
            },
            StepWorkerPhase::StartingStep { .. } => StepWorkerAction::MergeStep {
                step_id: self.step_id.clone(),
                patch: start_step_patch(),
            },
            StepWorkerPhase::Applying { node, .. } => StepWorkerAction::Apply {
                node: crate::deletion::orchestrator::clone_node(node),
            },
            StepWorkerPhase::MarkingOwnership { step } => StepWorkerAction::MarkOwnershipDeleted {
                table: step.record_table.clone(),
                record_id: step.record_id.clone(),
            },
            StepWorkerPhase::RecordingError { step, message } => {
                let (row, _) = step_failure(
                    self.run_id.as_str(),
                    self.step_id.as_str(),
                    step,
                    message.as_str(),
                );
                StepWorkerAction::RecordError { row }
            },
            StepWorkerPhase::Closing { outcome } => {
                let (patch, _) = closing_of(outcome);
                StepWorkerAction::MergeStep { step_id: self.step_id.clone(), patch }
            },
            StepWorkerPhase::RunMissing => StepWorkerAction::Finish(
                Err(String::from_str(DELETION_RUN_MISSING)),
            ),
            StepWorkerPhase::BumpingCounter { outcome, value } => {
                let (_, field) = closing_of(outcome);
                StepWorkerAction::SetRunCounter { run_id: self.run_id.clone(), field, value: *value }
            },
            StepWorkerPhase::Done { outcome } => StepWorkerAction::Finish(
                match outcome {
                    Ok(()) => Ok(()),
                    Err(m) => Err(m.clone()),
                },
            ),
        }
    }

    /// Hand back the result of the last action.
    pub fn on_event(&mut self, e: StepWorkerEvent)
        requires
            worker_event_fits(old(self)@.phase, e),
        ensures
            worker_next(old(self)@, e, final(self)@),
    {
        proof {
            reveal_strlit("completed_steps");
            reveal_strlit("failed_steps");
        }
        let mut phase = StepWorkerPhase::RestoringRequester;
        std::mem::swap(&mut phase, &mut self.phase);
        match (phase, e) {
            (StepWorkerPhase::RestoringRequester, StepWorkerEvent::RequesterRestored(r)) => match r {
                Err(m) => self.phase = StepWorkerPhase::RestoreFailed { error: m },
                Ok(()) => self.phase = StepWorkerPhase::CheckingRun,
            },
            (StepWorkerPhase::CheckingRun, StepWorkerEvent::RunRead(r)) => match r {
                Err(m) => self.phase = StepWorkerPhase::Done { outcome: Err(m) },
                Ok(run) => match step_disposition(&run) {
                    StepDisposition::Stop => self.phase = StepWorkerPhase::Done { outcome: Ok(()) },
                    StepDisposition::SkipStep => self.phase = StepWorkerPhase::SkippingStep,
                    StepDisposition::Proceed => self.phase = StepWorkerPhase::LoadingStep,
                },
            },
            (StepWorkerPhase::SkippingStep, StepWorkerEvent::Written(_)) => {
                self.phase = StepWorkerPhase::Done { outcome: Ok(()) };
            },
            (StepWorkerPhase::LoadingStep, StepWorkerEvent::StepRead(r)) => match r {
                Err(m) => self.phase = StepWorkerPhase::Done { outcome: Err(m) },
                Ok(None) => self.phase = StepWorkerPhase::Done { outcome: Ok(()) },
                Ok(Some(step)) => self.phase = StepWorkerPhase::StartingStep { step },
            },
            (StepWorkerPhase::StartingStep { step }, StepWorkerEvent::Written(r)) => match r {
                Err(m) => self.phase = StepWorkerPhase::Done { outcome: Err(m) },
                Ok(()) => match after_decode(step_to_node(&step)) {
                    StepNext::Apply(node) => self.phase = StepWorkerPhase::Applying { step, node },
                    StepNext::Close(StepOutcome::Failed { message }) => {
                        self.phase = StepWorkerPhase::RecordingError { step, message };
                    },
                    StepNext::Close(StepOutcome::Completed) => {
                        proof {
                            assert(false);
                        }
                        self.phase = StepWorkerPhase::Closing { outcome: StepOutcome::Completed };
                    },
                },
            },
            (StepWorkerPhase::Applying { step, node }, StepWorkerEvent::Applied(r)) => match r {
                Err(m) => self.phase = StepWorkerPhase::RecordingError { step, message: m },
                Ok(()) => if marks_ownership_deleted(&node.action) {
                    self.phase = StepWorkerPhase::MarkingOwnership { step };
                } else {
                    self.phase = StepWorkerPhase::Closing { outcome: StepOutcome::Completed };
                },
            },
            (StepWorkerPhase::MarkingOwnership { .. }, StepWorkerEvent::Written(_)) => {
                self.phase = StepWorkerPhase::Closing { outcome: StepOutcome::Completed };
            },
            (StepWorkerPhase::RecordingError { message, .. }, StepWorkerEvent::Written(r)) => match r {
                Err(m) => self.phase = StepWorkerPhase::Done { outcome: Err(m) },
                Ok(()) => {
                    self.phase = StepWorkerPhase::Closing {
                        outcome: StepOutcome::Failed { message },
                    };
                },
            },
            (StepWorkerPhase::Closing { outcome }, StepWorkerEvent::Written(r)) => match r {
                Err(m) => self.phase = StepWorkerPhase::Done { outcome: Err(m) },
                Ok(()) => self.phase = StepWorkerPhase::LoadingCounters { outcome },
            },
            (StepWorkerPhase::LoadingCounters { outcome }, StepWorkerEvent::RunRead(r)) => match r {
                Err(m) => self.phase = StepWorkerPhase::Done { outcome: Err(m) },
                Ok(None) => self.phase = StepWorkerPhase::RunMissing,
                Ok(Some(f)) => {
                    let (_, field) = closing_of(&outcome);
                    match bump_run_counter(&f, field, 1) {
                        Ok(value) => self.phase = StepWorkerPhase::BumpingCounter { outcome, value },
                        Err(m) => {
                            proof {
                                assert(false);
                            }
                            self.phase = StepWorkerPhase::Done { outcome: Err(m) };
                        },
                    }
                },
            },
            (StepWorkerPhase::BumpingCounter { .. }, StepWorkerEvent::Written(r)) => {
                self.phase = StepWorkerPhase::Done { outcome: r };
            },
            (p, _) => {
                proof {
                    assert(false);
                }
                self.phase = p;
            },
        }
    }
}

/// Law: the requester comes first and every event moves the worker strictly closer to its end,
/// so each phase is visited at most once: a step is started, closed and counted at most once,
/// and nothing reads the run or the step before the requester is restored.
pub proof fn law_step_worker_progress(v: StepWorkerView, e: StepWorkerEvent, n: StepWorkerView)
    requires
        worker_event_fits(v.phase, e),
        worker_next(v, e, n),
    ensures
        worker_rank(n.phase) < worker_rank(v.phase),
        v.phase == StepWorkerPhase::RestoringRequester ==> (n.phase == StepWorkerPhase::CheckingRun
            || n.phase is RestoreFailed),
{
}

/// Law: a step whose node could not be applied gets its error row first, is then closed
/// `failed` with the message, and bumps `failed_steps` (and no other counter) by one.
pub proof fn law_started_step_closed_and_counted(
    step: ValenceDeletionStep,
    node: DeletionNode,
    message: String,
    f: RunFields,
    v: StepWorkerView,
    a: StepWorkerView,
    c: StepWorkerView,
    b: StepWorkerView,
)
    requires
        v.phase == (StepWorkerPhase::Applying { step, node }),
        worker_next(v, StepWorkerEvent::Applied(Err(message)), a),
        worker_next(a, StepWorkerEvent::Written(Ok(())), c),
        worker_next(c, StepWorkerEvent::Written(Ok(())), b),
    ensures
        a.phase == (StepWorkerPhase::RecordingError { step, message }),
        c.phase == (StepWorkerPhase::Closing { outcome: StepOutcome::Failed { message } }),
        b.phase == (StepWorkerPhase::LoadingCounters { outcome: StepOutcome::Failed { message } }),
        outcome_counter(StepOutcome::Failed { message }) == "failed_steps"@,
        forall|n: StepWorkerView|
            worker_next(b, StepWorkerEvent::RunRead(Ok(Some(f))), n) ==> n.phase == (
            StepWorkerPhase::BumpingCounter {
                outcome: StepOutcome::Failed { message },
                value: bumped_counter(f, StepOutcome::Failed { message }),
            }),
{
}

/// Law: a step whose node was applied is closed `completed` (after its ownership is marked
/// deleted, whatever that returns, for a cascade delete) and bumps `completed_steps` by one.
pub proof fn law_applied_step_closed_completed(
    step: ValenceDeletionStep,
    node: DeletionNode,
    r: Result<(), String>,
    v: StepWorkerView,
    a: StepWorkerView,
    c: StepWorkerView,
)
    requires
        v.phase == (StepWorkerPhase::Applying { step, node }),
        worker_next(v, StepWorkerEvent::Applied(Ok(())), a),
    ensures
        node.action == DeletionAction::CascadeDelete ==> a.phase == (
        StepWorkerPhase::MarkingOwnership { step }) && (worker_next(
            a,
            StepWorkerEvent::Written(r),
            c,
        ) ==> c.phase == (StepWorkerPhase::Closing { outcome: StepOutcome::Completed })),
        node.action != DeletionAction::CascadeDelete ==> a.phase == (StepWorkerPhase::Closing {
            outcome: StepOutcome::Completed,
        }),
        outcome_counter(StepOutcome::Completed) == "completed_steps"@,
{
}

/// Law: a step of a cancelled run is only marked `skipped`; the worker then ends successfully
/// without reading the step, applying it, or touching a counter.
pub proof fn law_cancelled_run_skips_step(v: StepWorkerView, f: RunFields, n: StepWorkerView, r: Result<(), String>, d: StepWorkerView)
    requires
        v.phase == StepWorkerPhase::CheckingRun,
        status_is(f, "cancelled"@),
        worker_next(v, StepWorkerEvent::RunRead(Ok(Some(f))), n),
        worker_next(n, StepWorkerEvent::Written(r), d),
    ensures
        n.phase == StepWorkerPhase::SkippingStep,
        d.phase == (StepWorkerPhase::Done { outcome: Ok(()) }),
{
}

} // verus!
