//! Iter row worker: which outcome a row gets, which counters it bumps, and when its batch is
//! complete; [`RowWorker`] orders these decisions for the host that performs them.
//!
//! A row is loaded, `should_run` decides whether it runs, then `execute` runs it. A load or
//! `should_run` failure records a `should_run_error`, an `execute` failure an `execute_error`;
//! either counts as failed. A row that should not run counts as skipped, one that ran as
//! processed.

use vstd::prelude::*;

use crate::model::{ValenceIterBatch, ValenceIterRun, ValenceIterRowErrorErrorKind, ValenceIterRunStatus};
use crate::text::{concat2, concat3};

verus! {

/// The row worker goes on only for an existing run that is not cancelled.
pub open spec fn row_worker_proceeds_spec(run: Option<ValenceIterRun>) -> bool {
    match run {
        Some(r) => r.status != ValenceIterRunStatus::Cancelled,
        None => false,
    }
}

/// Whether the row worker goes on: the run exists and is not cancelled (otherwise it returns
/// successfully without touching anything).
pub fn row_worker_proceeds(run: &Option<ValenceIterRun>) -> (r: bool)
    ensures
        r == row_worker_proceeds_spec(*run),
{
    match run {
        Some(r) => match r.status {
            ValenceIterRunStatus::Cancelled => false,
            _ => true,
        },
        None => false,
    }
}

/// Error when no iter descriptor matches the table and iter name.
pub fn missing_descriptor_error(table_name: &str, iter_name: &str) -> (m: String)
    ensures
        m@ == "no IterDescriptor for table="@ + table_name@ + " iter="@ + iter_name@,
{
    concat3("no IterDescriptor for table=", table_name, " iter=").concat(iter_name)
}

/// What happened to a row.
#[derive(Clone, Debug)]
pub enum RowOutcome {
    /// The row failed; an error row of `kind` with `message` is recorded.
    Failed { kind: ValenceIterRowErrorErrorKind, message: String },
    /// `should_run` said no.
    Skipped,
    /// `execute` succeeded.
    Processed,
}

/// The next thing the row worker does.
#[derive(Clone, Debug)]
pub enum RowStep {
    /// Evaluate `should_run` on the loaded row.
    EvaluateShouldRun,
    /// Run `execute` on the row.
    Execute,
    /// Record this outcome.
    Record(RowOutcome),
}

/// After loading the row: a load failure is a `should_run_error`.
pub fn after_load(loaded: Result<(), String>) -> (s: RowStep)
    ensures
        match loaded {
            Ok(()) => s is EvaluateShouldRun,
            Err(m) => s matches RowStep::Record(RowOutcome::Failed { kind, message })
                && kind == ValenceIterRowErrorErrorKind::ShouldRunError && message == m,
        },
{
    match loaded {
        Ok(()) => RowStep::EvaluateShouldRun,
        Err(m) => RowStep::Record(
            RowOutcome::Failed { kind: ValenceIterRowErrorErrorKind::ShouldRunError, message: m },
        ),
    }
}

/// After `should_run`: an error is a `should_run_error`, `false` skips, `true` executes.
pub fn after_should_run(should_run: Result<bool, String>) -> (s: RowStep)
    ensures
        match should_run {
            Ok(true) => s is Execute,
            Ok(false) => s matches RowStep::Record(RowOutcome::Skipped),
            Err(m) => s matches RowStep::Record(RowOutcome::Failed { kind, message })
                && kind == ValenceIterRowErrorErrorKind::ShouldRunError && message == m,
        },
{
    match should_run {
        Ok(true) => RowStep::Execute,
        Ok(false) => RowStep::Record(RowOutcome::Skipped),
        Err(m) => RowStep::Record(
            RowOutcome::Failed { kind: ValenceIterRowErrorErrorKind::ShouldRunError, message: m },
        ),
    }
}

/// After `execute`: an error is an `execute_error`, success is processed.
pub fn after_execute(executed: Result<(), String>) -> (o: RowOutcome)
    ensures
        match executed {
            Ok(()) => o is Processed,
            Err(m) => o matches RowOutcome::Failed { kind, message }
                && kind == ValenceIterRowErrorErrorKind::ExecuteError && message == m,
        },
{
    match executed {
        Ok(()) => RowOutcome::Processed,
        Err(m) => RowOutcome::Failed { kind: ValenceIterRowErrorErrorKind::ExecuteError, message: m },
    }
}

/// Run and batch counter names an outcome bumps.
pub open spec fn outcome_counters(o: RowOutcome) -> (Seq<char>, Seq<char>) {
    match o {
        RowOutcome::Failed { .. } => ("failed_rows"@, "failed"@),
        RowOutcome::Skipped => ("skipped_rows"@, "skipped"@),
        RowOutcome::Processed => ("processed_rows"@, "processed"@),
    }
}

/// The run counter and batch counter an outcome bumps by one.
pub fn counters_for(o: &RowOutcome) -> (r: (&'static str, &'static str))
    ensures
        (r.0@, r.1@) == outcome_counters(*o),
{
    match o {
        RowOutcome::Failed { .. } => ("failed_rows", "failed"),
        RowOutcome::Skipped => ("skipped_rows", "skipped"),
        RowOutcome::Processed => ("processed_rows", "processed"),
    }
}

/// The value of a run counter named `field`, if it names one.
pub open spec fn run_counter(run: ValenceIterRun, field: Seq<char>) -> Option<i64> {
    if field == "processed_rows"@ {
        Some(run.processed_rows)
    } else if field == "skipped_rows"@ {
        Some(run.skipped_rows)
    } else if field == "failed_rows"@ {
        Some(run.failed_rows)
    } else {
        None
    }
}

/// The new value of run counter `field` after adding `delta` (wrapping like release-mode
/// arithmetic), or the error for an unknown counter name.
pub fn bump_run_field(run: &ValenceIterRun, field: &str, delta: i64) -> (r: Result<i64, String>)
    ensures
        match run_counter(*run, field@) {
            Some(cur) => r == Ok::<i64, String>(cur.wrapping_add(delta)),
            None => r matches Err(m) && m@ == "unknown run counter field "@ + field@,
        },
{
    proof {
        reveal_strlit("processed_rows");
        reveal_strlit("skipped_rows");
        reveal_strlit("failed_rows");
    }
    if crate::text::str_eq(field, "processed_rows") {
        Ok(run.processed_rows.wrapping_add(delta))
    } else if crate::text::str_eq(field, "skipped_rows") {
        Ok(run.skipped_rows.wrapping_add(delta))
    } else if crate::text::str_eq(field, "failed_rows") {
        Ok(run.failed_rows.wrapping_add(delta))
    } else {
        Err(concat2("unknown run counter field ", field))
    }
}

/// The value of a batch counter named `field`, if it names one.
pub open spec fn batch_counter(batch: ValenceIterBatch, field: Seq<char>) -> Option<i64> {
    if field == "processed"@ {
        Some(batch.processed)
    } else if field == "skipped"@ {
        Some(batch.skipped)
    } else if field == "failed"@ {
        Some(batch.failed)
    } else {
        None
    }
}

/// The new value of batch counter `field` after adding `delta` (wrapping), or the error for an
/// unknown counter name.
pub fn bump_batch_field(batch: &ValenceIterBatch, field: &str, delta: i64) -> (r: Result<i64, String>)
    ensures
        match batch_counter(*batch, field@) {
            Some(cur) => r == Ok::<i64, String>(cur.wrapping_add(delta)),
            None => r matches Err(m) && m@ == "unknown batch counter field "@ + field@,
        },
{
    proof {
        reveal_strlit("processed");
        reveal_strlit("skipped");
        reveal_strlit("failed");
    }
    if crate::text::str_eq(field, "processed") {
        Ok(batch.processed.wrapping_add(delta))
    } else if crate::text::str_eq(field, "skipped") {
        Ok(batch.skipped.wrapping_add(delta))
    } else if crate::text::str_eq(field, "failed") {
        Ok(batch.failed.wrapping_add(delta))
    } else {
        Err(concat2("unknown batch counter field ", field))
    }
}

/// A batch is complete once processed, skipped and failed rows reach its row count.
pub open spec fn batch_complete_spec(b: ValenceIterBatch) -> bool {
    b.processed + b.skipped + b.failed >= b.row_count
}

/// Whether the batch is complete (then it is marked `completed`).
pub fn maybe_complete_batch(batch: &ValenceIterBatch) -> (r: bool)
    ensures
        r == batch_complete_spec(*batch),
{
    batch.processed as i128 + batch.skipped as i128 + batch.failed as i128 >= batch.row_count as i128
}

/// How the row's `id` field looks in the loaded payload.
#[derive(Clone, Copy, Debug, PartialEq, Eq)]
pub enum IdField {
    /// No `id` field.
    Missing,
    /// `id` is `null`.
    Null,
    /// `id` has a value.
    Present,
}

/// The synthetic `table:id` to put in an object payload whose `id` is missing or `null`
/// (`None`: leave the payload alone).
pub fn inject_row_id_if_missing(table_name: &str, row_id: &str, is_object: bool, id: IdField) -> (r:
    Option<String>)
    ensures
        (is_object && id != IdField::Present) ==> (r matches Some(s) && s@ == table_name@ + ":"@
            + row_id@),
        !(is_object && id != IdField::Present) ==> r is None,
{
    if is_object {
        match id {
            IdField::Present => None,
            _ => Some(concat3(table_name, ":", row_id)),
        }
    } else {
        None
    }
}

/// The run with counter `field` set to `value`.
pub open spec fn with_run_counter(run: ValenceIterRun, field: Seq<char>, value: i64) -> ValenceIterRun {
    if field == "processed_rows"@ {
        ValenceIterRun { processed_rows: value, ..run }
    } else if field == "skipped_rows"@ {
        ValenceIterRun { skipped_rows: value, ..run }
    } else if field == "failed_rows"@ {
        ValenceIterRun { failed_rows: value, ..run }
    } else {
        run
    }
}

/// Rows of the run accounted for so far.
pub open spec fn rows_done(run: ValenceIterRun) -> int {
    run.processed_rows + run.skipped_rows + run.failed_rows
}

/// Law: every row outcome bumps a known run counter and a known batch counter (so the bump
/// never fails on an unknown name), and bumping the run counter by one accounts for exactly one
/// more row: `processed + skipped + failed` grows by one (short of the counter's overflow).
pub proof fn law_one_counter_per_row(run: ValenceIterRun, batch: ValenceIterBatch, o: RowOutcome)
    requires
        run.processed_rows < i64::MAX,
        run.skipped_rows < i64::MAX,
        run.failed_rows < i64::MAX,
    ensures
        run_counter(run, outcome_counters(o).0) is Some,
        batch_counter(batch, outcome_counters(o).1) is Some,
        rows_done(
            with_run_counter(
                run,
                outcome_counters(o).0,
                run_counter(run, outcome_counters(o).0).unwrap().wrapping_add(1),
            ),
        ) == rows_done(run) + 1,
{
    reveal_strlit("processed_rows");
    reveal_strlit("skipped_rows");
    reveal_strlit("failed_rows");
    reveal_strlit("processed");
    reveal_strlit("skipped");
    reveal_strlit("failed");
    let cur = run_counter(run, outcome_counters(o).0).unwrap();
    assert(cur < i64::MAX);
    assert(cur.wrapping_add(1) == cur + 1) by (bit_vector)
        requires
            cur < i64::MAX,
    ;
}


/// Why the row worker fails without recording a row outcome.
#[derive(Clone, Copy, Debug, PartialEq, Eq)]
pub enum RowWorkerFailure {
    /// No iter descriptor matches the table and iter name.
    NoDescriptor,
    /// The run vanished before its counter could be bumped.
    RunMissing,
    /// The batch vanished before its counter could be bumped.
    BatchMissing,
    /// The batch vanished before its completion could be checked.
    BatchGone,
}

/// Error when the run vanished before its counter could be bumped.
pub const ITER_RUN_MISSING_FOR_COUNTER: &'static str = "iter run missing";

/// Error when the batch vanished before its counter could be bumped.
pub const ITER_BATCH_MISSING: &'static str = "iter batch missing";

/// Error when the batch vanished before its completion could be checked.
pub const BATCH_MISSING: &'static str = "batch missing";

/// Where the row worker stands.
pub enum RowWorkerPhase {
    /// Reading the run (a missing or cancelled run ends the worker quietly).
    CheckingRun,
    /// Looking up the iter descriptor of the table and iter name.
    FindingDescriptor,
    /// Loading the row.
    LoadingRow,
    /// Evaluating `should_run` on the row.
    EvaluatingShouldRun,
    /// Running `execute` on the row.
    Executing,
    /// Writing the error row of a failed row.
    RecordingError { kind: ValenceIterRowErrorErrorKind, message: String },
    /// Reading the run's counters.
    LoadingRunCounters { outcome: RowOutcome },
    /// Writing the bumped run counter.
    SettingRunCounter { outcome: RowOutcome, value: i64 },
    /// Reading the batch's counters.
    LoadingBatchCounters { outcome: RowOutcome },
    /// Writing the bumped batch counter.
    SettingBatchCounter { outcome: RowOutcome, value: i64 },
    /// Reading the batch to see whether it is complete.
    CheckingBatch,
    /// Marking the batch `completed`.
    CompletingBatch,
    /// The worker fails for `reason`.
    Failed { reason: RowWorkerFailure },
    /// Over.
    Done { outcome: Result<(), String> },
}

/// Results the host hands back to the row worker (errors as rendered text).
pub enum RowWorkerEvent {
    /// Result of `GetRun`.
    RunRead(Result<Option<ValenceIterRun>, String>),
    /// Result of `FindDescriptor`: whether one was found.
    DescriptorFound(bool),
    /// Result of `LoadRow`.
    RowLoaded(Result<(), String>),
    /// Result of `ShouldRun`.
    ShouldRunDone(Result<bool, String>),
    /// Result of `Execute`.
    Executed(Result<(), String>),
    /// Result of `GetBatch`.
    BatchRead(Result<Option<ValenceIterBatch>, String>),
    /// Result of `RecordError`, `SetRunCounter`, `SetBatchCounter` or `CompleteBatch`.
    Written(Result<(), String>),
}

/// What the row worker asks the host to do next.
pub enum RowWorkerAction {
    /// Read the run row.
    GetRun { run_id: String },
    /// Find the iter descriptor of `table` and `iter_name`.
    FindDescriptor { table: String, iter_name: String },
    /// Load row `row_id` of `table` (with its `table:id` filled in when missing).
    LoadRow { table: String, row_id: String },
    /// Evaluate `should_run` on the loaded row.
    ShouldRun,
    /// Run `execute` on the loaded row.
    Execute,
    /// Create a `valence_iter_row_error` row.
    RecordError {
        run_id: String,
        batch_id: String,
        row_id: String,
        kind: ValenceIterRowErrorErrorKind,
        message: String,
    },
    /// Set run counter `field` to `value`.
    SetRunCounter { run_id: String, field: &'static str, value: i64 },
    /// Read the batch row.
    GetBatch { batch_id: String },
    /// Set batch counter `field` to `value`.
    SetBatchCounter { batch_id: String, field: &'static str, value: i64 },
    /// Mark the batch `completed`.
    CompleteBatch { batch_id: String },
    /// The worker is over with this outcome.
    Finish(Result<(), String>),
}

/// Abstract state of the row worker.
pub struct RowWorkerView {
    /// Run of the row.
    pub run_id: String,
    /// Batch of the row.
    pub batch_id: String,
    /// Bare id of the row.
    pub row_id: String,
    /// Iter type.
    pub iter_name: String,
    /// Table of the row.
    pub table: String,
    /// Current phase.
    pub phase: RowWorkerPhase,
}

/// Where recording an outcome starts: the error row of a failure, else the run counter.
pub open spec fn recording(o: RowOutcome) -> RowWorkerPhase {
    match o {
        RowOutcome::Failed { kind, message } => RowWorkerPhase::RecordingError { kind, message },
        _ => RowWorkerPhase::LoadingRunCounters { outcome: o },
    }
}

/// The phase `v` moves to, everything else unchanged.
pub open spec fn row_to(v: RowWorkerView, p: RowWorkerPhase) -> RowWorkerView {
    RowWorkerView { phase: p, ..v }
}

/// The state after `e`.
pub open spec fn row_worker_next(v: RowWorkerView, e: RowWorkerEvent) -> RowWorkerView {
    match (v.phase, e) {
        (RowWorkerPhase::CheckingRun, RowWorkerEvent::RunRead(r)) => match r {
            Err(m) => row_to(v, RowWorkerPhase::Done { outcome: Err(m) }),
            Ok(run) => if row_worker_proceeds_spec(run) {
                row_to(v, RowWorkerPhase::FindingDescriptor)
            } else {
                row_to(v, RowWorkerPhase::Done { outcome: Ok(()) })
            },
        },
        (RowWorkerPhase::FindingDescriptor, RowWorkerEvent::DescriptorFound(found)) => if found {
            row_to(v, RowWorkerPhase::LoadingRow)
        } else {
            row_to(v, RowWorkerPhase::Failed { reason: RowWorkerFailure::NoDescriptor })
        },
        (RowWorkerPhase::LoadingRow, RowWorkerEvent::RowLoaded(r)) => match r {
            Ok(()) => row_to(v, RowWorkerPhase::EvaluatingShouldRun),
            Err(m) => row_to(
                v,
                recording(
                    RowOutcome::Failed {
                        kind: ValenceIterRowErrorErrorKind::ShouldRunError,
                        message: m,
                    },
                ),
            ),
        },
        (RowWorkerPhase::EvaluatingShouldRun, RowWorkerEvent::ShouldRunDone(r)) => match r {
            Ok(true) => row_to(v, RowWorkerPhase::Executing),
            Ok(false) => row_to(v, recording(RowOutcome::Skipped)),
            Err(m) => row_to(
                v,
                recording(
                    RowOutcome::Failed {
                        kind: ValenceIterRowErrorErrorKind::ShouldRunError,
                        message: m,
                    },
                ),
            ),
        },
        (RowWorkerPhase::Executing, RowWorkerEvent::Executed(r)) => match r {
            Ok(()) => row_to(v, recording(RowOutcome::Processed)),
            Err(m) => row_to(
                v,
                recording(
                    RowOutcome::Failed { kind: ValenceIterRowErrorErrorKind::ExecuteError, message: m },
                ),
            ),
        },
        (RowWorkerPhase::RecordingError { kind, message }, RowWorkerEvent::Written(r)) => match r {
            Err(m) => row_to(v, RowWorkerPhase::Done { outcome: Err(m) }),
            Ok(()) => row_to(
                v,
                RowWorkerPhase::LoadingRunCounters { outcome: RowOutcome::Failed { kind, message } },
            ),
        },
        (RowWorkerPhase::LoadingRunCounters { outcome }, RowWorkerEvent::RunRead(r)) => match r {
            Err(m) => row_to(v, RowWorkerPhase::Done { outcome: Err(m) }),
            Ok(None) => row_to(v, RowWorkerPhase::Failed { reason: RowWorkerFailure::RunMissing }),
            Ok(Some(run)) => row_to(
                v,
                RowWorkerPhase::SettingRunCounter {
                    outcome,
                    value: run_counter(run, outcome_counters(outcome).0).unwrap().wrapping_add(1),
                },
            ),
        },
        (RowWorkerPhase::SettingRunCounter { outcome, .. }, RowWorkerEvent::Written(r)) => match r {
            Err(m) => row_to(v, RowWorkerPhase::Done { outcome: Err(m) }),
            Ok(()) => row_to(v, RowWorkerPhase::LoadingBatchCounters { outcome }),
        },
        (RowWorkerPhase::LoadingBatchCounters { outcome }, RowWorkerEvent::BatchRead(r)) => match r {
            Err(m) => row_to(v, RowWorkerPhase::Done { outcome: Err(m) }),
            Ok(None) => row_to(v, RowWorkerPhase::Failed { reason: RowWorkerFailure::BatchMissing }),
            Ok(Some(b)) => row_to(
                v,
                RowWorkerPhase::SettingBatchCounter {
                    outcome,
                    value: batch_counter(b, outcome_counters(outcome).1).unwrap().wrapping_add(1),
                },
            ),
        },
        (RowWorkerPhase::SettingBatchCounter { .. }, RowWorkerEvent::Written(r)) => match r {
            Err(m) => row_to(v, RowWorkerPhase::Done { outcome: Err(m) }),
            Ok(()) => row_to(v, RowWorkerPhase::CheckingBatch),
        },
        (RowWorkerPhase::CheckingBatch, RowWorkerEvent::BatchRead(r)) => match r {
            Err(m) => row_to(v, RowWorkerPhase::Done { outcome: Err(m) }),
            Ok(None) => row_to(v, RowWorkerPhase::Failed { reason: RowWorkerFailure::BatchGone }),
            Ok(Some(b)) => if batch_complete_spec(b) {
                row_to(v, RowWorkerPhase::CompletingBatch)
            } else {
                row_to(v, RowWorkerPhase::Done { outcome: Ok(()) })
            },
        },
        (RowWorkerPhase::CompletingBatch, RowWorkerEvent::Written(r)) => row_to(
            v,
            RowWorkerPhase::Done { outcome: r },
        ),
        _ => v,
    }
}

/// The event answers the action the phase asked for.
pub open spec fn row_event_fits(p: RowWorkerPhase, e: RowWorkerEvent) -> bool {
    match (p, e) {
        (RowWorkerPhase::CheckingRun, RowWorkerEvent::RunRead(_)) => true,
        (RowWorkerPhase::LoadingRunCounters { .. }, RowWorkerEvent::RunRead(_)) => true,
        (RowWorkerPhase::FindingDescriptor, RowWorkerEvent::DescriptorFound(_)) => true,
        (RowWorkerPhase::LoadingRow, RowWorkerEvent::RowLoaded(_)) => true,
        (RowWorkerPhase::EvaluatingShouldRun, RowWorkerEvent::ShouldRunDone(_)) => true,
        (RowWorkerPhase::Executing, RowWorkerEvent::Executed(_)) => true,
        (RowWorkerPhase::LoadingBatchCounters { .. }, RowWorkerEvent::BatchRead(_)) => true,
        (RowWorkerPhase::CheckingBatch, RowWorkerEvent::BatchRead(_)) => true,
        (RowWorkerPhase::RecordingError { .. }, RowWorkerEvent::Written(_)) => true,
        (RowWorkerPhase::SettingRunCounter { .. }, RowWorkerEvent::Written(_)) => true,
        (RowWorkerPhase::SettingBatchCounter { .. }, RowWorkerEvent::Written(_)) => true,
        (RowWorkerPhase::CompletingBatch, RowWorkerEvent::Written(_)) => true,
        _ => false,
    }
}

/// The text a failure ends the worker with.
pub open spec fn failure_text(v: RowWorkerView, f: RowWorkerFailure) -> Seq<char> {
    match f {
        RowWorkerFailure::NoDescriptor => "no IterDescriptor for table="@ + v.table@ + " iter="@
            + v.iter_name@,
        RowWorkerFailure::RunMissing => ITER_RUN_MISSING_FOR_COUNTER@,
        RowWorkerFailure::BatchMissing => ITER_BATCH_MISSING@,
        RowWorkerFailure::BatchGone => BATCH_MISSING@,
    }
}

/// The action a state asks for.
pub open spec fn row_action_spec(v: RowWorkerView, a: RowWorkerAction) -> bool {
    match v.phase {
        RowWorkerPhase::CheckingRun | RowWorkerPhase::LoadingRunCounters { .. } => a matches RowWorkerAction::GetRun { run_id }
            && run_id == v.run_id,
        RowWorkerPhase::FindingDescriptor => a matches RowWorkerAction::FindDescriptor { table, iter_name }
            && table == v.table && iter_name == v.iter_name,
        RowWorkerPhase::LoadingRow => a matches RowWorkerAction::LoadRow { table, row_id }
            && table == v.table && row_id == v.row_id,
        RowWorkerPhase::EvaluatingShouldRun => a is ShouldRun,
        RowWorkerPhase::Executing => a is Execute,
        RowWorkerPhase::RecordingError { kind: k, message: msg } => a matches RowWorkerAction::RecordError { run_id, batch_id, row_id, kind, message }
            && run_id == v.run_id && batch_id == v.batch_id && row_id == v.row_id && kind == k
            && message == msg,
        RowWorkerPhase::SettingRunCounter { outcome, value } => a matches RowWorkerAction::SetRunCounter { run_id, field, value: x }
            && run_id == v.run_id && field@ == outcome_counters(outcome).0 && x == value,
        RowWorkerPhase::LoadingBatchCounters { .. } | RowWorkerPhase::CheckingBatch => a matches RowWorkerAction::GetBatch { batch_id }
            && batch_id == v.batch_id,
        RowWorkerPhase::SettingBatchCounter { outcome, value } => a matches RowWorkerAction::SetBatchCounter { batch_id, field, value: x }
            && batch_id == v.batch_id && field@ == outcome_counters(outcome).1 && x == value,
        RowWorkerPhase::CompletingBatch => a matches RowWorkerAction::CompleteBatch { batch_id }
            && batch_id == v.batch_id,
        RowWorkerPhase::Failed { reason } => a matches RowWorkerAction::Finish(Err(m)) && m@
            == failure_text(v, reason),
        RowWorkerPhase::Done { outcome } => a matches RowWorkerAction::Finish(r) && match (
            r,
            outcome,
        ) {
            (Ok(()), Ok(())) => true,
            (Err(x), Err(y)) => x@ == y@,
            _ => false,
        },
    }
}

/// How far a phase is from the end: every event moves the worker strictly closer.
pub open spec fn row_rank(p: RowWorkerPhase) -> nat {
    match p {
        RowWorkerPhase::CheckingRun => 12,
        RowWorkerPhase::FindingDescriptor => 11,
        RowWorkerPhase::LoadingRow => 10,
        RowWorkerPhase::EvaluatingShouldRun => 9,
        RowWorkerPhase::Executing => 8,
        RowWorkerPhase::RecordingError { .. } => 7,
        RowWorkerPhase::LoadingRunCounters { .. } => 6,
        RowWorkerPhase::SettingRunCounter { .. } => 5,
        RowWorkerPhase::LoadingBatchCounters { .. } => 4,
        RowWorkerPhase::SettingBatchCounter { .. } => 3,
        RowWorkerPhase::CheckingBatch => 2,
        RowWorkerPhase::CompletingBatch => 1,
        _ => 0,
    }
}

/// Decisions of one iter row: the run check, the descriptor, load, `should_run`, `execute`,
/// the error row of a failure, one run counter, one batch counter, and the batch's completion.
pub struct RowWorker {
    run_id: String,
    batch_id: String,
    row_id: String,
    iter_name: String,
    table: String,
    phase: RowWorkerPhase,
}

impl View for RowWorker {
    type V = RowWorkerView;

    closed spec fn view(&self) -> RowWorkerView {
        RowWorkerView {
            run_id: self.run_id,
            batch_id: self.batch_id,
            row_id: self.row_id,
            iter_name: self.iter_name,
            table: self.table,
            phase: self.phase,
        }
    }
}

fn recording_exec(o: RowOutcome) -> (p: RowWorkerPhase)
    ensures
        p == recording(o),
{
    match o {
        RowOutcome::Failed { kind, message } => RowWorkerPhase::RecordingError { kind, message },
        other => RowWorkerPhase::LoadingRunCounters { outcome: other },
    }
}

impl RowWorker {
    /// Start working on row `row_id` of `table` for batch `batch_id` of run `run_id`.
    pub fn new(
        run_id: String,
        batch_id: String,
        row_id: String,
        iter_name: String,
        table: String,
    ) -> (w: Self)
        ensures
            w@ == (RowWorkerView {
                run_id,
                batch_id,
                row_id,
                iter_name,
                table,
                phase: RowWorkerPhase::CheckingRun,
            }),
    {
        RowWorker { run_id, batch_id, row_id, iter_name, table, phase: RowWorkerPhase::CheckingRun }
    }

    /// The action this state asks for.
    pub fn next_action(&self) -> (a: RowWorkerAction)
        ensures
            row_action_spec(self@, a),
    {
        match &self.phase {
            RowWorkerPhase::CheckingRun | RowWorkerPhase::LoadingRunCounters { .. } => {
                RowWorkerAction::GetRun { run_id: self.run_id.clone() }
            },
            RowWorkerPhase::FindingDescriptor => RowWorkerAction::FindDescriptor {
                table: self.table.clone(),
                iter_name: self.iter_name.clone(),
            },
            RowWorkerPhase::LoadingRow => RowWorkerAction::LoadRow {
                table: self.table.clone(),
                row_id: self.row_id.clone(),
            },
            RowWorkerPhase::EvaluatingShouldRun => RowWorkerAction::ShouldRun,
            RowWorkerPhase::Executing => RowWorkerAction::Execute,
            RowWorkerPhase::RecordingError { kind, message } => RowWorkerAction::RecordError {
                run_id: self.run_id.clone(),
                batch_id: self.batch_id.clone(),
                row_id: self.row_id.clone(),
                kind: *kind,
                message: message.clone(),
            },
            RowWorkerPhase::SettingRunCounter { outcome, value } => {
                let (field, _) = counters_for(outcome);
                RowWorkerAction::SetRunCounter { run_id: self.run_id.clone(), field, value: *value }
            },
            RowWorkerPhase::LoadingBatchCounters { .. } | RowWorkerPhase::CheckingBatch => {
                RowWorkerAction::GetBatch { batch_id: self.batch_id.clone() }
            },
            RowWorkerPhase::SettingBatchCounter { outcome, value } => {
                let (_, field) = counters_for(outcome);
                RowWorkerAction::SetBatchCounter {
                    batch_id: self.batch_id.clone(),
                    field,
                    value: *value,
                }
            },
            RowWorkerPhase::CompletingBatch => RowWorkerAction::CompleteBatch {
                batch_id: self.batch_id.clone(),
            },
            RowWorkerPhase::Failed { reason } => RowWorkerAction::Finish(
                Err(
                    match reason {
                        RowWorkerFailure::NoDescriptor => missing_descriptor_error(
                            self.table.as_str(),
                            self.iter_name.as_str(),
                        ),
                        RowWorkerFailure::RunMissing => String::from_str(
                            ITER_RUN_MISSING_FOR_COUNTER,
                        ),
                        RowWorkerFailure::BatchMissing => String::from_str(ITER_BATCH_MISSING),
                        RowWorkerFailure::BatchGone => String::from_str(BATCH_MISSING),
                    },
                ),
            ),
            RowWorkerPhase::Done { outcome } => RowWorkerAction::Finish(
                match outcome {
                    Ok(()) => Ok(()),
                    Err(m) => Err(m.clone()),
                },
            ),
        }
    }

    /// Hand back the result of the last action.
    pub fn on_event(&mut self, e: RowWorkerEvent)
        requires
            row_event_fits(old(self)@.phase, e),
        ensures
            final(self)@ == row_worker_next(old(self)@, e),
    {
        proof {
            reveal_strlit("processed_rows");
            reveal_strlit("skipped_rows");
            reveal_strlit("failed_rows");
            reveal_strlit("processed");
            reveal_strlit("skipped");
            reveal_strlit("failed");
        }
        let mut phase = RowWorkerPhase::CheckingRun;
        std::mem::swap(&mut phase, &mut self.phase);
        match (phase, e) {
            (RowWorkerPhase::CheckingRun, RowWorkerEvent::RunRead(r)) => match r {
                Err(m) => self.phase = RowWorkerPhase::Done { outcome: Err(m) },
                Ok(run) => if row_worker_proceeds(&run) {
                    self.phase = RowWorkerPhase::FindingDescriptor;
                } else {
                    self.phase = RowWorkerPhase::Done { outcome: Ok(()) };
                },
            },
            (RowWorkerPhase::FindingDescriptor, RowWorkerEvent::DescriptorFound(found)) => {
                if found {
                    self.phase = RowWorkerPhase::LoadingRow;
                } else {
                    self.phase = RowWorkerPhase::Failed { reason: RowWorkerFailure::NoDescriptor };
                }
            },
            (RowWorkerPhase::LoadingRow, RowWorkerEvent::RowLoaded(r)) => match after_load(r) {
                RowStep::EvaluateShouldRun => self.phase = RowWorkerPhase::EvaluatingShouldRun,
                RowStep::Record(o) => self.phase = recording_exec(o),
                RowStep::Execute => {
                    proof {
                        assert(false);
                    }
                    self.phase = RowWorkerPhase::Executing;
                },
            },
            (RowWorkerPhase::EvaluatingShouldRun, RowWorkerEvent::ShouldRunDone(r)) => match after_should_run(r) {
                RowStep::Execute => self.phase = RowWorkerPhase::Executing,
                RowStep::Record(o) => self.phase = recording_exec(o),
                RowStep::EvaluateShouldRun => {
                    proof {
                        assert(false);
                    }
                    self.phase = RowWorkerPhase::EvaluatingShouldRun;
                },
            },
            (RowWorkerPhase::Executing, RowWorkerEvent::Executed(r)) => {
                self.phase = recording_exec(after_execute(r));
            },
            (RowWorkerPhase::RecordingError { kind, message }, RowWorkerEvent::Written(r)) => match r {
                Err(m) => self.phase = RowWorkerPhase::Done { outcome: Err(m) },
                Ok(()) => {
                    self.phase = RowWorkerPhase::LoadingRunCounters {
                        outcome: RowOutcome::Failed { kind, message },
                    };
                },
            },
            (RowWorkerPhase::LoadingRunCounters { outcome }, RowWorkerEvent::RunRead(r)) => match r {
                Err(m) => self.phase = RowWorkerPhase::Done { outcome: Err(m) },
                Ok(None) => {
                    self.phase = RowWorkerPhase::Failed { reason: RowWorkerFailure::RunMissing };
                },
                Ok(Some(run)) => {
                    let (field, _) = counters_for(&outcome);
                    match bump_run_field(&run, field, 1) {
                        Ok(value) => {
                            self.phase = RowWorkerPhase::SettingRunCounter { outcome, value };
                        },
                        Err(m) => {
                            proof {
                                assert(false);
                            }
                            self.phase = RowWorkerPhase::Done { outcome: Err(m) };
                        },
                    }
                },
            },
            (RowWorkerPhase::SettingRunCounter { outcome, .. }, RowWorkerEvent::Written(r)) => match r {
                Err(m) => self.phase = RowWorkerPhase::Done { outcome: Err(m) },
                Ok(()) => self.phase = RowWorkerPhase::LoadingBatchCounters { outcome },
            },
            (RowWorkerPhase::LoadingBatchCounters { outcome }, RowWorkerEvent::BatchRead(r)) => match r {
                Err(m) => self.phase = RowWorkerPhase::Done { outcome: Err(m) },
                Ok(None) => {
                    self.phase = RowWorkerPhase::Failed { reason: RowWorkerFailure::BatchMissing };
                },
                Ok(Some(b)) => {
                    let (_, field) = counters_for(&outcome);
                    match bump_batch_field(&b, field, 1) {
                        Ok(value) => {
                            self.phase = RowWorkerPhase::SettingBatchCounter { outcome, value };
                        },
                        Err(m) => {
                            proof {
                                assert(false);
                            }
                            self.phase = RowWorkerPhase::Done { outcome: Err(m) };
                        },
                    }
                },
            },
            (RowWorkerPhase::SettingBatchCounter { .. }, RowWorkerEvent::Written(r)) => match r {
                Err(m) => self.phase = RowWorkerPhase::Done { outcome: Err(m) },
                Ok(()) => self.phase = RowWorkerPhase::CheckingBatch,
            },
            (RowWorkerPhase::CheckingBatch, RowWorkerEvent::BatchRead(r)) => match r {
                Err(m) => self.phase = RowWorkerPhase::Done { outcome: Err(m) },
                Ok(None) => {
                    self.phase = RowWorkerPhase::Failed { reason: RowWorkerFailure::BatchGone };
                },
                Ok(Some(b)) => if maybe_complete_batch(&b) {
                    self.phase = RowWorkerPhase::CompletingBatch;
                } else {
                    self.phase = RowWorkerPhase::Done { outcome: Ok(()) };
                },
            },
            (RowWorkerPhase::CompletingBatch, RowWorkerEvent::Written(r)) => {
                self.phase = RowWorkerPhase::Done { outcome: r };
            },
            (p, _) => {
                proof {
                    assert(false);
                }
                self.phase = p;
            },
        }
    }
}

/// Law: every event moves the row worker strictly closer to its end, so each phase is visited
/// at most once: a row records at most one error row, bumps at most one run counter and one
/// batch counter, and completes its batch at most once.
pub proof fn law_row_worker_progress(v: RowWorkerView, e: RowWorkerEvent)
    requires
        row_event_fits(v.phase, e),
    ensures
        row_rank(row_worker_next(v, e).phase) < row_rank(v.phase),
{
}

/// Law: once a row has an outcome, a failure's error row is written first, then the run
/// counter of the outcome and then the batch counter of the outcome each grow by one, and the
/// batch is checked for completion.
pub proof fn law_outcome_recorded_in_order(
    v: RowWorkerView,
    o: RowOutcome,
    run: ValenceIterRun,
    batch: ValenceIterBatch,
)
    requires
        v.phase == recording(o),
    ensures
        ({
            let c = match o {
                RowOutcome::Failed { .. } => row_worker_next(v, RowWorkerEvent::Written(Ok(()))),
                _ => v,
            };
            let s = row_worker_next(c, RowWorkerEvent::RunRead(Ok(Some(run))));
            let l = row_worker_next(s, RowWorkerEvent::Written(Ok(())));
            let t = row_worker_next(l, RowWorkerEvent::BatchRead(Ok(Some(batch))));
            let k = row_worker_next(t, RowWorkerEvent::Written(Ok(())));
            &&& c.phase == (RowWorkerPhase::LoadingRunCounters { outcome: o })
            &&& s.phase == (RowWorkerPhase::SettingRunCounter {
                outcome: o,
                value: run_counter(run, outcome_counters(o).0).unwrap().wrapping_add(1),
            })
            &&& l.phase == (RowWorkerPhase::LoadingBatchCounters { outcome: o })
            &&& t.phase == (RowWorkerPhase::SettingBatchCounter {
                outcome: o,
                value: batch_counter(batch, outcome_counters(o).1).unwrap().wrapping_add(1),
            })
            &&& k.phase == RowWorkerPhase::CheckingBatch
        }),
{
    reveal_strlit("processed_rows");
    reveal_strlit("skipped_rows");
    reveal_strlit("failed_rows");
}


/// Law: only a missing or cancelled run stops a row. A run that exists and is not cancelled
/// (pending, scanning while its pages are still dispatched, processing, or already finished)
/// lets the row be worked, whatever its status.
pub proof fn law_only_missing_or_cancelled_run_stops_row(run: ValenceIterRun)
    ensures
        !row_worker_proceeds_spec(None),
        row_worker_proceeds_spec(Some(run)) <==> run.status != ValenceIterRunStatus::Cancelled,
        run.status == ValenceIterRunStatus::Scanning ==> row_worker_proceeds_spec(Some(run)),
        run.status == ValenceIterRunStatus::Pending ==> row_worker_proceeds_spec(Some(run)),
{
}

/// Law: the row worker goes on to the descriptor for every existing run that is not
/// cancelled, and ends quietly, touching nothing, for a missing or cancelled one.
pub proof fn law_row_worker_checks_only_cancellation(v: RowWorkerView, run: Option<ValenceIterRun>)
    requires
        v.phase == RowWorkerPhase::CheckingRun,
    ensures
        (run matches Some(r) && r.status != ValenceIterRunStatus::Cancelled) ==> row_worker_next(
            v,
            RowWorkerEvent::RunRead(Ok(run)),
        ).phase == RowWorkerPhase::FindingDescriptor,
        !(run matches Some(r) && r.status != ValenceIterRunStatus::Cancelled) ==> row_worker_next(
            v,
            RowWorkerEvent::RunRead(Ok(run)),
        ).phase == (RowWorkerPhase::Done { outcome: Ok(()) }),
{
}

/// Law: a batch is complete exactly when every one of its rows is accounted for. While
/// processed, skipped and failed rows together are fewer than the batch's rows it is not
/// complete, however many rows failed; once they reach the row count it is. Accounting for one
/// more row never makes a complete batch incomplete.
pub proof fn law_batch_complete_when_all_rows_done(b: ValenceIterBatch, field: Seq<char>)
    ensures
        b.processed + b.skipped + b.failed < b.row_count ==> !batch_complete_spec(b),
        b.processed + b.skipped + b.failed >= b.row_count ==> batch_complete_spec(b),
        (b.failed > 0 && b.processed + b.skipped + b.failed < b.row_count) ==> !batch_complete_spec(b),
        batch_complete_spec(b) && batch_counter(b, field) is Some && batch_counter(b, field).unwrap()
            < i64::MAX ==> batch_complete_spec(
            with_batch_counter(b, field, (batch_counter(b, field).unwrap() + 1) as i64),
        ),
{
}

/// The batch with counter `field` set to `value`.
pub open spec fn with_batch_counter(b: ValenceIterBatch, field: Seq<char>, value: i64) -> ValenceIterBatch {
    if field == "processed"@ {
        ValenceIterBatch { processed: value, ..b }
    } else if field == "skipped"@ {
        ValenceIterBatch { skipped: value, ..b }
    } else if field == "failed"@ {
        ValenceIterBatch { failed: value, ..b }
    } else {
        b
    }
}

} // verus!
