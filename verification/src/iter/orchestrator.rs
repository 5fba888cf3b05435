//! Iter orchestrator: load the run, count rows (or take the one row the run targets), page
//! through the table creating one batch per page and dispatching every row, then poll until
//! every row is accounted for.
//!
//! [`IterOrchestrator`] holds the decisions; the host performs each [`IterOrchestratorAction`]
//! and hands the result back as an [`IterOrchestratorEvent`].

use vstd::prelude::*;

use crate::ids::{new_uuid_v4, uuid_v4_text};
use crate::text::str_string;
use crate::model::{ValenceIterBatch, ValenceIterBatchStatus, ValenceIterRun, ValenceIterRunStatus};

verus! {

/// Rows per page (and per batch).
pub const DEFAULT_BATCH_SIZE: usize = 1000;

/// Sleep between completion polls, in milliseconds.
pub const POLL_INTERVAL_MS: u64 = 2000;

/// Message when the run row is missing at start.
pub const ITER_RUN_NOT_FOUND: &'static str = "iter run not found";

/// Message when the run row vanished while paging.
pub const ITER_RUN_DISAPPEARED: &'static str = "iter run disappeared";

/// Message when the run row vanished while counting or polling.
pub const ITER_RUN_MISSING: &'static str = "run missing";

/// How each table row is handed off to the iter row worker.
#[derive(Clone, Copy, Debug, PartialEq, Eq)]
pub enum ValenceIterOrchestratorRowDispatch {
    /// Enqueue the row worker task (production).
    BosonQueue,
    /// Run the row worker immediately (test harness).
    InlineWorker,
}

/// A change to an iter run row.
#[derive(Clone, Debug)]
pub struct IterRunPatch {
    /// New status.
    pub status: Option<ValenceIterRunStatus>,
    /// New `total_rows`.
    pub total_rows: Option<i64>,
    /// New `scanned_rows`.
    pub scanned_rows: Option<i64>,
    /// Stamp `started_at`.
    pub stamp_started_at: bool,
    /// Stamp `completed_at`.
    pub stamp_completed_at: bool,
}

/// A change to an iter batch row.
#[derive(Clone, Debug)]
pub struct IterBatchPatch {
    /// New status.
    pub status: Option<ValenceIterBatchStatus>,
    /// New `enqueued_count`.
    pub enqueued_count: Option<i64>,
}

/// Results the host hands back (errors as rendered text).
pub enum IterOrchestratorEvent {
    /// Result of `GetRun`: the run row, or `None` when it is gone.
    RunRead(Result<Option<ValenceIterRun>, String>),
    /// Result of `MergeRun`, `UpsertBatch` or `MergeBatch`.
    Written(Result<(), String>),
    /// Result of `CountRows`.
    Counted(Result<i64, String>),
    /// Result of `PageRowIds`.
    PageFetched(Result<Vec<String>, String>),
    /// Result of `DispatchRow`.
    RowDispatched(Result<(), String>),
    /// `Sleep` is over.
    Slept,
}

/// What the orchestrator asks the host to do next.
pub enum IterOrchestratorAction {
    /// Read the run row.
    GetRun { run_id: String },
    /// Merge a patch into the run row.
    MergeRun { run_id: String, patch: IterRunPatch },
    /// Count the rows of `table`.
    CountRows { table: String },
    /// Fetch the next page of bare row ids after `after`.
    PageRowIds { table: String, after: Option<String>, limit: usize },
    /// Create batch `batch_id`.
    UpsertBatch { batch_id: String, batch: ValenceIterBatch },
    /// Hand row `row_id` of batch `batch_id` to the row worker.
    DispatchRow {
        run_id: String,
        batch_id: String,
        row_id: String,
        iter_name: String,
        table: String,
        dispatch: ValenceIterOrchestratorRowDispatch,
    },
    /// Merge a patch into batch `batch_id`.
    MergeBatch { batch_id: String, patch: IterBatchPatch },
    /// Sleep `ms` milliseconds before polling again.
    Sleep { ms: u64 },
    /// The orchestration is over with this outcome.
    Finish(Result<(), String>),
}

/// Where the orchestrator stands.
pub enum IterPhase {
    /// Reading the run row.
    LoadingRun,
    /// Marking the run `scanning`.
    MarkingScanning,
    /// Counting the table's rows.
    Counting,
    /// Recording `total_rows`.
    RecordingTotal { total: i64 },
    /// Reading the run before a page (cancellation check).
    CheckingCancel,
    /// Fetching the next page.
    FetchingPage,
    /// Creating the page's batch.
    CreatingBatch,
    /// Dispatching row `pos` of the page.
    DispatchingRow,
    /// Recording `enqueued_count` after row `pos`.
    RecordingEnqueued,
    /// Marking the batch `processing`.
    MarkingBatchProcessing,
    /// Reading `scanned_rows`.
    ReadingScanned,
    /// Recording the new `scanned_rows`.
    RecordingScanned { scanned: i64 },
    /// Marking the run `processing` after the last page.
    MarkingProcessing,
    /// Reading the run to see whether every row is accounted for.
    Polling,
    /// Sleeping between polls.
    Sleeping,
    /// Writing the terminal status.
    MarkingTerminal { status: ValenceIterRunStatus },
    /// Over.
    Done { outcome: Result<(), String> },
}

/// Abstract state of the iter orchestrator.
pub struct IterOrchestratorView {
    /// Run driven.
    pub run_id: String,
    /// Row dispatch mode.
    pub dispatch: ValenceIterOrchestratorRowDispatch,
    /// Current phase.
    pub phase: IterPhase,
    /// Table scanned (from the run row).
    pub target_table: String,
    /// Iter type (from the run row).
    pub iter_name: String,
    /// The one row to scan, when the run names one (from the run row).
    pub target_row: Option<String>,
    /// Bare id of the last row of the previous page.
    pub cursor: Option<String>,
    /// Index of the current batch.
    pub batch_index: i64,
    /// Row ids of the current page.
    pub page: Seq<String>,
    /// Id of the current batch.
    pub batch_id: String,
    /// Position of the current row in the page.
    pub pos: nat,
}

impl IterOrchestratorView {
    /// Invariant of every orchestrator state.
    pub open spec fn wf(self) -> bool {
        &&& match self.phase {
            IterPhase::CreatingBatch | IterPhase::MarkingBatchProcessing | IterPhase::ReadingScanned
            | IterPhase::RecordingScanned { .. } => self.page.len() > 0 && uuid_v4_text(
                self.batch_id@,
            ),
            IterPhase::DispatchingRow | IterPhase::RecordingEnqueued => self.pos < self.page.len()
                && uuid_v4_text(self.batch_id@),
            _ => true,
        }
    }

    /// Finish with `outcome`.
    pub open spec fn done(self, outcome: Result<(), String>) -> IterOrchestratorView {
        IterOrchestratorView { phase: IterPhase::Done { outcome }, ..self }
    }

    /// Go to `phase`.
    pub open spec fn to(self, phase: IterPhase) -> IterOrchestratorView {
        IterOrchestratorView { phase, ..self }
    }
}

/// Terminal status once every row is accounted for: `failed` when a row failed.
pub open spec fn iter_terminal_status(failed_rows: i64) -> ValenceIterRunStatus {
    if failed_rows > 0 {
        ValenceIterRunStatus::Failed
    } else {
        ValenceIterRunStatus::Completed
    }
}

/// Every row of the run is accounted for (processed, skipped or failed).
pub open spec fn all_rows_done(r: ValenceIterRun) -> bool {
    r.processed_rows + r.skipped_rows + r.failed_rows >= r.total_rows
}

/// The state after `e`; `id` is the id of a batch created on this event.
pub open spec fn iter_on_event_spec(v: IterOrchestratorView, e: IterOrchestratorEvent, id: String) -> IterOrchestratorView {
    match (v.phase, e) {
        (IterPhase::LoadingRun, IterOrchestratorEvent::RunRead(r)) => match r {
            Err(m) => v.done(Err(m)),
            Ok(None) => v.done(Err(str_string(ITER_RUN_NOT_FOUND))),
            Ok(Some(run)) => if run.status == ValenceIterRunStatus::Cancelled {
                v.done(Ok(()))
            } else {
                IterOrchestratorView {
                    phase: IterPhase::MarkingScanning,
                    target_table: run.target_table,
                    iter_name: run.iter_name,
                    target_row: run.target_row_id,
                    ..v
                }
            },
        },
        (IterPhase::MarkingScanning, IterOrchestratorEvent::Written(r)) => match r {
            Err(m) => v.done(Err(m)),
            Ok(()) => if v.target_row is Some {
                v.to(IterPhase::RecordingTotal { total: 1 })
            } else {
                v.to(IterPhase::Counting)
            },
        },
        (IterPhase::Counting, IterOrchestratorEvent::Counted(r)) => match r {
            Err(m) => v.done(Err(m)),
            Ok(total) => v.to(IterPhase::RecordingTotal { total }),
        },
        (IterPhase::RecordingTotal { .. }, IterOrchestratorEvent::Written(r)) => match r {
            Err(m) => v.done(Err(m)),
            Ok(()) => IterOrchestratorView {
                phase: IterPhase::CheckingCancel,
                cursor: None,
                batch_index: 0,
                ..v
            },
        },
        (IterPhase::CheckingCancel, IterOrchestratorEvent::RunRead(r)) => match r {
            Err(m) => v.done(Err(m)),
            Ok(None) => v.done(Err(str_string(ITER_RUN_DISAPPEARED))),
            Ok(Some(run)) => if run.status == ValenceIterRunStatus::Cancelled {
                v.done(Ok(()))
            } else {
                match v.target_row {
                    None => v.to(IterPhase::FetchingPage),
                    Some(row) => if v.cursor is None {
                        IterOrchestratorView {
                            phase: IterPhase::CreatingBatch,
                            page: seq![row],
                            batch_id: id,
                            pos: 0,
                            ..v
                        }
                    } else {
                        v.to(IterPhase::MarkingProcessing)
                    },
                }
            },
        },
        (IterPhase::FetchingPage, IterOrchestratorEvent::PageFetched(r)) => match r {
            Err(m) => v.done(Err(m)),
            Ok(page) => if page@.len() == 0 {
                v.to(IterPhase::MarkingProcessing)
            } else {
                IterOrchestratorView {
                    phase: IterPhase::CreatingBatch,
                    page: page@,
                    batch_id: id,
                    pos: 0,
                    ..v
                }
            },
        },
        (IterPhase::CreatingBatch, IterOrchestratorEvent::Written(r)) => match r {
            Err(m) => v.done(Err(m)),
            Ok(()) => IterOrchestratorView { phase: IterPhase::DispatchingRow, pos: 0, ..v },
        },
        (IterPhase::DispatchingRow, IterOrchestratorEvent::RowDispatched(r)) => match r {
            Err(m) => v.done(Err(m)),
            Ok(()) => v.to(IterPhase::RecordingEnqueued),
        },
        (IterPhase::RecordingEnqueued, IterOrchestratorEvent::Written(r)) => match r {
            Err(m) => v.done(Err(m)),
            Ok(()) => if v.pos + 1 < v.page.len() {
                IterOrchestratorView { phase: IterPhase::DispatchingRow, pos: v.pos + 1, ..v }
            } else {
                v.to(IterPhase::MarkingBatchProcessing)
            },
        },
        (IterPhase::MarkingBatchProcessing, IterOrchestratorEvent::Written(r)) => match r {
            Err(m) => v.done(Err(m)),
            Ok(()) => v.to(IterPhase::ReadingScanned),
        },
        (IterPhase::ReadingScanned, IterOrchestratorEvent::RunRead(r)) => match r {
            Err(m) => v.done(Err(m)),
            Ok(None) => v.done(Err(str_string(ITER_RUN_MISSING))),
            Ok(Some(run)) => v.to(
                IterPhase::RecordingScanned {
                    scanned: run.scanned_rows.wrapping_add(v.page.len() as i64),
                },
            ),
        },
        (IterPhase::RecordingScanned { .. }, IterOrchestratorEvent::Written(r)) => match r {
            Err(m) => v.done(Err(m)),
            Ok(()) => IterOrchestratorView {
                phase: IterPhase::CheckingCancel,
                cursor: Some(v.page.last()),
                batch_index: v.batch_index.wrapping_add(1),
                ..v
            },
        },
        (IterPhase::MarkingProcessing, IterOrchestratorEvent::Written(r)) => match r {
            Err(m) => v.done(Err(m)),
            Ok(()) => v.to(IterPhase::Polling),
        },
        (IterPhase::Polling, IterOrchestratorEvent::RunRead(r)) => match r {
            Err(m) => v.done(Err(m)),
            Ok(None) => v.done(Err(str_string(ITER_RUN_MISSING))),
            Ok(Some(run)) => if run.status == ValenceIterRunStatus::Cancelled {
                v.done(Ok(()))
            } else if all_rows_done(run) {
                v.to(IterPhase::MarkingTerminal { status: iter_terminal_status(run.failed_rows) })
            } else {
                v.to(IterPhase::Sleeping)
            },
        },
        (IterPhase::Sleeping, IterOrchestratorEvent::Slept) => v.to(IterPhase::Polling),
        (IterPhase::MarkingTerminal { .. }, IterOrchestratorEvent::Written(r)) => v.done(r),
        _ => v,
    }
}

/// A run patch that only sets these fields.
pub open spec fn run_patch_is(
    p: IterRunPatch,
    status: Option<ValenceIterRunStatus>,
    total_rows: Option<i64>,
    scanned_rows: Option<i64>,
    started: bool,
    completed: bool,
) -> bool {
    p.status == status && p.total_rows == total_rows && p.scanned_rows == scanned_rows
        && p.stamp_started_at == started && p.stamp_completed_at == completed
}

/// Two outcomes with the same text.
pub open spec fn same_outcome(a: Result<(), String>, b: Result<(), String>) -> bool {
    match (a, b) {
        (Ok(()), Ok(())) => true,
        (Err(x), Err(y)) => x@ == y@,
        _ => false,
    }
}

/// The action a state asks for.
pub open spec fn iter_action_spec(v: IterOrchestratorView, a: IterOrchestratorAction) -> bool {
    match v.phase {
        IterPhase::LoadingRun | IterPhase::CheckingCancel | IterPhase::ReadingScanned
        | IterPhase::Polling => a matches IterOrchestratorAction::GetRun { run_id } && run_id == v.run_id,
        IterPhase::MarkingScanning => a matches IterOrchestratorAction::MergeRun { run_id, patch }
            && run_id == v.run_id && run_patch_is(
            patch,
            Some(ValenceIterRunStatus::Scanning),
            None,
            None,
            true,
            false,
        ),
        IterPhase::Counting => a matches IterOrchestratorAction::CountRows { table } && table == v.target_table,
        IterPhase::RecordingTotal { total } => a matches IterOrchestratorAction::MergeRun { run_id, patch }
            && run_id == v.run_id && run_patch_is(patch, None, Some(total), None, false, false),
        IterPhase::FetchingPage => a matches IterOrchestratorAction::PageRowIds { table, after, limit }
            && table == v.target_table && after == v.cursor && limit == DEFAULT_BATCH_SIZE,
        IterPhase::CreatingBatch => a matches IterOrchestratorAction::UpsertBatch { batch_id, batch }
            && batch_id == v.batch_id && batch.run_id == v.run_id && batch.batch_index
            == v.batch_index && batch.status == ValenceIterBatchStatus::Enqueuing && batch.row_count
            == v.page.len() as i64 && batch.enqueued_count == 0 && batch.processed == 0
            && batch.skipped == 0 && batch.failed == 0 && batch.cursor == Some(v.page.last()),
        IterPhase::DispatchingRow => a matches IterOrchestratorAction::DispatchRow { run_id, batch_id, row_id, iter_name, table, dispatch }
            && run_id == v.run_id && batch_id == v.batch_id && row_id == v.page[v.pos as int]
            && iter_name == v.iter_name && table == v.target_table && dispatch == v.dispatch,
        IterPhase::RecordingEnqueued => a matches IterOrchestratorAction::MergeBatch { batch_id, patch }
            && batch_id == v.batch_id && patch.status is None && patch.enqueued_count == Some(
            (v.pos + 1) as i64,
        ),
        IterPhase::MarkingBatchProcessing => a matches IterOrchestratorAction::MergeBatch { batch_id, patch }
            && batch_id == v.batch_id && patch.status == Some(ValenceIterBatchStatus::Processing)
            && patch.enqueued_count is None,
        IterPhase::RecordingScanned { scanned } => a matches IterOrchestratorAction::MergeRun { run_id, patch }
            && run_id == v.run_id && run_patch_is(patch, None, None, Some(scanned), false, false),
        IterPhase::MarkingProcessing => a matches IterOrchestratorAction::MergeRun { run_id, patch }
            && run_id == v.run_id && run_patch_is(
            patch,
            Some(ValenceIterRunStatus::Processing),
            None,
            None,
            false,
            false,
        ),
        IterPhase::Sleeping => a matches IterOrchestratorAction::Sleep { ms } && ms == POLL_INTERVAL_MS,
        IterPhase::MarkingTerminal { status } => a matches IterOrchestratorAction::MergeRun { run_id, patch }
            && run_id == v.run_id && run_patch_is(patch, Some(status), None, None, false, true),
        IterPhase::Done { outcome } => a matches IterOrchestratorAction::Finish(r) && same_outcome(
            r,
            outcome,
        ),
    }
}

/// The event fits the phase it answers.
pub open spec fn iter_event_fits(p: IterPhase, e: IterOrchestratorEvent) -> bool {
    match (p, e) {
        (IterPhase::LoadingRun, IterOrchestratorEvent::RunRead(_)) => true,
        (IterPhase::CheckingCancel, IterOrchestratorEvent::RunRead(_)) => true,
        (IterPhase::ReadingScanned, IterOrchestratorEvent::RunRead(_)) => true,
        (IterPhase::Polling, IterOrchestratorEvent::RunRead(_)) => true,
        (IterPhase::MarkingScanning, IterOrchestratorEvent::Written(_)) => true,
        (IterPhase::RecordingTotal { .. }, IterOrchestratorEvent::Written(_)) => true,
        (IterPhase::CreatingBatch, IterOrchestratorEvent::Written(_)) => true,
        (IterPhase::RecordingEnqueued, IterOrchestratorEvent::Written(_)) => true,
        (IterPhase::MarkingBatchProcessing, IterOrchestratorEvent::Written(_)) => true,
        (IterPhase::RecordingScanned { .. }, IterOrchestratorEvent::Written(_)) => true,
        (IterPhase::MarkingProcessing, IterOrchestratorEvent::Written(_)) => true,
        (IterPhase::MarkingTerminal { .. }, IterOrchestratorEvent::Written(_)) => true,
        (IterPhase::Counting, IterOrchestratorEvent::Counted(_)) => true,
        (IterPhase::FetchingPage, IterOrchestratorEvent::PageFetched(_)) => true,
        (IterPhase::DispatchingRow, IterOrchestratorEvent::RowDispatched(_)) => true,
        (IterPhase::Sleeping, IterOrchestratorEvent::Slept) => true,
        _ => false,
    }
}

/// Two views agree up to strings with the same text in the outcome.
pub open spec fn iter_views_agree(a: IterOrchestratorView, b: IterOrchestratorView) -> bool {
    &&& a.run_id == b.run_id
    &&& a.dispatch == b.dispatch
    &&& a.target_table == b.target_table
    &&& a.iter_name == b.iter_name
    &&& a.target_row == b.target_row
    &&& a.cursor == b.cursor
    &&& a.batch_index == b.batch_index
    &&& a.page == b.page
    &&& a.batch_id == b.batch_id
    &&& a.pos == b.pos
    &&& match (a.phase, b.phase) {
        (IterPhase::Done { outcome: x }, IterPhase::Done { outcome: y }) => same_outcome(x, y),
        (x, y) => x == y,
    }
}

/// Decisions of one iter run: cancellation checks, counting, paging with the last id of each
/// page as the next cursor, one batch per page, every row dispatched, and the terminal status.
pub struct IterOrchestrator {
    run_id: String,
    dispatch: ValenceIterOrchestratorRowDispatch,
    phase: IterPhase,
    target_table: String,
    iter_name: String,
    target_row: Option<String>,
    cursor: Option<String>,
    batch_index: i64,
    page: Vec<String>,
    batch_id: String,
    pos: usize,
}

impl View for IterOrchestrator {
    type V = IterOrchestratorView;

    closed spec fn view(&self) -> IterOrchestratorView {
        IterOrchestratorView {
            run_id: self.run_id,
            dispatch: self.dispatch,
            phase: self.phase,
            target_table: self.target_table,
            iter_name: self.iter_name,
            target_row: self.target_row,
            cursor: self.cursor,
            batch_index: self.batch_index,
            page: self.page@,
            batch_id: self.batch_id,
            pos: self.pos as nat,
        }
    }
}

fn clone_opt(s: &Option<String>) -> (r: Option<String>)
    ensures
        r == *s,
{
    match s {
        Some(t) => Some(t.clone()),
        None => None,
    }
}

fn run_patch(
    status: Option<ValenceIterRunStatus>,
    total_rows: Option<i64>,
    scanned_rows: Option<i64>,
    started: bool,
    completed: bool,
) -> (p: IterRunPatch)
    ensures
        run_patch_is(p, status, total_rows, scanned_rows, started, completed),
{
    IterRunPatch {
        status,
        total_rows,
        scanned_rows,
        stamp_started_at: started,
        stamp_completed_at: completed,
    }
}

/// Law: a run found cancelled (at start, before any page, or while polling) ends the
/// orchestration successfully with no further reads or writes.
pub proof fn law_cancelled_run_stops(v: IterOrchestratorView, run: ValenceIterRun, id: String)
    requires
        v.phase == IterPhase::LoadingRun || v.phase == IterPhase::CheckingCancel || v.phase
            == IterPhase::Polling,
        run.status == ValenceIterRunStatus::Cancelled,
    ensures
        iter_on_event_spec(v, IterOrchestratorEvent::RunRead(Ok(Some(run))), id).phase == (
        IterPhase::Done { outcome: Ok(()) }),
{
}

/// Law: each non-empty page becomes one batch that records the page's size and last id, its
/// rows are dispatched one by one in page order, `scanned_rows` grows by the page size, and the
/// next page starts after the page's last id (so, with the paging law, the scan visits every
/// id once in ascending order).
pub proof fn law_page_becomes_batch(v: IterOrchestratorView, page: Vec<String>, id: String)
    requires
        v.phase == IterPhase::FetchingPage,
        page@.len() > 0,
    ensures
        ({
            let b = iter_on_event_spec(v, IterOrchestratorEvent::PageFetched(Ok(page)), id);
            let d = iter_on_event_spec(b, IterOrchestratorEvent::Written(Ok(())), id);
            &&& b.phase == IterPhase::CreatingBatch
            &&& b.page == page@
            &&& b.batch_id == id
            &&& forall|a: IterOrchestratorAction|
                iter_action_spec(b, a) ==> (a matches IterOrchestratorAction::UpsertBatch { batch, .. }
                    && batch.row_count == page@.len() as i64 && batch.cursor == Some(page@.last()))
            &&& d.phase == IterPhase::DispatchingRow && d.pos == 0
        }),
{
}

/// Law: rows of a batch are dispatched in page order: after row `pos` is dispatched and its
/// count recorded, the next row is `pos + 1`, or the batch is marked `processing` after the
/// last row.
pub proof fn law_rows_dispatched_in_order(v: IterOrchestratorView, id: String)
    requires
        v.wf(),
        v.phase == IterPhase::DispatchingRow,
    ensures
        ({
            let r = iter_on_event_spec(v, IterOrchestratorEvent::RowDispatched(Ok(())), id);
            let n = iter_on_event_spec(r, IterOrchestratorEvent::Written(Ok(())), id);
            &&& r.phase == IterPhase::RecordingEnqueued && r.pos == v.pos
            &&& v.pos + 1 < v.page.len() ==> n.phase == IterPhase::DispatchingRow && n.pos == v.pos
                + 1
            &&& v.pos + 1 >= v.page.len() ==> n.phase == IterPhase::MarkingBatchProcessing
        }),
{
}

/// Law: after a batch, `scanned_rows` grows by the batch's size and the next page's cursor is
/// the batch's last row id.
pub proof fn law_cursor_is_last_row(v: IterOrchestratorView, run: ValenceIterRun, id: String)
    requires
        v.wf(),
        v.phase == IterPhase::ReadingScanned,
    ensures
        ({
            let s = iter_on_event_spec(v, IterOrchestratorEvent::RunRead(Ok(Some(run))), id);
            let c = iter_on_event_spec(s, IterOrchestratorEvent::Written(Ok(())), id);
            &&& s.phase == (IterPhase::RecordingScanned {
                scanned: run.scanned_rows.wrapping_add(v.page.len() as i64),
            })
            &&& c.phase == IterPhase::CheckingCancel
            &&& c.cursor == Some(v.page.last())
            &&& c.batch_index == v.batch_index.wrapping_add(1)
        }),
{
}

/// Law: polling ends once processed, skipped and failed rows reach the total; the run is then
/// `failed` exactly when some row failed, `completed` otherwise. Before that, it sleeps and
/// polls again.
pub proof fn law_iter_terminal_status(v: IterOrchestratorView, run: ValenceIterRun, id: String)
    requires
        v.phase == IterPhase::Polling,
        run.status != ValenceIterRunStatus::Cancelled,
    ensures
        ({
            let n = iter_on_event_spec(v, IterOrchestratorEvent::RunRead(Ok(Some(run))), id);
            &&& all_rows_done(run) ==> n.phase == (IterPhase::MarkingTerminal {
                status: if run.failed_rows > 0 {
                    ValenceIterRunStatus::Failed
                } else {
                    ValenceIterRunStatus::Completed
                },
            })
            &&& !all_rows_done(run) ==> n.phase == IterPhase::Sleeping
        }),
{
}

impl IterOrchestrator {
    /// Start orchestrating run `run_id`.
    pub fn new(run_id: String, dispatch: ValenceIterOrchestratorRowDispatch) -> (o: Self)
        ensures
            o@.wf(),
            o@.run_id == run_id,
            o@.dispatch == dispatch,
            o@.phase == IterPhase::LoadingRun,
    {
        IterOrchestrator {
            run_id,
            dispatch,
            phase: IterPhase::LoadingRun,
            target_table: String::new(),
            iter_name: String::new(),
            target_row: None,
            cursor: None,
            batch_index: 0,
            page: Vec::new(),
            batch_id: String::new(),
            pos: 0,
        }
    }

    /// The action this state asks for.
    pub fn next_action(&self) -> (a: IterOrchestratorAction)
        requires
            self@.wf(),
        ensures
            iter_action_spec(self@, a),
    {
        match &self.phase {
            IterPhase::LoadingRun | IterPhase::CheckingCancel | IterPhase::ReadingScanned
            | IterPhase::Polling => IterOrchestratorAction::GetRun { run_id: self.run_id.clone() },
            IterPhase::MarkingScanning => IterOrchestratorAction::MergeRun {
                run_id: self.run_id.clone(),
                patch: run_patch(Some(ValenceIterRunStatus::Scanning), None, None, true, false),
            },
            IterPhase::Counting => IterOrchestratorAction::CountRows {
                table: self.target_table.clone(),
            },
            IterPhase::RecordingTotal { total } => IterOrchestratorAction::MergeRun {
                run_id: self.run_id.clone(),
                patch: run_patch(None, Some(*total), None, false, false),
            },
            IterPhase::FetchingPage => IterOrchestratorAction::PageRowIds {
                table: self.target_table.clone(),
                after: clone_opt(&self.cursor),
                limit: DEFAULT_BATCH_SIZE,
            },
            IterPhase::CreatingBatch => {
                let n = self.page.len();
                IterOrchestratorAction::UpsertBatch {
                    batch_id: self.batch_id.clone(),
                    batch: ValenceIterBatch {
                        run_id: self.run_id.clone(),
                        batch_index: self.batch_index,
                        status: ValenceIterBatchStatus::Enqueuing,
                        row_count: n as i64,
                        enqueued_count: 0,
                        processed: 0,
                        skipped: 0,
                        failed: 0,
                        cursor: Some(self.page[n - 1].clone()),
                    },
                }
            },
            IterPhase::DispatchingRow => IterOrchestratorAction::DispatchRow {
                run_id: self.run_id.clone(),
                batch_id: self.batch_id.clone(),
                row_id: self.page[self.pos].clone(),
                iter_name: self.iter_name.clone(),
                table: self.target_table.clone(),
                dispatch: self.dispatch,
            },
            IterPhase::RecordingEnqueued => {
                let n = self.page.len();
                assert(self.pos < n);
                IterOrchestratorAction::MergeBatch {
                    batch_id: self.batch_id.clone(),
                    patch: IterBatchPatch {
                        status: None,
                        enqueued_count: Some((self.pos + 1) as i64),
                    },
                }
            },
            IterPhase::MarkingBatchProcessing => IterOrchestratorAction::MergeBatch {
                batch_id: self.batch_id.clone(),
                patch: IterBatchPatch {
                    status: Some(ValenceIterBatchStatus::Processing),
                    enqueued_count: None,
                },
            },
            IterPhase::RecordingScanned { scanned } => IterOrchestratorAction::MergeRun {
                run_id: self.run_id.clone(),
                patch: run_patch(None, None, Some(*scanned), false, false),
            },
            IterPhase::MarkingProcessing => IterOrchestratorAction::MergeRun {
                run_id: self.run_id.clone(),
                patch: run_patch(Some(ValenceIterRunStatus::Processing), None, None, false, false),
            },
            IterPhase::Sleeping => IterOrchestratorAction::Sleep { ms: POLL_INTERVAL_MS },
            IterPhase::MarkingTerminal { status } => IterOrchestratorAction::MergeRun {
                run_id: self.run_id.clone(),
                patch: run_patch(Some(*status), None, None, false, true),
            },
            IterPhase::Done { outcome } => IterOrchestratorAction::Finish(
                match outcome {
                    Ok(()) => Ok(()),
                    Err(m) => Err(m.clone()),
                },
            ),
        }
    }

    /// Hand back the result of the last action.
    #[verifier::rlimit(60)]
    pub fn on_event(&mut self, e: IterOrchestratorEvent)
        requires
            old(self)@.wf(),
            iter_event_fits(old(self)@.phase, e),
        ensures
            final(self)@.wf(),
            iter_views_agree(final(self)@, iter_on_event_spec(old(self)@, e, final(self)@.batch_id)),
    {
        let mut phase = IterPhase::LoadingRun;
        std::mem::swap(&mut phase, &mut self.phase);
        match (phase, e) {
            (IterPhase::LoadingRun, IterOrchestratorEvent::RunRead(r)) => match r {
                Err(m) => self.phase = IterPhase::Done { outcome: Err(m) },
                Ok(None) => self.phase = IterPhase::Done {
                    outcome: Err(String::from_str(ITER_RUN_NOT_FOUND)),
                },
                Ok(Some(run)) => {
                    if let ValenceIterRunStatus::Cancelled = run.status {
                        self.phase = IterPhase::Done { outcome: Ok(()) };
                    } else {
                        self.target_table = run.target_table;
                        self.iter_name = run.iter_name;
                        self.target_row = run.target_row_id;
                        self.phase = IterPhase::MarkingScanning;
                    }
                },
            },
            (IterPhase::MarkingScanning, IterOrchestratorEvent::Written(r)) => match r {
                Err(m) => self.phase = IterPhase::Done { outcome: Err(m) },
                Ok(()) => if self.target_row.is_some() {
                    self.phase = IterPhase::RecordingTotal { total: 1 };
                } else {
                    self.phase = IterPhase::Counting;
                },
            },
            (IterPhase::Counting, IterOrchestratorEvent::Counted(r)) => match r {
                Err(m) => self.phase = IterPhase::Done { outcome: Err(m) },
                Ok(total) => self.phase = IterPhase::RecordingTotal { total },
            },
            (IterPhase::RecordingTotal { .. }, IterOrchestratorEvent::Written(r)) => match r {
                Err(m) => self.phase = IterPhase::Done { outcome: Err(m) },
                Ok(()) => {
                    self.cursor = None;
                    self.batch_index = 0;
                    self.phase = IterPhase::CheckingCancel;
                },
            },
            (IterPhase::CheckingCancel, IterOrchestratorEvent::RunRead(r)) => match r {
                Err(m) => self.phase = IterPhase::Done { outcome: Err(m) },
                Ok(None) => self.phase = IterPhase::Done {
                    outcome: Err(String::from_str(ITER_RUN_DISAPPEARED)),
                },
                Ok(Some(run)) => {
                    if let ValenceIterRunStatus::Cancelled = run.status {
                        self.phase = IterPhase::Done { outcome: Ok(()) };
                    } else {
                        match &self.target_row {
                            None => self.phase = IterPhase::FetchingPage,
                            Some(row) => if self.cursor.is_none() {
                                let mut page: Vec<String> = Vec::new();
                                page.push(row.clone());
                                assert(page@ =~= seq![*row]);
                                self.page = page;
                                self.batch_id = new_uuid_v4();
                                self.pos = 0;
                                self.phase = IterPhase::CreatingBatch;
                            } else {
                                self.phase = IterPhase::MarkingProcessing;
                            },
                        }
                    }
                },
            },
            (IterPhase::FetchingPage, IterOrchestratorEvent::PageFetched(r)) => match r {
                Err(m) => self.phase = IterPhase::Done { outcome: Err(m) },
                Ok(page) => {
                    if page.len() == 0 {
                        self.phase = IterPhase::MarkingProcessing;
                    } else {
                        self.page = page;
                        self.batch_id = new_uuid_v4();
                        self.pos = 0;
                        self.phase = IterPhase::CreatingBatch;
                    }
                },
            },
            (IterPhase::CreatingBatch, IterOrchestratorEvent::Written(r)) => match r {
                Err(m) => self.phase = IterPhase::Done { outcome: Err(m) },
                Ok(()) => {
                    self.pos = 0;
                    self.phase = IterPhase::DispatchingRow;
                },
            },
            (IterPhase::DispatchingRow, IterOrchestratorEvent::RowDispatched(r)) => match r {
                Err(m) => self.phase = IterPhase::Done { outcome: Err(m) },
                Ok(()) => self.phase = IterPhase::RecordingEnqueued,
            },
            (IterPhase::RecordingEnqueued, IterOrchestratorEvent::Written(r)) => match r {
                Err(m) => self.phase = IterPhase::Done { outcome: Err(m) },
                Ok(()) => {
                    let n = self.page.len();
                    if self.pos + 1 < n {
                        self.pos = self.pos + 1;
                        self.phase = IterPhase::DispatchingRow;
                    } else {
                        self.phase = IterPhase::MarkingBatchProcessing;
                    }
                },
            },
            (IterPhase::MarkingBatchProcessing, IterOrchestratorEvent::Written(r)) => match r {
                Err(m) => self.phase = IterPhase::Done { outcome: Err(m) },
                Ok(()) => self.phase = IterPhase::ReadingScanned,
            },
            (IterPhase::ReadingScanned, IterOrchestratorEvent::RunRead(r)) => match r {
                Err(m) => self.phase = IterPhase::Done { outcome: Err(m) },
                Ok(None) => self.phase = IterPhase::Done {
                    outcome: Err(String::from_str(ITER_RUN_MISSING)),
                },
                Ok(Some(run)) => {
                    let n = self.page.len() as i64;
                    self.phase = IterPhase::RecordingScanned {
                        scanned: run.scanned_rows.wrapping_add(n),
                    };
                },
            },
            (IterPhase::RecordingScanned { .. }, IterOrchestratorEvent::Written(r)) => match r {
                Err(m) => self.phase = IterPhase::Done { outcome: Err(m) },
                Ok(()) => {
                    let n = self.page.len();
                    self.cursor = Some(self.page[n - 1].clone());
                    self.batch_index = self.batch_index.wrapping_add(1);
                    self.phase = IterPhase::CheckingCancel;
                },
            },
            (IterPhase::MarkingProcessing, IterOrchestratorEvent::Written(r)) => match r {
                Err(m) => self.phase = IterPhase::Done { outcome: Err(m) },
                Ok(()) => self.phase = IterPhase::Polling,
            },
            (IterPhase::Polling, IterOrchestratorEvent::RunRead(r)) => match r {
                Err(m) => self.phase = IterPhase::Done { outcome: Err(m) },
                Ok(None) => self.phase = IterPhase::Done {
                    outcome: Err(String::from_str(ITER_RUN_MISSING)),
                },
                Ok(Some(run)) => {
                    if let ValenceIterRunStatus::Cancelled = run.status {
                        self.phase = IterPhase::Done { outcome: Ok(()) };
                    } else {
                        let done = run.processed_rows as i128 + run.skipped_rows as i128
                            + run.failed_rows as i128;
                        if done >= run.total_rows as i128 {
                            let status = if run.failed_rows > 0 {
                                ValenceIterRunStatus::Failed
                            } else {
                                ValenceIterRunStatus::Completed
                            };
                            self.phase = IterPhase::MarkingTerminal { status };
                        } else {
                            self.phase = IterPhase::Sleeping;
                        }
                    }
                },
            },
            (IterPhase::Sleeping, IterOrchestratorEvent::Slept) => self.phase = IterPhase::Polling,
            (IterPhase::MarkingTerminal { .. }, IterOrchestratorEvent::Written(r)) => {
                self.phase = IterPhase::Done { outcome: r }
            },
            (p, _) => self.phase = p,
        }
    }
}


/// Law: a run that names a target row scans that row only: its total is one row (the table is
/// not counted), the first page is exactly that row, and after it the scan ends.
pub proof fn law_target_row_scans_one_row(v: IterOrchestratorView, run: ValenceIterRun, id: String)
    requires
        v.target_row is Some,
        run.status != ValenceIterRunStatus::Cancelled,
    ensures
        v.phase == IterPhase::MarkingScanning ==> iter_on_event_spec(
            v,
            IterOrchestratorEvent::Written(Ok(())),
            id,
        ).phase == (IterPhase::RecordingTotal { total: 1 }),
        v.phase == IterPhase::CheckingCancel && v.cursor is None ==> ({
            let b = iter_on_event_spec(v, IterOrchestratorEvent::RunRead(Ok(Some(run))), id);
            b.phase == IterPhase::CreatingBatch && b.page == seq![v.target_row.unwrap()]
        }),
        v.phase == IterPhase::CheckingCancel && v.cursor is Some ==> iter_on_event_spec(
            v,
            IterOrchestratorEvent::RunRead(Ok(Some(run))),
            id,
        ).phase == IterPhase::MarkingProcessing,
{
}


/// Law: the counted row count becomes the run's total. Whatever count `n` the host reports, the
/// next write records `total_rows = n` and changes nothing else of the run, so polling waits
/// until processed, skipped and failed rows reach `n`.
pub proof fn law_counted_total_recorded(v: IterOrchestratorView, n: i64, id: String, a: IterOrchestratorAction)
    requires
        v.phase == IterPhase::Counting,
    ensures
        iter_on_event_spec(v, IterOrchestratorEvent::Counted(Ok(n)), id).phase == (
        IterPhase::RecordingTotal { total: n }),
        iter_action_spec(iter_on_event_spec(v, IterOrchestratorEvent::Counted(Ok(n)), id), a) ==> (
        a matches IterOrchestratorAction::MergeRun { run_id, patch } && run_id == v.run_id
            && patch.total_rows == Some(n) && patch.status is None && patch.scanned_rows is None
            && !patch.stamp_started_at && !patch.stamp_completed_at),
{
}

} // verus!
