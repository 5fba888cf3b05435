//! Deletion-run bookkeeping: the run row, its status, claiming, polling and requester lookup.

use vstd::prelude::*;

use crate::ids::{new_uuid_v4, uuid_v4_text};
use crate::model::{Actor, PlatformError};
use crate::text::{concat3, strip_prefix_or_keep, strip_prefix_or_self};

verus! {

/// Table holding deletion runs.
pub const VALENCE_DELETION_RUN_TABLE: &'static str = "valence_deletion_run";

/// Prefix of a full `Thing` id of a deletion run (`valence_deletion_run:<uuid>`).
pub const DELETION_RUN_ID_PREFIX: &'static str = "valence_deletion_run:";

/// Counts the runs requested by `$requested_by` that are still queued, scanning or processing.
pub const ACTIVE_RUNS_FOR_REQUESTER_QUERY: &'static str = "SELECT count() AS n FROM valence_deletion_run WHERE requested_by = $requested_by AND status IN ['queued', 'scanning', 'processing'] GROUP ALL";

/// How many runs a per-record or per-schema listing returns (newest first).
pub const RUN_LISTING_LIMIT: u32 = 50;

/// Conditional update that claims a queued run on SurrealDB (only one caller gets a row back).
pub const CLAIM_QUEUED_QUERY: &'static str = "UPDATE type::record('valence_deletion_run', $rid) SET status = 'scanning', started_at = time::now() WHERE status = 'queued' RETURN AFTER";

/// Status of a deletion run.
#[derive(Clone, Copy, Debug, PartialEq, Eq)]
pub enum DeletionRunStatus {
    /// `queued`: created, orchestrator not started.
    Queued,
    /// `scanning`: claimed by an orchestrator.
    Scanning,
    /// `processing`: steps are being run.
    Processing,
    /// `completed`
    Completed,
    /// `failed`
    Failed,
    /// `cancelled`
    Cancelled,
}

/// The text a status is stored as.
pub open spec fn status_text(s: DeletionRunStatus) -> Seq<char> {
    match s {
        DeletionRunStatus::Queued => "queued"@,
        DeletionRunStatus::Scanning => "scanning"@,
        DeletionRunStatus::Processing => "processing"@,
        DeletionRunStatus::Completed => "completed"@,
        DeletionRunStatus::Failed => "failed"@,
        DeletionRunStatus::Cancelled => "cancelled"@,
    }
}

impl DeletionRunStatus {
    /// The text the status is stored as.
    pub fn as_str(&self) -> (r: &'static str)
        ensures
            r@ == status_text(*self),
    {
        match self {
            DeletionRunStatus::Queued => "queued",
            DeletionRunStatus::Scanning => "scanning",
            DeletionRunStatus::Processing => "processing",
            DeletionRunStatus::Completed => "completed",
            DeletionRunStatus::Failed => "failed",
            DeletionRunStatus::Cancelled => "cancelled",
        }
    }
}

/// The fields of a run row that the logic reads.
#[derive(Clone, Debug)]
pub struct RunFields {
    /// `status`, when it is a string.
    pub status: Option<String>,
    /// `root_table`, when it is a string.
    pub root_table: Option<String>,
    /// `root_record_id`, when it is a string.
    pub root_record_id: Option<String>,
    /// `completed_steps`, when it is an integer.
    pub completed_steps: Option<i64>,
    /// `failed_steps`, when it is an integer.
    pub failed_steps: Option<i64>,
}

/// The status text equals `s`.
pub open spec fn status_is(f: RunFields, s: Seq<char>) -> bool {
    match f.status {
        Some(t) => t@ == s,
        None => false,
    }
}

/// Whether the run's status is `s` (a missing status is no status).
pub fn run_status_is(f: &RunFields, s: &str) -> (r: bool)
    ensures
        r == status_is(*f, s@),
{
    match &f.status {
        Some(t) => crate::text::str_eq(t.as_str(), s),
        None => false,
    }
}

/// A change to a run row.
#[derive(Clone, Debug)]
pub struct RunPatch {
    /// New status.
    pub status: Option<DeletionRunStatus>,
    /// New `error_message`.
    pub error_message: Option<String>,
    /// New `total_steps`.
    pub total_steps: Option<i64>,
    /// Stamp `completed_at` with the current time.
    pub stamp_completed_at: bool,
    /// Stamp `started_at` with the current time.
    pub stamp_started_at: bool,
}

/// A new `valence_deletion_run` row (the store stamps `requested_at`).
#[derive(Clone, Debug)]
pub struct DeletionRunRow {
    /// Fresh run id.
    pub id: String,
    /// Root table of the delete.
    pub root_table: String,
    /// Root record id of the delete.
    pub root_record_id: String,
    /// Always `Queued` for a new run.
    pub status: DeletionRunStatus,
    /// Step counters, all zero.
    pub total_steps: i64,
    /// See `total_steps`.
    pub completed_steps: i64,
    /// See `total_steps`.
    pub failed_steps: i64,
    /// The requester's actor JSON text.
    pub requested_by: String,
}

/// CRUD helpers for the `valence_deletion_run` platform table.
pub struct DeletionService;

/// Why polling a run should stop, or that it should continue.
#[derive(Clone, Debug)]
pub enum WaitStep {
    /// The run is `completed` or `cancelled`, or its row is gone.
    Settled,
    /// Stop with this error (`failed` run, or the deadline passed).
    Fail(PlatformError),
    /// Sleep and read the run again.
    Poll,
}

/// Poll interval of [`DeletionService::wait_step`], in milliseconds.
pub const WAIT_POLL_INTERVAL_MS: u64 = 350;

impl DeletionService {
    /// A new queued run row for a delete of `root_table`/`root_record_id` requested by the actor
    /// whose JSON text is `requested_by`; its id is a fresh UUID.
    pub fn create_run(root_table: &str, root_record_id: &str, requested_by: &str) -> (r:
        DeletionRunRow)
        ensures
            uuid_v4_text(r.id@),
            r.root_table@ == root_table@,
            r.root_record_id@ == root_record_id@,
            r.status == DeletionRunStatus::Queued,
            r.total_steps == 0 && r.completed_steps == 0 && r.failed_steps == 0,
            r.requested_by@ == requested_by@,
    {
        DeletionRunRow {
            id: new_uuid_v4(),
            root_table: String::from_str(root_table),
            root_record_id: String::from_str(root_record_id),
            status: DeletionRunStatus::Queued,
            total_steps: 0,
            completed_steps: 0,
            failed_steps: 0,
            requested_by: String::from_str(requested_by),
        }
    }

    /// Read-then-merge claim (SQL and in-memory engines): the run exists and is `queued`.
    /// Returns the patch that moves it to `scanning`, or `None` when this caller must not run it.
    pub fn try_claim_queued_to_scanning(run: &Option<RunFields>) -> (r: Option<RunPatch>)
        ensures
            r is Some <==> (run matches Some(f) && status_is(*f, "queued"@)),
            r matches Some(p) ==> (p.status == Some(DeletionRunStatus::Scanning)
                && p.stamp_started_at && !p.stamp_completed_at && p.error_message is None
                && p.total_steps is None),
    {
        let queued = match run {
            Some(f) => run_status_is(f, "queued"),
            None => false,
        };
        if queued {
            Some(
                RunPatch {
                    status: Some(DeletionRunStatus::Scanning),
                    error_message: None,
                    total_steps: None,
                    stamp_completed_at: false,
                    stamp_started_at: true,
                },
            )
        } else {
            None
        }
    }

    /// The actor a run was requested by, or why it cannot be restored. There is no fallback to
    /// System: a missing run is `NotFound`, a missing or `null` `requested_by` is `Internal`,
    /// and an unparseable one is the parse error.
    pub fn requester_valence_from_run(run_id: &str, run: Option<RequestedBy>) -> (r: Result<
        Actor,
        PlatformError,
    >)
        ensures
            match run {
                None => r matches Err(PlatformError::NotFound(m)) && m@ == "deletion run "@
                    + run_id@ + " not found"@,
                Some(RequestedBy::Missing) => r matches Err(PlatformError::Internal(m)) && m@
                    == "deletion run "@ + run_id@ + " missing requested_by; refusing System fallback"@,
                Some(RequestedBy::Null) => r matches Err(PlatformError::Internal(m)) && m@
                    == "deletion run "@ + run_id@ + " has null requested_by; refusing System fallback"@,
                Some(RequestedBy::Parsed(p)) => r == p,
            },
    {
        match run {
            None => Err(
                PlatformError::NotFound(concat3("deletion run ", run_id, " not found")),
            ),
            Some(RequestedBy::Missing) => Err(
                PlatformError::Internal(
                    concat3(
                        "deletion run ",
                        run_id,
                        " missing requested_by; refusing System fallback",
                    ),
                ),
            ),
            Some(RequestedBy::Null) => Err(
                PlatformError::Internal(
                    concat3(
                        "deletion run ",
                        run_id,
                        " has null requested_by; refusing System fallback",
                    ),
                ),
            ),
            Some(RequestedBy::Parsed(p)) => p,
        }
    }

    /// The bare id (no `valence_deletion_run:` prefix) of the most recent run, given the string
    /// `id` of the first listed run (`None` when there is no run or its id is not a string).
    pub fn latest_run_id_for_record(first_row_id: Option<&str>) -> (r: Option<String>)
        ensures
            match first_row_id {
                Some(s) => r matches Some(t) && t@ == strip_prefix_or_self(
                    s@,
                    DELETION_RUN_ID_PREFIX@,
                ),
                None => r is None,
            },
    {
        match first_row_id {
            Some(s) => Some(strip_prefix_or_keep(s, DELETION_RUN_ID_PREFIX)),
            None => None,
        }
    }

    /// One round of `wait_for_run_terminal`: stop with an error once the deadline passed, settle
    /// on `completed`, `cancelled` or a vanished row, fail on `failed`, else poll again.
    pub fn wait_step(run_id: &str, deadline_passed: bool, run: &Option<RunFields>) -> (r: WaitStep)
        ensures
            deadline_passed ==> (r matches WaitStep::Fail(PlatformError::Internal(m)) && m@
                == "valence deletion run "@ + run_id@
                + " did not reach a terminal status before deadline"@),
            !deadline_passed ==> match run {
                None => (r matches WaitStep::Settled),
                Some(f) => if status_is(*f, "completed"@) || status_is(*f, "cancelled"@) {
                    (r matches WaitStep::Settled)
                } else if status_is(*f, "failed"@) {
                    (r matches WaitStep::Fail(PlatformError::Database(m)) && m@
                        == "valence deletion run "@ + run_id@ + " failed"@)
                } else {
                    (r matches WaitStep::Poll)
                },
            },
    {
        if deadline_passed {
            return WaitStep::Fail(
                PlatformError::Internal(
                    concat3(
                        "valence deletion run ",
                        run_id,
                        " did not reach a terminal status before deadline",
                    ),
                ),
            );
        }
        proof {
            reveal_strlit("completed");
            reveal_strlit("failed");
            reveal_strlit("cancelled");
            assert("cancelled"@.len() != "failed"@.len());
            assert("completed"@.len() != "failed"@.len());
        }
        match run {
            None => WaitStep::Settled,
            Some(f) => {
                if run_status_is(f, "completed") {
                    WaitStep::Settled
                } else if run_status_is(f, "failed") {
                    WaitStep::Fail(
                        PlatformError::Database(
                            concat3("valence deletion run ", run_id, " failed"),
                        ),
                    )
                } else if run_status_is(f, "cancelled") {
                    WaitStep::Settled
                } else {
                    WaitStep::Poll
                }
            },
        }
    }
}

/// What a run row says about its requester.
#[derive(Debug)]
pub enum RequestedBy {
    /// The row has no `requested_by`.
    Missing,
    /// `requested_by` is `null`.
    Null,
    /// `requested_by` parsed to an actor, or the parse error.
    Parsed(Result<Actor, PlatformError>),
}

} // verus!
