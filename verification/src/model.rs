//! Plain-value models of the store types that the orchestration logic reads and writes.

use vstd::prelude::*;

verus! {

/// Who a Valence handle acts as (the store's actor kinds).
#[derive(Clone, Debug, PartialEq, Eq)]
pub enum Actor {
    /// An end user.
    User { user_id: String },
    /// A named service account.
    ServiceUser { service_name: String },
    /// The platform itself, tagged with the operation it performs.
    System { operation: String },
    /// No identity.
    Anonymous,
}

/// Errors of the store, with their messages.
#[derive(Clone, Debug, PartialEq, Eq)]
pub enum PlatformError {
    /// Input rejected before any write.
    Validation(String),
    /// A row or record does not exist.
    NotFound(String),
    /// The backend failed.
    Database(String),
    /// Wiring or invariant failure inside the platform.
    Internal(String),
    /// A privacy policy denied the operation.
    Privacy(String),
    /// The record is already queued for deletion.
    PendingDeletion(String),
    /// A value could not be (de)serialized.
    Serialization(String),
    /// The actor could not be established.
    Identity(String),
}

/// The message an error carries.
pub open spec fn error_message(e: PlatformError) -> Seq<char> {
    match e {
        PlatformError::Validation(m) => m@,
        PlatformError::NotFound(m) => m@,
        PlatformError::Database(m) => m@,
        PlatformError::Internal(m) => m@,
        PlatformError::Privacy(m) => m@,
        PlatformError::PendingDeletion(m) => m@,
        PlatformError::Serialization(m) => m@,
        PlatformError::Identity(m) => m@,
    }
}

/// A primary-key cell as a query returns it: a string (`table:id` or bare), an object, or
/// another JSON value. `rendered` is the cell's JSON text.
#[derive(Clone, Debug)]
pub enum IdCell {
    /// A JSON string.
    Text(String),
    /// A JSON object; `id` is its `"id"` member when that member is a string, and `keyed`
    /// tells whether it has a `"tb"` or an `"id"` member at all.
    Object { id: Option<String>, keyed: bool, rendered: String },
    /// Any other JSON value.
    Other { rendered: String },
}

/// What a deletion DAG node does to its record.
#[derive(Clone, Debug, PartialEq, Eq)]
pub enum DeletionAction {
    /// Physically delete the record.
    CascadeDelete,
    /// Clear the referencing `field`.
    SetNull { field: String },
    /// Remove the many-to-many edge rows in `edge_table`.
    RemoveEdge { edge_table: String },
}

/// One node of a deletion DAG.
#[derive(Clone, Debug, PartialEq, Eq)]
pub struct DeletionNode {
    /// Table of the record.
    pub table: String,
    /// Bare id of the record.
    pub record_id: String,
    /// What happens to the record.
    pub action: DeletionAction,
    /// Distance from the root (the root is depth 0).
    pub depth: u32,
    /// Schema connection that led here.
    pub connection_name: String,
    /// Table the connection comes from.
    pub from_table: String,
}

/// Action column of a deletion step row.
#[derive(Clone, Copy, Debug, PartialEq, Eq)]
pub enum ValenceDeletionStepAction {
    /// `cascade_delete`
    CascadeDelete,
    /// `set_null`
    SetNull,
    /// `remove_edge`
    RemoveEdge,
}

/// Status column of a deletion step row.
#[derive(Clone, Copy, Debug, PartialEq, Eq)]
pub enum ValenceDeletionStepStatus {
    /// `queued`
    Queued,
    /// `in_progress`
    InProgress,
    /// `completed`
    Completed,
    /// `failed`
    Failed,
    /// `skipped`
    Skipped,
}

/// A `valence_deletion_step` row: one DAG node to process within a run.
#[derive(Clone, Debug)]
pub struct ValenceDeletionStep {
    /// Deletion run the step belongs to.
    pub run_id: String,
    /// Table of the record.
    pub record_table: String,
    /// Bare id of the record.
    pub record_id: String,
    /// What the step does.
    pub action: ValenceDeletionStepAction,
    /// Field to clear, for `set_null` steps.
    pub set_null_field: Option<String>,
    /// Edge table, for `remove_edge` steps.
    pub edge_table: Option<String>,
    /// Step status.
    pub status: ValenceDeletionStepStatus,
    /// DAG depth.
    pub depth: i64,
    /// Schema connection that led to the record.
    pub connection_name: String,
    /// Table the connection comes from.
    pub from_table: String,
}

/// Status column of an iter run.
#[derive(Clone, Copy, Debug, PartialEq, Eq)]
pub enum ValenceIterRunStatus {
    /// `pending`
    Pending,
    /// `scanning`
    Scanning,
    /// `processing`
    Processing,
    /// `completed`
    Completed,
    /// `failed`
    Failed,
    /// `cancelled`
    Cancelled,
}

/// A `valence_iter_run` row (timestamps are kept by the store).
#[derive(Clone, Debug)]
pub struct ValenceIterRun {
    /// Iter type name.
    pub iter_name: String,
    /// Table scanned.
    pub target_table: String,
    /// Run status.
    pub status: ValenceIterRunStatus,
    /// Rows counted before the scan.
    pub total_rows: i64,
    /// Rows handed to workers so far.
    pub scanned_rows: i64,
    /// Rows whose `execute` succeeded.
    pub processed_rows: i64,
    /// Rows whose `should_run` said no.
    pub skipped_rows: i64,
    /// Rows that failed.
    pub failed_rows: i64,
    /// Audit string of who started the run.
    pub initiated_by: String,
    /// When set, the scan covers this row only.
    pub target_row_id: Option<String>,
}

/// Status column of an iter batch.
#[derive(Clone, Copy, Debug, PartialEq, Eq)]
pub enum ValenceIterBatchStatus {
    /// `pending`
    Pending,
    /// `enqueuing`
    Enqueuing,
    /// `processing`
    Processing,
    /// `completed`
    Completed,
    /// `failed`
    Failed,
}

/// A `valence_iter_batch` row: one page of rows within an iter run.
#[derive(Clone, Debug)]
pub struct ValenceIterBatch {
    /// Iter run the batch belongs to.
    pub run_id: String,
    /// Position of the page in the scan.
    pub batch_index: i64,
    /// Batch status.
    pub status: ValenceIterBatchStatus,
    /// Rows in the page.
    pub row_count: i64,
    /// Rows handed to workers.
    pub enqueued_count: i64,
    /// Rows processed.
    pub processed: i64,
    /// Rows skipped.
    pub skipped: i64,
    /// Rows failed.
    pub failed: i64,
    /// Bare id of the page's last row (the next page's cursor).
    pub cursor: Option<String>,
}

/// Kind column of an iter row error.
#[derive(Clone, Copy, Debug, PartialEq, Eq)]
pub enum ValenceIterRowErrorErrorKind {
    /// Loading the row or `should_run` failed.
    ShouldRunError,
    /// `execute` failed.
    ExecuteError,
}

} // verus!
