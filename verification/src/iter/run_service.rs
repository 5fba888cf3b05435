//! Creating iter runs: validation, run id, audit string and the pending run row.

use vstd::prelude::*;

use crate::ids::{new_uuid_v4, uuid_v4_text};
use crate::model::{Actor, PlatformError, ValenceIterRun, ValenceIterRunStatus};

verus! {

/// The audit string of an actor: the user id, service name or system operation, or
/// `anonymous`.
pub open spec fn initiated_by_spec(a: Actor) -> Seq<char> {
    match a {
        Actor::User { user_id } => user_id@,
        Actor::ServiceUser { service_name } => service_name@,
        Actor::System { operation } => operation@,
        Actor::Anonymous => "anonymous"@,
    }
}

/// The audit string recorded for a run started by `actor`.
pub fn default_initiated_by(actor: &Actor) -> (r: String)
    ensures
        r@ == initiated_by_spec(*actor),
{
    match actor {
        Actor::User { user_id } => user_id.clone(),
        Actor::ServiceUser { service_name } => service_name.clone(),
        Actor::System { operation } => operation.clone(),
        Actor::Anonymous => String::from_str("anonymous"),
    }
}

/// Optional fields for [`IterService::create_run`].
#[derive(Debug, Clone)]
pub struct IterRunOptions {
    initiated_by: Option<String>,
    target_row_id: Option<String>,
    run_id: Option<String>,
}

/// The options as plain values: audit string, target row, run id.
pub struct IterRunOptionsView {
    /// Audit string stored on the run.
    pub initiated_by: Option<Seq<char>>,
    /// Single row to scan.
    pub target_row_id: Option<Seq<char>>,
    /// Caller-chosen run id.
    pub run_id: Option<Seq<char>>,
}

/// The text of an optional string.
pub open spec fn opt_text(s: Option<String>) -> Option<Seq<char>> {
    match s {
        Some(t) => Some(t@),
        None => None,
    }
}

impl View for IterRunOptions {
    type V = IterRunOptionsView;

    closed spec fn view(&self) -> IterRunOptionsView {
        IterRunOptionsView {
            initiated_by: opt_text(self.initiated_by),
            target_row_id: opt_text(self.target_row_id),
            run_id: opt_text(self.run_id),
        }
    }
}

impl Default for IterRunOptions {
    fn default() -> (o: Self)
        ensures
            o@.initiated_by is None,
            o@.target_row_id is None,
            o@.run_id is None,
    {
        IterRunOptions { initiated_by: None, target_row_id: None, run_id: None }
    }
}

impl IterRunOptions {
    /// Audit string stored on `ValenceIterRun.initiated_by`.
    pub fn initiated_by(self, value: &str) -> (o: Self)
        ensures
            o@.initiated_by == Some(value@),
            o@.target_row_id == self@.target_row_id,
            o@.run_id == self@.run_id,
    {
        IterRunOptions { initiated_by: Some(String::from_str(value)), ..self }
    }

    /// When set, the orchestrator scans this row only.
    pub fn target_row_id(self, value: &str) -> (o: Self)
        ensures
            o@.target_row_id == Some(value@),
            o@.initiated_by == self@.initiated_by,
            o@.run_id == self@.run_id,
    {
        IterRunOptions { target_row_id: Some(String::from_str(value)), ..self }
    }

    /// Caller-chosen run id; otherwise a new UUID.
    pub fn run_id(self, value: &str) -> (o: Self)
        ensures
            o@.run_id == Some(value@),
            o@.initiated_by == self@.initiated_by,
            o@.target_row_id == self@.target_row_id,
    {
        IterRunOptions { run_id: Some(String::from_str(value)), ..self }
    }
}

/// Error when the iter name is empty.
pub const EMPTY_ITER_NAME: &'static str = "iter_name must be non-empty";

/// Error when the target table is empty.
pub const EMPTY_TARGET_TABLE: &'static str = "target_table must be non-empty";

/// A validated pending run, ready to be stored under `run_id`.
#[derive(Debug)]
pub struct NewIterRun {
    /// Id to store the run under.
    pub run_id: String,
    /// The pending run row.
    pub run: ValenceIterRun,
}

/// Helpers for starting Valence Iter runs.
pub struct IterService;

impl IterService {
    /// Validate a run request and build its pending row: an empty iter name or target table is
    /// a `Validation` error; the run id is the caller's or a fresh UUID; the audit string is the
    /// caller's or the actor's; all counters start at zero.
    pub fn create_run(actor: &Actor, iter_name: &str, target_table: &str, opts: IterRunOptions) -> (r:
        Result<NewIterRun, PlatformError>)
        ensures
            iter_name@.len() == 0 ==> (r matches Err(PlatformError::Validation(m)) && m@
                == EMPTY_ITER_NAME@),
            iter_name@.len() > 0 && target_table@.len() == 0 ==> (r matches Err(
                PlatformError::Validation(m),
            ) && m@ == EMPTY_TARGET_TABLE@),
            iter_name@.len() > 0 && target_table@.len() > 0 ==> (r matches Ok(n) && {
                &&& match opts@.run_id {
                    Some(id) => n.run_id@ == id,
                    None => uuid_v4_text(n.run_id@),
                }
                &&& n.run.iter_name@ == iter_name@
                &&& n.run.target_table@ == target_table@
                &&& n.run.status == ValenceIterRunStatus::Pending
                &&& n.run.total_rows == 0 && n.run.scanned_rows == 0
                &&& n.run.processed_rows == 0 && n.run.skipped_rows == 0 && n.run.failed_rows == 0
                &&& n.run.initiated_by@ == match opts@.initiated_by {
                    Some(s) => s,
                    None => initiated_by_spec(*actor),
                }
                &&& opt_text(n.run.target_row_id) == opts@.target_row_id
            }),
    {
        if iter_name.unicode_len() == 0 {
            return Err(PlatformError::Validation(String::from_str(EMPTY_ITER_NAME)));
        }
        if target_table.unicode_len() == 0 {
            return Err(PlatformError::Validation(String::from_str(EMPTY_TARGET_TABLE)));
        }
        let run_id = match opts.run_id {
            Some(id) => id,
            None => new_uuid_v4(),
        };
        let initiated_by = match opts.initiated_by {
            Some(s) => s,
            None => default_initiated_by(actor),
        };
        let run = ValenceIterRun {
            iter_name: String::from_str(iter_name),
            target_table: String::from_str(target_table),
            status: ValenceIterRunStatus::Pending,
            total_rows: 0,
            scanned_rows: 0,
            processed_rows: 0,
            skipped_rows: 0,
            failed_rows: 0,
            initiated_by,
            target_row_id: opts.target_row_id,
        };
        Ok(NewIterRun { run_id, run })
    }
}

} // verus!
