//! Periodic sweep: re-`run_now` the deletion orchestrator for runs stuck in `queued`.
//!
//! The orchestrator claims a run before doing anything (see
//! [`crate::deletion::run_service::DeletionService::try_claim_queued_to_scanning`]), so a sweep
//! racing a regular `run_now` cannot double-insert steps.

use vstd::prelude::*;

use crate::deletion::run_service::DELETION_RUN_ID_PREFIX;
use crate::model::PlatformError;
use crate::text::{strip_prefix_or_keep, strip_prefix_or_self, views};

verus! {

/// Age threshold (seconds) for treating a `queued` deletion run as stale.
pub const DEFAULT_STALE_SECS: u64 = 10;

/// Runs re-triggered per sweep tick at most.
pub const DEFAULT_SWEEP_CAP: u32 = 32;

/// Name of the Chronon job that runs the sweep.
pub const DELETION_SWEEP_JOB_NAME: &'static str = "valence-deletion-sweep-queued";

/// Cron schedule of the sweep job.
pub const DELETION_SWEEP_CRON: &'static str = "*/10 * * * * *";

/// Bare ids of the listed stale runs, in order; rows whose `id` is not a string are skipped.
pub open spec fn swept_ids_spec(rows: Seq<Option<String>>) -> Seq<Seq<char>>
    decreases rows.len(),
{
    if rows.len() == 0 {
        Seq::empty()
    } else {
        let rest = swept_ids_spec(rows.drop_last());
        match rows.last() {
            Some(id) => rest.push(strip_prefix_or_self(id@, DELETION_RUN_ID_PREFIX@)),
            None => rest,
        }
    }
}

/// The runs to re-trigger: nothing when deletion dispatch is not registered (the sweep then
/// reports `0`), else the bare ids of the listed stale runs.
pub fn reenqueue_swept_queued_runs(registered: bool, rows: &Vec<Option<String>>) -> (r: Option<
    Vec<String>,
>)
    ensures
        !registered ==> r is None,
        registered ==> (r matches Some(ids) && views(ids@) == swept_ids_spec(rows@)),
{
    if !registered {
        return None;
    }
    let mut ids: Vec<String> = Vec::new();
    let mut i: usize = 0;
    while i < rows.len()
        invariant
            i <= rows@.len(),
            views(ids@) == swept_ids_spec(rows@.subrange(0, i as int)),
        decreases rows@.len() - i,
    {
        assert(rows@.subrange(0, i + 1).drop_last() =~= rows@.subrange(0, i as int));
        if let Some(id) = &rows[i] {
            ids.push(strip_prefix_or_keep(id.as_str(), DELETION_RUN_ID_PREFIX));
        }
        assert(views(ids@) =~= swept_ids_spec(rows@.subrange(0, i + 1)));
        i = i + 1;
    }
    assert(rows@.subrange(0, rows@.len() as int) =~= rows@);
    Some(ids)
}

/// Number of successful `run_now` calls among the results.
pub open spec fn successes(results: Seq<Result<(), PlatformError>>) -> nat
    decreases results.len(),
{
    if results.len() == 0 {
        0
    } else {
        successes(results.drop_last()) + if results.last() is Ok {
            1nat
        } else {
            0nat
        }
    }
}

/// How many re-triggers succeeded (failures are logged and skipped).
pub fn count_reenqueued(results: &Vec<Result<(), PlatformError>>) -> (n: usize)
    ensures
        n == successes(results@),
{
    let mut n: usize = 0;
    let mut i: usize = 0;
    while i < results.len()
        invariant
            i <= results@.len(),
            n == successes(results@.subrange(0, i as int)),
            n <= i,
        decreases results@.len() - i,
    {
        assert(results@.subrange(0, i + 1).drop_last() =~= results@.subrange(0, i as int));
        if results[i].is_ok() {
            n = n + 1;
        }
        i = i + 1;
    }
    assert(results@.subrange(0, results@.len() as int) =~= results@);
    n
}

} // verus!
