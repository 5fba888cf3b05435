//! Registration of the Chronon backend that starts the deletion orchestrator.

use vstd::prelude::*;

use crate::model::PlatformError;
use crate::registration::{register_spec, slot_registered, ChrononSlot, RunNowRequest};

verus! {

/// Name of the manual Chronon job that runs the deletion orchestrator.
pub const CHRONON_DELETION_ORCHESTRATOR: &'static str = "valence-deletion-orchestrator";

/// Error when the deletion Chronon backend was never registered (or a test forces that).
pub const DELETION_NOT_REGISTERED: &'static str =
    "deletion: Chronon backend not registered; call register_deletion_dispatch at bootstrap";

/// `true` after a successful [`register_deletion_dispatch`] (unless a test forces unregistered).
pub fn is_deletion_chronon_registered<B>(slot: &ChrononSlot<B>) -> (r: bool)
    ensures
        r == slot_registered(slot@),
{
    slot.is_registered()
}

/// Test seam: treat Chronon as unregistered so sad paths always assert.
pub fn force_deletion_chronon_unregistered_for_tests<B>(slot: &mut ChrononSlot<B>, force: bool)
    ensures
        final(slot)@.forced_unregistered == force,
        final(slot)@.backend == old(slot)@.backend,
{
    slot.force_unregistered_for_tests(force);
}

/// Store the Chronon backend for deletes (host boot). A second registration is ignored and
/// reported with `false`.
pub fn register_deletion_dispatch<B>(slot: &mut ChrononSlot<B>, backend: B) -> (stored: bool)
    ensures
        stored == old(slot)@.backend is None,
        final(slot)@ == register_spec(old(slot)@, backend),
{
    slot.register(backend)
}

/// The `run_now` of `valence-deletion-orchestrator` with `{"run_id": run_id}`, using the
/// registered backend; `Internal` when none is registered.
pub fn run_deletion_orchestrator_now_for_registered_backend<'a, B>(
    slot: &'a ChrononSlot<B>,
    run_id: &str,
) -> (r: Result<RunNowRequest<'a, B>, PlatformError>)
    ensures
        slot_registered(slot@) ==> (r matches Ok(q) && Some(*q.backend) == slot@.backend
            && q.job_name == CHRONON_DELETION_ORCHESTRATOR && q.run_id@ == run_id@),
        !slot_registered(slot@) ==> (r matches Err(PlatformError::Internal(m)) && m@
            == DELETION_NOT_REGISTERED@),
{
    slot.run_now_request(CHRONON_DELETION_ORCHESTRATOR, run_id, DELETION_NOT_REGISTERED)
}

} // verus!
