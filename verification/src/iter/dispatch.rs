//! Registration of the Chronon backend that starts the iter orchestrator.

use vstd::prelude::*;

use crate::model::PlatformError;
use crate::registration::{register_spec, slot_registered, ChrononSlot, RunNowRequest};

verus! {

/// Name of the manual Chronon job that runs the iter orchestrator.
pub const CHRONON_ITER_ORCHESTRATOR: &'static str = "valence-iter-orchestrator";

/// Error when the iter Chronon backend was never registered (or a test forces that).
pub const ITER_NOT_REGISTERED: &'static str =
    "iter: Chronon backend not registered; call register_iter_dispatch at bootstrap";

/// `true` after a successful [`register_iter_dispatch`] (unless a test forces unregistered).
pub fn is_iter_chronon_registered<B>(slot: &ChrononSlot<B>) -> (r: bool)
    ensures
        r == slot_registered(slot@),
{
    slot.is_registered()
}

/// Test seam: treat Chronon as unregistered so sad paths always assert.
pub fn force_iter_chronon_unregistered_for_tests<B>(slot: &mut ChrononSlot<B>, force: bool)
    ensures
        final(slot)@.forced_unregistered == force,
        final(slot)@.backend == old(slot)@.backend,
{
    slot.force_unregistered_for_tests(force);
}

/// Store the Chronon backend for iter runs (host boot). A second registration is ignored and
/// reported with `false`.
pub fn register_iter_dispatch<B>(slot: &mut ChrononSlot<B>, backend: B) -> (stored: bool)
    ensures
        stored == old(slot)@.backend is None,
        final(slot)@ == register_spec(old(slot)@, backend),
{
    slot.register(backend)
}

/// The `run_now` of `valence-iter-orchestrator` with `{"run_id": run_id}`, using the registered
/// backend; `Internal` when none is registered.
pub fn run_iter_orchestrator_now_for_registered_backend<'a, B>(
    slot: &'a ChrononSlot<B>,
    run_id: &str,
) -> (r: Result<RunNowRequest<'a, B>, PlatformError>)
    ensures
        slot_registered(slot@) ==> (r matches Ok(q) && Some(*q.backend) == slot@.backend
            && q.job_name == CHRONON_ITER_ORCHESTRATOR && q.run_id@ == run_id@),
        !slot_registered(slot@) ==> (r matches Err(PlatformError::Internal(m)) && m@
            == ITER_NOT_REGISTERED@),
{
    slot.run_now_request(CHRONON_ITER_ORCHESTRATOR, run_id, ITER_NOT_REGISTERED)
}

} // verus!
