//! Boson task name of the deletion step worker.

use vstd::prelude::*;

verus! {

/// Task name for the deletion step worker; the embedded Boson task config uses the same literal.
pub const VALENCE_DELETION_STEP_WORKER_TASK: &'static str = "valence_deletion_step_worker";

} // verus!
