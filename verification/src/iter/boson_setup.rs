//! Boson task name of the iter row worker.

use vstd::prelude::*;

verus! {

/// Task name for the iter row worker; the embedded Boson task config uses the same literal.
pub const VALENCE_ITER_ROW_WORKER_TASK: &'static str = "valence_iter_row_worker";

} // verus!
