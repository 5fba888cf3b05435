//! Host registration of the Chronon backend that `run_now`s an orchestrator.
//!
//! The first registration wins; later ones are ignored (the host logs a warning). A test seam
//! can force the slot to read as unregistered, since a process-wide registration is sticky.

use vstd::prelude::*;

use crate::model::PlatformError;
use crate::text::concat3;

verus! {

/// Abstract state of a registration slot.
pub struct ChrononSlotView<B> {
    /// The registered backend, if any.
    pub backend: Option<B>,
    /// The test seam that makes the slot read as unregistered.
    pub forced_unregistered: bool,
}

/// A slot for the Chronon backend of one orchestrator kind.
pub struct ChrononSlot<B> {
    backend: Option<B>,
    forced_unregistered: bool,
}

impl<B> View for ChrononSlot<B> {
    type V = ChrononSlotView<B>;

    closed spec fn view(&self) -> ChrononSlotView<B> {
        ChrononSlotView { backend: self.backend, forced_unregistered: self.forced_unregistered }
    }
}

/// The slot counts as registered: a backend is set and the test seam is off.
pub open spec fn slot_registered<B>(v: ChrononSlotView<B>) -> bool {
    !v.forced_unregistered && v.backend is Some
}

/// The slot after a registration of `b`: stored when empty, unchanged otherwise.
pub open spec fn register_spec<B>(v: ChrononSlotView<B>, b: B) -> ChrononSlotView<B> {
    if v.backend is None {
        ChrononSlotView { backend: Some(b), ..v }
    } else {
        v
    }
}

/// What a `run_now` of an orchestrator job needs: the backend, the job's name and the run id
/// to pass as `{"run_id": …}`.
pub struct RunNowRequest<'a, B> {
    /// Registered backend.
    pub backend: &'a B,
    /// Name of the manual Chronon job.
    pub job_name: &'static str,
    /// Bare run id for the job's parameters.
    pub run_id: String,
}

impl<B> ChrononSlot<B> {
    /// An empty slot.
    pub fn new() -> (s: Self)
        ensures
            s@.backend is None,
            !s@.forced_unregistered,
    {
        ChrononSlot { backend: None, forced_unregistered: false }
    }

    /// Store `backend` unless one is already stored. Returns whether it was stored.
    pub fn register(&mut self, backend: B) -> (stored: bool)
        ensures
            stored == old(self)@.backend is None,
            final(self)@ == register_spec(old(self)@, backend),
    {
        if self.backend.is_some() {
            false
        } else {
            self.backend = Some(backend);
            true
        }
    }

    /// Whether the slot counts as registered.
    pub fn is_registered(&self) -> (r: bool)
        ensures
            r == slot_registered(self@),
    {
        !self.forced_unregistered && self.backend.is_some()
    }

    /// Turn the test seam on or off.
    pub fn force_unregistered_for_tests(&mut self, force: bool)
        ensures
            final(self)@.forced_unregistered == force,
            final(self)@.backend == old(self)@.backend,
    {
        self.forced_unregistered = force;
    }

    /// The `run_now` request for job `job_name`, or `Internal(not_registered)` when the slot does
    /// not count as registered.
    pub fn run_now_request<'a>(&'a self, job_name: &'static str, run_id: &str, not_registered: &str) -> (r:
        Result<RunNowRequest<'a, B>, PlatformError>)
        ensures
            slot_registered(self@) ==> (r matches Ok(q) && Some(*q.backend) == self@.backend
                && q.job_name == job_name && q.run_id@ == run_id@),
            !slot_registered(self@) ==> (r matches Err(PlatformError::Internal(m)) && m@
                == not_registered@),
    {
        if self.forced_unregistered {
            return Err(PlatformError::Internal(String::from_str(not_registered)));
        }
        match &self.backend {
            Some(b) => Ok(RunNowRequest { backend: b, job_name, run_id: String::from_str(run_id) }),
            None => Err(PlatformError::Internal(String::from_str(not_registered))),
        }
    }
}

/// The error when the orchestrator job does not exist in Chronon.
pub fn job_not_found(job_name: &str) -> (e: PlatformError)
    ensures
        e matches PlatformError::Internal(m) && m@ == "Chronon job "@ + job_name@ + " not found"@,
{
    PlatformError::Internal(concat3("Chronon job ", job_name, " not found"))
}

/// The error when Chronon refused the `run_now` (its message kept).
pub fn run_now_failed(message: String) -> (e: PlatformError)
    ensures
        e == PlatformError::Internal(message),
{
    PlatformError::Internal(message)
}

/// Law: the first registration wins. Whatever is registered afterwards, the slot keeps the
/// first backend, and registering never changes the test seam.
pub proof fn law_first_registration_wins<B>(s: ChrononSlotView<B>, first: B, later: B)
    requires
        s.backend is None,
    ensures
        register_spec(register_spec(s, first), later).backend == Some(first),
        register_spec(register_spec(s, first), later).forced_unregistered == s.forced_unregistered,
{
}

/// The slot with the test seam turned on.
pub open spec fn forced<B>(v: ChrononSlotView<B>) -> ChrononSlotView<B> {
    ChrononSlotView { forced_unregistered: true, ..v }
}

/// Law: the slot reads as registered exactly when a backend was registered and the test seam is
/// off; forcing it unregistered hides a registered backend without dropping it.
pub proof fn law_forced_unregistered_hides_backend<B>(s: ChrononSlotView<B>, b: B)
    ensures
        slot_registered(register_spec(s, b)) == !s.forced_unregistered,
        !slot_registered(forced(register_spec(s, b))),
        forced(register_spec(s, b)).backend == register_spec(s, b).backend,
        register_spec(s, b).backend is Some,
{
}

} // verus!
