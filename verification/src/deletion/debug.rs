//! Deletion debug routes: the env and header checks, query parameters, and trace lookups.
//!
//! Routes are disabled unless `VALENCE_DEBUG_DELETIONS=1` (404 otherwise). When enabled, a
//! non-empty `VALENCE_DEBUG_ADMIN_TOKEN` must be configured and sent back in header
//! `x-valence-debug-token` (401 otherwise). Tokens are compared in constant time.

use vstd::prelude::*;

use crate::deletion::boson_setup::VALENCE_DELETION_STEP_WORKER_TASK;
use crate::deletion::run_service::DELETION_RUN_ID_PREFIX;
use crate::text::{
    concat2, concat3, split_once, split_once_spec, str_eq, strip_prefix_or_keep,
    strip_prefix_or_self, trim, trim_spec,
};

verus! {

/// Deletion steps that are not done yet or failed (`$lim` rows), by run and depth.
pub const NONTERMINAL_STEPS_QUERY: &'static str = "SELECT * FROM valence_deletion_step WHERE status = 'queued' OR status = 'in_progress' OR status = 'failed' ORDER BY run_id, depth LIMIT $lim";

/// How many non-terminal steps the overview lists.
pub const OVERVIEW_STEP_CAP: u32 = 100;

/// How many recent deletion errors the overview lists.
pub const OVERVIEW_ERROR_CAP: u32 = 30;

/// How many scheduler runs of the orchestrator job a trace scans.
pub const TRACE_SCHEDULER_RUN_WINDOW: u32 = 200;

/// How many worker jobs a trace scans for a step's idempotency key.
pub const TRACE_JOB_WINDOW: u32 = 2000;

/// How many worker runs a trace lists per step job.
pub const TRACE_JOB_RUNS: u32 = 20;

/// Body of a trace whose run does not exist.
pub const TRACE_RUN_NOT_FOUND: &'static str = "deletion run not found";

/// Error when the orchestrator job is not scheduled.
pub const ORCHESTRATOR_JOB_NOT_FOUND: &'static str = "Chronon job valence-deletion-orchestrator not found";

/// Environment variable: when set to `1`, the debug routes are active.
pub const ENV_VALENCE_DEBUG_DELETIONS: &'static str = "VALENCE_DEBUG_DELETIONS";

/// Environment variable: required non-empty shared secret when debug routes are enabled.
pub const ENV_VALENCE_DEBUG_ADMIN_TOKEN: &'static str = "VALENCE_DEBUG_ADMIN_TOKEN";

/// Request header that must match the admin token when debug is enabled.
pub const HEADER_VALENCE_DEBUG_TOKEN: &'static str = "x-valence-debug-token";

/// The Chronon job whose runs a trace lists.
pub const CHRONON_DELETION_JOB_NAME: &'static str = "valence-deletion-orchestrator";

/// Deletion run id without a `valence_deletion_run:` prefix (list rows may carry the full
/// `Thing` id while lookups and Chronon parameters use the bare one).
pub fn bare_valence_deletion_run_id(s: &str) -> (r: String)
    ensures
        r@ == strip_prefix_or_self(s@, DELETION_RUN_ID_PREFIX@),
{
    strip_prefix_or_keep(s, DELETION_RUN_ID_PREFIX)
}

/// The debug flag's value enables the routes: exactly `1` once trimmed.
pub open spec fn debug_flag_enabled_spec(value: Option<Seq<char>>) -> bool {
    match value {
        Some(v) => trim_spec(v) == "1"@,
        None => false,
    }
}

/// Whether the value of `VALENCE_DEBUG_DELETIONS` (absent or not Unicode: `None`) enables the
/// debug routes.
pub fn valence_debug_deletions_enabled(value: Option<&str>) -> (r: bool)
    ensures
        r == debug_flag_enabled_spec(
            match value {
                Some(v) => Some(v@),
                None => None,
            },
        ),
{
    match value {
        Some(v) => {
            let t = trim(v);
            str_eq(t.as_str(), "1")
        },
        None => false,
    }
}

/// `b`, kept opaque to the optimizer (`std::hint::black_box`, which returns its argument).
#[verifier::external_body]
fn opaque_byte(b: u8) -> (r: u8)
    ensures
        r == b,
{
    std::hint::black_box(b)
}

/// Byte equality that looks at every byte whatever it finds, so that checking a token does
/// not leak through timing how much of it matched. Lengths are compared first (they are not
/// secret).
pub fn constant_time_eq(a: &[u8], b: &[u8]) -> (r: bool)
    ensures
        r == (a@ == b@),
{
    if a.len() != b.len() {
        return false;
    }
    let mut diff: u8 = 0;
    let mut i: usize = 0;
    while i < a.len()
        invariant
            a@.len() == b@.len(),
            i <= a@.len(),
            (diff == 0) <==> forall|k: int| 0 <= k < i ==> a@[k] == b@[k],
        decreases a@.len() - i,
    {
        let x = a[i];
        let y = b[i];
        let d = diff;
        assert(((d | (x ^ y)) == 0) <==> (d == 0 && x == y)) by (bit_vector);
        diff = d | (x ^ y);
        i = i + 1;
    }
    let r = opaque_byte(diff) == 0;
    assert(r ==> a@ =~= b@);
    r
}

/// Why a debug request is refused.
#[derive(Clone, Copy, Debug, PartialEq, Eq)]
pub enum DebugDenial {
    /// The routes are disabled (404).
    NotEnabled,
    /// Enabled, but no admin token is configured (401).
    TokenUnconfigured,
    /// The header is missing or does not match the token (401).
    TokenRejected,
}

impl DebugDenial {
    /// HTTP status of the refusal.
    pub fn status_code(&self) -> (c: u16)
        ensures
            *self == DebugDenial::NotEnabled ==> c == 404,
            *self != DebugDenial::NotEnabled ==> c == 401,
    {
        match self {
            DebugDenial::NotEnabled => 404,
            _ => 401,
        }
    }

    /// Error text of the refusal.
    pub fn message(&self) -> (m: &'static str)
        ensures
            *self == DebugDenial::NotEnabled ==> m@
                == "deletion debug disabled; set VALENCE_DEBUG_DELETIONS=1"@,
            *self == DebugDenial::TokenUnconfigured ==> m@
                == "deletion debug requires non-empty VALENCE_DEBUG_ADMIN_TOKEN"@,
            *self == DebugDenial::TokenRejected ==> m@ == "invalid or missing x-valence-debug-token"@,
    {
        match self {
            DebugDenial::NotEnabled => "deletion debug disabled; set VALENCE_DEBUG_DELETIONS=1",
            DebugDenial::TokenUnconfigured => "deletion debug requires non-empty VALENCE_DEBUG_ADMIN_TOKEN",
            DebugDenial::TokenRejected => "invalid or missing x-valence-debug-token",
        }
    }
}

/// The text of an optional string, absent as empty.
pub open spec fn text_or_empty(s: Option<Seq<char>>) -> Seq<char> {
    match s {
        Some(t) => t,
        None => Seq::empty(),
    }
}

/// Authorize a deletion debug request from the flag value, the configured admin token (both as
/// read from the environment) and the request's token header (absent or not visible ASCII:
/// `None`). Disabled is refused first, then an empty (trimmed) token, then a header that does
/// not equal the trimmed token.
pub fn authorize_deletion_debug_request(
    flag: Option<&str>,
    admin_token: Option<&str>,
    header: Option<&str>,
) -> (r: Result<(), DebugDenial>)
    ensures
        ({
            let flag_v = match flag {
                Some(v) => Some(v@),
                None => None,
            };
            let expected = trim_spec(
                text_or_empty(
                    match admin_token {
                        Some(v) => Some(v@),
                        None => None,
                    },
                ),
            );
            let provided = text_or_empty(
                match header {
                    Some(v) => Some(v@),
                    None => None,
                },
            );
            &&& !debug_flag_enabled_spec(flag_v) ==> r == Err::<(), DebugDenial>(
                DebugDenial::NotEnabled,
            )
            &&& debug_flag_enabled_spec(flag_v) && expected.len() == 0 ==> r == Err::<
                (),
                DebugDenial,
            >(DebugDenial::TokenUnconfigured)
            &&& debug_flag_enabled_spec(flag_v) && expected.len() > 0 && provided != expected
                ==> r == Err::<(), DebugDenial>(DebugDenial::TokenRejected)
            &&& debug_flag_enabled_spec(flag_v) && expected.len() > 0 && provided == expected
                ==> r is Ok
        }),
{
    if !valence_debug_deletions_enabled(flag) {
        return Err(DebugDenial::NotEnabled);
    }
    let expected = match admin_token {
        Some(t) => trim(t),
        None => {
            assert(trim_spec(Seq::<char>::empty()) == Seq::<char>::empty());
            String::new()
        },
    };
    if expected.unicode_len() == 0 {
        return Err(DebugDenial::TokenUnconfigured);
    }
    let provided: &str = match header {
        Some(h) => h,
        None => {
            proof {
                reveal_strlit("");
            }
            ""
        },
    };
    let same = constant_time_eq(provided.as_bytes(), expected.as_str().as_bytes());
    proof {
        vstd::utf8::encode_utf8_decode_utf8(provided@);
        vstd::utf8::encode_utf8_decode_utf8(expected@);
    }
    if !same {
        return Err(DebugDenial::TokenRejected);
    }
    Ok(())
}

/// Query string of the overview route.
#[derive(Debug, Default)]
pub struct OverviewQuery {
    /// Max recent deletion runs to return (default 50, clamped to 1..=200).
    pub limit: Option<u32>,
}

impl OverviewQuery {
    /// The number of runs to list: the requested limit (50 when absent) clamped to `1..=200`.
    pub fn effective_limit(&self) -> (r: u32)
        ensures
            ({
                let l = match self.limit {
                    Some(n) => n,
                    None => 50u32,
                };
                r == if l < 1 {
                    1
                } else if l > 200 {
                    200
                } else {
                    l
                }
            }),
    {
        let l = match self.limit {
            Some(n) => n,
            None => 50,
        };
        if l < 1 {
            1
        } else if l > 200 {
            200
        } else {
            l
        }
    }
}

/// Query string of the trace route.
#[derive(Debug, Default)]
pub struct TraceQuery {
    /// Bare or `valence_deletion_run:<id>` deletion run id; takes precedence when present.
    pub deletion_run_id: Option<String>,
    /// Root entity's table, used with `root_record_id`.
    pub root_table: Option<String>,
    /// Root entity's bare record id, used with `root_table`.
    pub root_record_id: Option<String>,
    /// `table:bare_id` (the first `:` splits table from id).
    pub record: Option<String>,
}

/// Which run a trace is about.
#[derive(Clone, Debug)]
pub enum TraceTarget {
    /// A run given by id: `raw` as trimmed from the query, `bare` without prefix.
    RunId { raw: String, bare: String },
    /// The latest run of a root record.
    Record { table: String, bare: String },
}

/// The trimmed text of an optional parameter, when it is not empty.
pub open spec fn param(s: Option<String>) -> Option<Seq<char>> {
    match s {
        Some(t) => if trim_spec(t@).len() > 0 {
            Some(trim_spec(t@))
        } else {
            None
        },
        None => None,
    }
}

fn param_exec(s: &Option<String>) -> (r: Option<String>)
    ensures
        match r {
            Some(t) => param(*s) == Some(t@),
            None => param(*s) is None,
        },
{
    match s {
        Some(t) => {
            let v = trim(t.as_str());
            if v.unicode_len() > 0 {
                Some(v)
            } else {
                None
            }
        },
        None => None,
    }
}

/// Error when `record=` has no `:`.
pub const RECORD_FORMAT_ERROR: &'static str = "record= must be table:bare_id";

/// Error when neither a root table nor `record=` is given.
pub const ROOT_TABLE_REQUIRED: &'static str = "root_table or record= required";

/// Error when neither a root record id nor `record=` is given.
pub const ROOT_RECORD_ID_REQUIRED: &'static str = "root_record_id or record= required";

/// Resolve a trace query: a non-empty (trimmed) `deletion_run_id` wins; else a non-empty
/// `record=table:id` (split at the first `:`); else both `root_table` and `root_record_id`.
pub fn trace_target(q: &TraceQuery) -> (r: Result<TraceTarget, String>)
    ensures
        match param(q.deletion_run_id) {
            Some(raw) => r matches Ok(TraceTarget::RunId { raw: x, bare }) && x@ == raw && bare@
                == strip_prefix_or_self(raw, DELETION_RUN_ID_PREFIX@),
            None => match param(q.record) {
                Some(rec) => match split_once_spec(rec, ':') {
                    Some((t, b)) => r matches Ok(TraceTarget::Record { table, bare })
                        && table@ == t && bare@ == b,
                    None => r matches Err(m) && m@ == RECORD_FORMAT_ERROR@,
                },
                None => match (param(q.root_table), param(q.root_record_id)) {
                    (None, _) => r matches Err(m) && m@ == ROOT_TABLE_REQUIRED@,
                    (Some(_), None) => r matches Err(m) && m@ == ROOT_RECORD_ID_REQUIRED@,
                    (Some(t), Some(b)) => r matches Ok(TraceTarget::Record { table, bare })
                        && table@ == t && bare@ == b,
                },
            },
        },
{
    if let Some(raw) = param_exec(&q.deletion_run_id) {
        let bare = bare_valence_deletion_run_id(raw.as_str());
        return Ok(TraceTarget::RunId { raw, bare });
    }
    if let Some(rec) = param_exec(&q.record) {
        return match split_once(rec.as_str(), ':') {
            Some((table, bare)) => Ok(TraceTarget::Record { table, bare }),
            None => Err(String::from_str(RECORD_FORMAT_ERROR)),
        };
    }
    let table = match param_exec(&q.root_table) {
        Some(t) => t,
        None => {
            return Err(String::from_str(ROOT_TABLE_REQUIRED));
        },
    };
    let bare = match param_exec(&q.root_record_id) {
        Some(b) => b,
        None => {
            return Err(String::from_str(ROOT_RECORD_ID_REQUIRED));
        },
    };
    Ok(TraceTarget::Record { table, bare })
}

/// Error when no run has the id a trace asked for.
pub fn no_run_for_id(raw: &str) -> (m: String)
    ensures
        m@ == "no valence_deletion_run for id "@ + raw@,
{
    concat2("no valence_deletion_run for id ", raw)
}

/// Error when a root record has no deletion run.
pub fn no_run_for_record(table: &str, bare: &str) -> (m: String)
    ensures
        m@ == "no valence_deletion_run for root_table="@ + table@ + " root_record_id="@ + bare@,
{
    concat3("no valence_deletion_run for root_table=", table, " root_record_id=").concat(bare)
}

/// The job a trace shows for a step: the first one for the step worker task whose
/// idempotency key is `idem`.
pub open spec fn is_step_job(job: (String, Option<String>), idem: Seq<char>) -> bool {
    job.0@ == VALENCE_DELETION_STEP_WORKER_TASK@ && match job.1 {
        Some(k) => k@ == idem,
        None => false,
    }
}

/// Index of the first job `(task name, idempotency key)` of the step worker task with key
/// `idem`.
pub fn find_boson_job_by_idempotency(jobs: &Vec<(String, Option<String>)>, idem: &str) -> (r:
    Option<usize>)
    ensures
        match r {
            Some(i) => i < jobs@.len() && is_step_job(jobs@[i as int], idem@) && forall|k: int|
                0 <= k < i ==> !is_step_job(#[trigger] jobs@[k], idem@),
            None => forall|k: int| 0 <= k < jobs@.len() ==> !is_step_job(#[trigger] jobs@[k], idem@),
        },
{
    let mut i: usize = 0;
    while i < jobs.len()
        invariant
            i <= jobs@.len(),
            forall|k: int| 0 <= k < i ==> !is_step_job(#[trigger] jobs@[k], idem@),
        decreases jobs@.len() - i,
    {
        let matches_key = match &jobs[i].1 {
            Some(k) => str_eq(k.as_str(), idem),
            None => false,
        };
        if str_eq(jobs[i].0.as_str(), VALENCE_DELETION_STEP_WORKER_TASK) && matches_key {
            return Some(i);
        }
        i = i + 1;
    }
    None
}


/// Sources that a trace could not reach because they are not wired: `chronon`, then `boson`.
pub open spec fn unavailable_spec(chronon_wired: bool, boson_wired: bool) -> Seq<Seq<char>> {
    (if chronon_wired { Seq::empty() } else { seq!["chronon"@] }) + (if boson_wired {
        Seq::empty()
    } else {
        seq!["boson"@]
    })
}

/// The names of the trace sources that are not wired, in the order the trace reports them.
pub fn unavailable_sources(chronon_wired: bool, boson_wired: bool) -> (v: Vec<&'static str>)
    ensures
        v@.map_values(|s: &'static str| s@) == unavailable_spec(chronon_wired, boson_wired),
{
    let mut v: Vec<&'static str> = Vec::new();
    if !chronon_wired {
        v.push("chronon");
    }
    if !boson_wired {
        v.push("boson");
    }
    assert(v@.map_values(|s: &'static str| s@) =~= unavailable_spec(chronon_wired, boson_wired));
    v
}

/// Idempotency keys `"{run_id}:{step_id}"` of the steps that have an id, in step order.
pub open spec fn step_keys_spec(run_id: Seq<char>, ids: Seq<Option<String>>) -> Seq<Seq<char>>
    decreases ids.len(),
{
    if ids.len() == 0 {
        Seq::empty()
    } else {
        let rest = step_keys_spec(run_id, ids.drop_last());
        match ids.last() {
            Some(id) => rest.push(run_id + ":"@ + id@),
            None => rest,
        }
    }
}

/// The idempotency keys whose step worker jobs a trace looks up: one per step row with an id
/// (rows without one are passed over).
pub fn step_idempotency_keys(run_id: &str, ids: &Vec<Option<String>>) -> (keys: Vec<String>)
    ensures
        keys@.map_values(|k: String| k@) == step_keys_spec(run_id@, ids@),
{
    let mut keys: Vec<String> = Vec::new();
    let mut i: usize = 0;
    while i < ids.len()
        invariant
            i <= ids@.len(),
            keys@.map_values(|k: String| k@) == step_keys_spec(run_id@, ids@.subrange(0, i as int)),
        decreases ids@.len() - i,
    {
        assert(ids@.subrange(0, i as int) =~= ids@.subrange(0, (i + 1) as int).drop_last());
        match &ids[i] {
            Some(id) => {
                let k = crate::enqueue::idempotency_key(run_id, id.as_str());
                keys.push(k);
            },
            None => {},
        }
        i = i + 1;
        assert(keys@.map_values(|k: String| k@) =~= step_keys_spec(
            run_id@,
            ids@.subrange(0, i as int),
        ));
    }
    assert(ids@.subrange(0, ids@.len() as int) =~= ids@);
    keys
}

/// A scheduler run as a trace reads it: the `run_id` parameter it was given, if a string, and
/// when it was scheduled.
pub type SchedulerRun = (Option<String>, i64);

/// Whether scheduler run `r` was for deletion run `run_id`.
pub open spec fn run_matches(r: SchedulerRun, run_id: Seq<char>) -> bool {
    match r.0 {
        Some(p) => p@ == run_id,
        None => false,
    }
}

/// Run `a` comes before run `b`: scheduled earlier, or at the same time and listed first.
pub open spec fn scheduled_before(runs: Seq<SchedulerRun>, a: int, b: int) -> bool {
    runs[a].1 < runs[b].1 || (runs[a].1 == runs[b].1 && a < b)
}

/// The positions of the runs for `run_id`, each once, in schedule order (ties in list order).
pub open spec fn trace_order(runs: Seq<SchedulerRun>, run_id: Seq<char>, r: Seq<usize>) -> bool {
    &&& forall|k: int| 0 <= k < r.len() ==> #[trigger] r[k] < runs.len() && run_matches(
        runs[r[k] as int],
        run_id,
    )
    &&& forall|i: int|
        0 <= i < runs.len() && run_matches(#[trigger] runs[i], run_id) ==> r.contains(i as usize)
    &&& forall|k: int, l: int|
        0 <= k < l < r.len() ==> scheduled_before(runs, #[trigger] r[k] as int, #[trigger] r[l] as int)
}

/// The positions, in `runs`, of the scheduler runs for deletion run `run_id`, ordered by when
/// they were scheduled; runs scheduled at the same time keep their listed order.
pub fn runs_for_deletion_run(runs: &Vec<SchedulerRun>, run_id: &str) -> (r: Vec<usize>)
    ensures
        trace_order(runs@, run_id@, r@),
{
    let mut r: Vec<usize> = Vec::new();
    let mut i: usize = 0;
    while i < runs.len()
        invariant
            i <= runs@.len(),
            forall|k: int| 0 <= k < r@.len() ==> #[trigger] r@[k] < i && run_matches(
                runs@[r@[k] as int],
                run_id@,
            ),
            forall|j: int|
                0 <= j < i && run_matches(#[trigger] runs@[j], run_id@) ==> r@.contains(j as usize),
            forall|k: int, l: int|
                0 <= k < l < r@.len() ==> scheduled_before(
                    runs@,
                    #[trigger] r@[k] as int,
                    #[trigger] r@[l] as int,
                ),
        decreases runs@.len() - i,
    {
        let matched = match &runs[i].0 {
            Some(p) => str_eq(p.as_str(), run_id),
            None => false,
        };
        if matched {
            let key = runs[i].1;
            let mut p: usize = 0;
            while p < r.len() && runs[r[p]].1 <= key
                invariant
                    p <= r@.len(),
                    i < runs@.len(),
                    forall|k: int| 0 <= k < r@.len() ==> #[trigger] r@[k] < i,
                    forall|k: int| 0 <= k < p ==> runs@[#[trigger] r@[k] as int].1 <= key,
                decreases r@.len() - p,
            {
                p = p + 1;
            }
            let ghost old_r = r@;
            assert forall|l: int| p <= l < old_r.len() implies key < runs@[#[trigger] old_r[l] as int].1 by {
                assert(key < runs@[old_r[p as int] as int].1);
                if l > p {
                    assert(scheduled_before(runs@, old_r[p as int] as int, old_r[l] as int));
                }
            }
            r.insert(p, i);
            assert forall|k: int, l: int|
                0 <= k < l < r@.len() implies scheduled_before(
                runs@,
                #[trigger] r@[k] as int,
                #[trigger] r@[l] as int,
            ) by {
                if l < p {
                    assert(r@[k] == old_r[k] && r@[l] == old_r[l]);
                } else if l == p {
                    assert(r@[k] == old_r[k]);
                } else if k < p {
                    assert(r@[k] == old_r[k] && r@[l] == old_r[l - 1]);
                } else if k == p {
                    assert(r@[l] == old_r[l - 1]);
                } else {
                    assert(r@[k] == old_r[k - 1] && r@[l] == old_r[l - 1]);
                }
            }
            assert forall|j: int|
                0 <= j < i + 1 && run_matches(#[trigger] runs@[j], run_id@) implies r@.contains(
                j as usize,
            ) by {
                if j < i {
                    let w = choose|w: int| 0 <= w < old_r.len() && old_r[w] == j as usize;
                    if w < p {
                        assert(r@[w] == j as usize);
                    } else {
                        assert(r@[w + 1] == j as usize);
                    }
                } else {
                    assert(r@[p as int] == i);
                }
            }
        }
        i = i + 1;
    }
    r
}

} // verus!
