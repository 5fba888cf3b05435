//! Budgeted TTL sweep for Deferred backends.
//!
//! Each tick discovers expired rows table by table (a `LIMIT` no larger than the table's fair
//! share of the remaining budget), queues a delete for each, and stops when the budget is spent
//! or every Deferred table was visited. [`TtlSweep`] holds those decisions; the host performs
//! the listing and queueing that each [`TtlSweepAction`] asks for and hands the results back.

use vstd::prelude::*;

use crate::model::{IdCell, PlatformError};
use crate::text::{after_last, after_last_spec};

verus! {

/// Global queued-delete budget per Chronon tick.
pub const DEFAULT_TTL_SWEEP_CAP: u32 = 32;

/// Name of the Chronon job that runs the sweep.
pub const TTL_SWEEP_JOB_NAME: &'static str = "valence-ttl-sweep";

/// Cron schedule of the sweep job.
pub const TTL_SWEEP_CRON: &'static str = "*/30 * * * * *";

/// How a backend handles row expiry.
#[derive(Clone, Copy, Debug, PartialEq, Eq)]
pub enum BackendTtlCapability {
    /// The engine expires rows itself (Redis, Mongo).
    SupportedNative,
    /// Rows carry an expiry stamp that this sweeper enforces.
    Deferred,
    /// The engine has no expiry contract.
    Unsupported,
}

/// Outcome of one budgeted sweep tick.
#[derive(Debug, Clone, Default, PartialEq, Eq)]
pub struct TtlSweepReport {
    /// Tables considered (Deferred TTL schemas only).
    pub tables_considered: u32,
    /// Tables skipped because the backend is native TTL.
    pub skipped_native: u32,
    /// Deletes successfully queued into the deletion DAG.
    pub queued_deletes: u32,
    /// Deletion run ids created this tick (for inline drain).
    pub run_ids: Vec<String>,
    /// `true` when the global cap was fully consumed.
    pub budget_exhausted: bool,
}

/// Whether a backend TTL capability is included in the Deferred sweeper discover set.
///
/// `SupportedNative` and `Unsupported` are skipped (native engines own expiry; `Unsupported`
/// has no stamp contract).
pub fn ttl_capability_included_in_deferred_sweep(cap: BackendTtlCapability) -> (r: bool)
    ensures
        r == (cap == BackendTtlCapability::Deferred),
{
    match cap {
        BackendTtlCapability::Deferred => true,
        _ => false,
    }
}

/// A count that does not exceed `u32::MAX` (what `u32::try_from(n).unwrap_or(u32::MAX)` gives).
pub open spec fn cap_u32(n: nat) -> nat {
    if n > u32::MAX {
        u32::MAX as nat
    } else {
        n
    }
}

/// Ceiling of `a / b` for `b > 0`.
pub open spec fn ceil_div(a: nat, b: nat) -> nat
    recommends
        b > 0,
{
    if a % b == 0 {
        a / b
    } else {
        a / b + 1
    }
}

/// Fair per-table share of the remaining budget: the remaining budget divided across the
/// tables still to visit, rounded up; `0` when either is `0`.
pub open spec fn fair_share(remaining: nat, tables_left: nat) -> nat {
    if remaining == 0 || tables_left == 0 {
        0
    } else {
        ceil_div(remaining, cap_u32(tables_left))
    }
}

/// Fair per-table share of remaining budget (ceil division across remaining tables).
pub fn fair_table_limit(remaining: u32, tables_left: usize) -> (r: u32)
    ensures
        r == fair_share(remaining as nat, tables_left as nat),
{
    if remaining == 0 || tables_left == 0 {
        return 0;
    }
    let left: u32 = if tables_left > u32::MAX as usize {
        u32::MAX
    } else {
        tables_left as u32
    };
    let q = remaining / left;
    if remaining % left != 0 {
        proof {
            lemma_div_bound(remaining as nat, left as nat);
        }
        q + 1
    } else {
        q
    }
}

proof fn lemma_div_bound(a: nat, b: nat)
    by (nonlinear_arith)
    requires
        b > 0,
        a % b != 0,
        a <= u32::MAX,
    ensures
        a / b + 1 <= u32::MAX,
        a / b < a,
{
}

/// Law: the fair share covers the remaining budget when every table left takes it
/// (`share * tables_left >= remaining`), is the least such share, and never exceeds the
/// remaining budget; it is at least one whenever budget and tables remain.
pub proof fn law_fair_share_is_ceiling(remaining: nat, tables_left: nat)
    requires
        remaining > 0,
        0 < tables_left <= u32::MAX,
    ensures
        fair_share(remaining, tables_left) * tables_left >= remaining,
        (fair_share(remaining, tables_left) - 1) * tables_left < remaining,
        1 <= fair_share(remaining, tables_left) <= remaining,
{
    let s = fair_share(remaining, tables_left);
    let q = remaining / tables_left;
    let r = remaining % tables_left;
    assert(remaining == q * tables_left + r && 0 <= r < tables_left) by (nonlinear_arith)
        requires
            tables_left > 0,
            q == remaining / tables_left,
            r == remaining % tables_left,
    ;
    if r == 0 {
        assert(s == q);
        assert(q >= 1) by (nonlinear_arith)
            requires
                remaining == q * tables_left,
                remaining > 0,
                tables_left > 0,
        ;
        assert(q <= remaining) by (nonlinear_arith)
            requires
                remaining == q * tables_left,
                tables_left >= 1,
                q >= 0,
        ;
        assert((q - 1) * tables_left < remaining) by (nonlinear_arith)
            requires
                remaining == q * tables_left,
                tables_left > 0,
        ;
    } else {
        assert(s == q + 1);
        assert((q + 1) * tables_left >= remaining) by (nonlinear_arith)
            requires
                remaining == q * tables_left + r,
                r < tables_left,
        ;
        assert(q * tables_left < remaining) by (nonlinear_arith)
            requires
                remaining == q * tables_left + r,
                r > 0,
        ;
        assert(q + 1 <= remaining) by (nonlinear_arith)
            requires
                remaining == q * tables_left + r,
                r > 0,
                tables_left >= 1,
                q >= 0,
        ;
    }
}

/// Names of the Deferred tables among `tables`, in order.
pub open spec fn deferred_names(tables: Seq<(Seq<char>, BackendTtlCapability)>) -> Seq<Seq<char>>
    decreases tables.len(),
{
    if tables.len() == 0 {
        Seq::empty()
    } else {
        let rest = deferred_names(tables.drop_last());
        if tables.last().1 == BackendTtlCapability::Deferred {
            rest.push(tables.last().0)
        } else {
            rest
        }
    }
}

/// Number of native-TTL tables among `tables`.
pub open spec fn native_count(tables: Seq<(Seq<char>, BackendTtlCapability)>) -> nat
    decreases tables.len(),
{
    if tables.len() == 0 {
        0
    } else {
        native_count(tables.drop_last()) + if tables.last().1
            == BackendTtlCapability::SupportedNative {
            1nat
        } else {
            0nat
        }
    }
}

/// The TTL tables with their backend capability, as plain values.
pub open spec fn ttl_tables_view(tables: Seq<(String, BackendTtlCapability)>) -> Seq<
    (Seq<char>, BackendTtlCapability),
> {
    tables.map_values(|t: (String, BackendTtlCapability)| (t.0@, t.1))
}

/// Split the TTL tables into the Deferred ones the sweep visits (in order) and the number of
/// native-TTL tables it skips (saturating at `u32::MAX`).
pub fn partition_ttl_tables(tables: &Vec<(String, BackendTtlCapability)>) -> (r: (
    Vec<String>,
    u32,
))
    ensures
        r.0@.map_values(|s: String| s@) == deferred_names(ttl_tables_view(tables@)),
        r.1 == cap_u32(native_count(ttl_tables_view(tables@))),
{
    let mut deferred: Vec<String> = Vec::new();
    let mut native: u32 = 0;
    let mut i: usize = 0;
    while i < tables.len()
        invariant
            i <= tables.len(),
            deferred@.map_values(|s: String| s@) == deferred_names(
                ttl_tables_view(tables@.subrange(0, i as int)),
            ),
            native == cap_u32(native_count(ttl_tables_view(tables@.subrange(0, i as int)))),
        decreases tables.len() - i,
    {
        let ghost before = ttl_tables_view(tables@.subrange(0, i as int));
        let ghost after = ttl_tables_view(tables@.subrange(0, i + 1));
        assert(after.drop_last() =~= before);
        assert(after.last() == (tables@[i as int].0@, tables@[i as int].1));
        let cap = tables[i].1;
        if ttl_capability_included_in_deferred_sweep(cap) {
            deferred.push(tables[i].0.clone());
        }
        if let BackendTtlCapability::SupportedNative = cap {
            native = native.saturating_add(1);
        }
        i = i + 1;
    }
    assert(tables@.subrange(0, tables.len() as int) =~= tables@);
    (deferred, native)
}

/// The primary key of a listed row, bare (no `table:` prefix): the text after the last `:` of
/// a string cell, or an object's non-empty string `"id"`; nothing for other cells.
pub open spec fn bare_record_id_spec(raw: Option<IdCell>) -> Option<Seq<char>> {
    match raw {
        Some(IdCell::Text(s)) => Some(after_last_spec(s@, ':')),
        Some(IdCell::Object { id: Some(s), .. }) => if s@.len() > 0 {
            Some(s@)
        } else {
            None
        },
        _ => None,
    }
}

/// The cell a reference points to, if any.
pub open spec fn deref_cell(raw: Option<&IdCell>) -> Option<IdCell> {
    match raw {
        Some(c) => Some(*c),
        None => None,
    }
}

/// Bare record id of a listed row's `id` cell (see [`bare_record_id_spec`]).
pub fn bare_record_id(raw: Option<&IdCell>) -> (r: Option<String>)
    ensures
        r matches Some(s) ==> bare_record_id_spec(deref_cell(raw)) == Some(s@),
        r is None <==> bare_record_id_spec(deref_cell(raw)) is None,
{
    match raw {
        Some(IdCell::Text(s)) => Some(after_last(s.as_str(), ':')),
        Some(IdCell::Object { id: Some(s), .. }) => {
            if s.unicode_len() > 0 {
                Some(s.clone())
            } else {
                None
            }
        },
        _ => None,
    }
}

/// The bare ids of the rows an expiry query returned, skipping rows without a usable id.
pub open spec fn expired_ids_spec(rows: Seq<Option<IdCell>>) -> Seq<Seq<char>>
    decreases rows.len(),
{
    if rows.len() == 0 {
        Seq::empty()
    } else {
        let rest = expired_ids_spec(rows.drop_last());
        match bare_record_id_spec(rows.last()) {
            Some(id) => rest.push(id),
            None => rest,
        }
    }
}

/// Bare ids of the rows an expiry query returned, in order (rows without an id are dropped).
pub fn expired_ids_from_rows(rows: &Vec<Option<IdCell>>) -> (ids: Vec<String>)
    ensures
        ids@.map_values(|s: String| s@) == expired_ids_spec(rows@),
{
    let mut ids: Vec<String> = Vec::new();
    let mut i: usize = 0;
    while i < rows.len()
        invariant
            i <= rows.len(),
            ids@.map_values(|s: String| s@) == expired_ids_spec(rows@.subrange(0, i as int)),
        decreases rows.len() - i,
    {
        let ghost pre = rows@.subrange(0, i as int);
        assert(rows@.subrange(0, i + 1).drop_last() =~= pre);
        let cell = match &rows[i] {
            Some(c) => Some(c),
            None => None,
        };
        let b = bare_record_id(cell);
        assert(deref_cell(cell) == rows@[i as int]);
        if let Some(s) = b {
            ids.push(s);
        }
        assert(ids@.map_values(|s: String| s@) =~= expired_ids_spec(rows@.subrange(0, i + 1)));
        i = i + 1;
    }
    assert(rows@.subrange(0, rows.len() as int) =~= rows@);
    ids
}

/// The class of a store error, as the sweep logs it.
pub open spec fn error_class_spec(e: PlatformError) -> Seq<char> {
    match e {
        PlatformError::Validation(_) => "validation"@,
        PlatformError::NotFound(_) => "not_found"@,
        PlatformError::Database(_) => "database"@,
        PlatformError::Internal(_) => "internal"@,
        PlatformError::Privacy(_) => "privacy"@,
        PlatformError::PendingDeletion(_) => "pending_deletion"@,
        PlatformError::Serialization(_) => "serialization"@,
        PlatformError::Identity(_) => "identity"@,
    }
}

/// The class of a store error, as the sweep logs it.
pub fn error_class(e: &PlatformError) -> (r: &'static str)
    ensures
        r@ == error_class_spec(*e),
{
    match e {
        PlatformError::Validation(_) => "validation",
        PlatformError::NotFound(_) => "not_found",
        PlatformError::Database(_) => "database",
        PlatformError::Internal(_) => "internal",
        PlatformError::Privacy(_) => "privacy",
        PlatformError::PendingDeletion(_) => "pending_deletion",
        PlatformError::Serialization(_) => "serialization",
        PlatformError::Identity(_) => "identity",
    }
}

/// What the sweep asks the host to do next.
#[derive(Clone, Debug, PartialEq, Eq)]
pub enum TtlSweepAction {
    /// List up to `limit` expired ids of `table`, oldest expiry first.
    ListExpired { table: String, limit: u32 },
    /// Queue a delete of row `id` of `table` into the deletion DAG.
    QueueDelete { table: String, id: String },
    /// The tick is over; read [`TtlSweep::report`].
    Finished,
}

/// Abstract state of a sweep tick.
pub struct TtlSweepView {
    /// Global budget of the tick.
    pub cap: nat,
    /// Deferred tables, in visiting order.
    pub tables: Seq<Seq<char>>,
    /// `tables_considered` of the report.
    pub tables_considered: nat,
    /// `skipped_native` of the report.
    pub skipped_native: nat,
    /// Index of the table being listed or queued.
    pub table: nat,
    /// `true` while the expired ids of `tables[table]` are being queued.
    pub queueing: bool,
    /// Expired ids listed for the current table.
    pub ids: Seq<Seq<char>>,
    /// Index of the next id of `ids` to queue.
    pub pos: nat,
    /// Budget not yet consumed.
    pub remaining: nat,
    /// Deletes queued so far.
    pub queued: nat,
    /// Run ids of the queued deletes, in order.
    pub run_ids: Seq<Seq<char>>,
}

impl TtlSweepView {
    /// The invariant every sweep state keeps.
    pub open spec fn wf(self) -> bool {
        &&& self.cap <= u32::MAX
        &&& self.remaining + self.queued == self.cap
        &&& self.run_ids.len() == self.queued
        &&& self.table <= self.tables.len()
        &&& self.tables_considered == cap_u32(self.tables.len())
        &&& self.skipped_native <= u32::MAX
        &&& self.queueing ==> {
            &&& self.table < self.tables.len()
            &&& self.pos < self.ids.len()
            &&& self.remaining > 0
        }
    }

    /// The tick is over: budget spent or every table visited.
    pub open spec fn finished(self) -> bool {
        !self.queueing && (self.remaining == 0 || self.table >= self.tables.len())
    }

    /// The action the sweep asks for in this state.
    pub open spec fn next_action(self) -> TtlSweepActionView {
        if self.queueing {
            TtlSweepActionView::QueueDelete {
                table: self.tables[self.table as int],
                id: self.ids[self.pos as int],
            }
        } else if self.finished() {
            TtlSweepActionView::Finished
        } else {
            TtlSweepActionView::ListExpired {
                table: self.tables[self.table as int],
                limit: fair_share(self.remaining, (self.tables.len() - self.table) as nat),
            }
        }
    }

    /// Move on to the next table.
    pub open spec fn next_table(self) -> TtlSweepView {
        TtlSweepView { table: self.table + 1, queueing: false, ids: Seq::empty(), pos: 0, ..self }
    }

    /// State after the listing of the current table returned.
    pub open spec fn after_list(self, listed: Option<Seq<Seq<char>>>) -> TtlSweepView {
        match listed {
            Some(ids) if ids.len() > 0 => TtlSweepView { queueing: true, ids, pos: 0, ..self },
            _ => self.next_table(),
        }
    }

    /// State after a queue attempt: `queued_run` is the run id of a queued delete, or `None`
    /// when nothing was queued (already pending, missing, or an error).
    pub open spec fn after_queue(self, queued_run: Option<Seq<char>>) -> TtlSweepView {
        let counted = match queued_run {
            Some(run) => TtlSweepView {
                run_ids: self.run_ids.push(run),
                queued: self.queued + 1,
                remaining: (self.remaining - 1) as nat,
                ..self
            },
            None => self,
        };
        let moved = TtlSweepView { pos: counted.pos + 1, ..counted };
        if moved.pos >= moved.ids.len() || moved.remaining == 0 {
            moved.next_table()
        } else {
            moved
        }
    }

    /// Progress measure: tables not yet finished, then whether the current table is still to
    /// be listed, then ids not yet queued.
    pub open spec fn measure(self) -> (nat, nat, nat) {
        (
            (self.tables.len() - self.table) as nat,
            if self.queueing {
                0nat
            } else {
                1nat
            },
            if self.queueing {
                (self.ids.len() - self.pos) as nat
            } else {
                0nat
            },
        )
    }
}

/// [`TtlSweepAction`] over plain values.
pub enum TtlSweepActionView {
    /// See [`TtlSweepAction::ListExpired`].
    ListExpired { table: Seq<char>, limit: nat },
    /// See [`TtlSweepAction::QueueDelete`].
    QueueDelete { table: Seq<char>, id: Seq<char> },
    /// See [`TtlSweepAction::Finished`].
    Finished,
}

/// The plain-value form of an action.
pub open spec fn action_view(a: TtlSweepAction) -> TtlSweepActionView {
    match a {
        TtlSweepAction::ListExpired { table, limit } => TtlSweepActionView::ListExpired {
            table: table@,
            limit: limit as nat,
        },
        TtlSweepAction::QueueDelete { table, id } => TtlSweepActionView::QueueDelete {
            table: table@,
            id: id@,
        },
        TtlSweepAction::Finished => TtlSweepActionView::Finished,
    }
}

/// `a` is lexicographically below `b`.
pub open spec fn lex_lt(a: (nat, nat, nat), b: (nat, nat, nat)) -> bool {
    a.0 < b.0 || (a.0 == b.0 && a.1 < b.1) || (a.0 == b.0 && a.1 == b.1 && a.2 < b.2)
}

/// The report of a finished sweep state.
pub open spec fn report_of(v: TtlSweepView) -> (u32, u32, u32, Seq<Seq<char>>, bool) {
    (
        v.tables_considered as u32,
        v.skipped_native as u32,
        v.queued as u32,
        v.run_ids,
        v.cap > 0 && v.remaining == 0,
    )
}

/// One budgeted sweep tick: which table to list next with which limit, which expired row to
/// queue next, and the report once the budget is spent or every table was visited.
pub struct TtlSweep {
    cap: u32,
    tables: Vec<String>,
    tables_considered: u32,
    skipped_native: u32,
    table: usize,
    queueing: bool,
    ids: Vec<String>,
    pos: usize,
    remaining: u32,
    queued: u32,
    run_ids: Vec<String>,
}

impl View for TtlSweep {
    type V = TtlSweepView;

    closed spec fn view(&self) -> TtlSweepView {
        TtlSweepView {
            cap: self.cap as nat,
            tables: self.tables@.map_values(|s: String| s@),
            tables_considered: self.tables_considered as nat,
            skipped_native: self.skipped_native as nat,
            table: self.table as nat,
            queueing: self.queueing,
            ids: self.ids@.map_values(|s: String| s@),
            pos: self.pos as nat,
            remaining: self.remaining as nat,
            queued: self.queued as nat,
            run_ids: self.run_ids@.map_values(|s: String| s@),
        }
    }
}

impl TtlSweep {
    /// Start a tick with budget `cap` over the Deferred `tables` (in visiting order);
    /// `skipped_native` is the number of native-TTL tables left out.
    pub fn new(cap: u32, tables: Vec<String>, skipped_native: u32) -> (s: Self)
        ensures
            s@.wf(),
            s@.cap == cap,
            s@.tables == tables@.map_values(|t: String| t@),
            s@.skipped_native == skipped_native,
            s@.table == 0,
            !s@.queueing,
            s@.remaining == cap,
            s@.queued == 0,
            s@.run_ids.len() == 0,
    {
        let considered: u32 = if tables.len() > u32::MAX as usize {
            u32::MAX
        } else {
            tables.len() as u32
        };
        let s = TtlSweep {
            cap,
            tables,
            tables_considered: considered,
            skipped_native,
            table: 0,
            queueing: false,
            ids: Vec::new(),
            pos: 0,
            remaining: cap,
            queued: 0,
            run_ids: Vec::new(),
        };
        assert(s@.run_ids =~= Seq::<Seq<char>>::empty());
        s
    }

    /// The action this state asks for.
    pub fn next_action(&self) -> (a: TtlSweepAction)
        requires
            self@.wf(),
        ensures
            action_view(a) == self@.next_action(),
    {
        if self.queueing {
            TtlSweepAction::QueueDelete {
                table: self.tables[self.table].clone(),
                id: self.ids[self.pos].clone(),
            }
        } else if self.remaining == 0 || self.table >= self.tables.len() {
            TtlSweepAction::Finished
        } else {
            let limit = fair_table_limit(self.remaining, self.tables.len() - self.table);
            TtlSweepAction::ListExpired { table: self.tables[self.table].clone(), limit }
        }
    }

    fn advance_table(&mut self)
        requires
            old(self).table < old(self).tables.len(),
        ensures
            final(self)@ == old(self)@.next_table(),
    {
        self.table = self.table + 1;
        self.queueing = false;
        self.ids = Vec::new();
        self.pos = 0;
        assert(self@.ids =~= Seq::<Seq<char>>::empty());
    }

    /// Hand back the result of a `ListExpired` action: the expired ids, or the error that
    /// listing hit (the table is then skipped).
    pub fn on_list_result(&mut self, listed: Result<Vec<String>, PlatformError>)
        requires
            old(self)@.wf(),
            old(self)@.next_action() is ListExpired,
        ensures
            final(self)@.wf(),
            final(self)@ == old(self)@.after_list(
                match listed {
                    Ok(ids) => Some(ids@.map_values(|t: String| t@)),
                    Err(_) => None,
                },
            ),
            lex_lt(final(self)@.measure(), old(self)@.measure()),
    {
        match listed {
            Ok(ids) => {
                if ids.len() > 0 {
                    self.ids = ids;
                    self.pos = 0;
                    self.queueing = true;
                } else {
                    self.advance_table();
                }
            },
            Err(_) => {
                self.advance_table();
            },
        }
    }

    /// Hand back the result of a `QueueDelete` action: the new deletion run id, `None` when
    /// the row was already pending or missing (no budget is consumed), or the error that
    /// queueing hit (the row is skipped).
    pub fn on_queue_result(&mut self, queued: Result<Option<String>, PlatformError>)
        requires
            old(self)@.wf(),
            old(self)@.next_action() is QueueDelete,
        ensures
            final(self)@.wf(),
            final(self)@ == old(self)@.after_queue(
                match queued {
                    Ok(Some(run)) => Some(run@),
                    _ => None,
                },
            ),
            lex_lt(final(self)@.measure(), old(self)@.measure()),
    {
        let ghost pre = self@;
        assert(self.pos < self.ids.len());
        if let Ok(Some(run)) = queued {
            self.run_ids.push(run);
            self.queued = self.queued + 1;
            self.remaining = self.remaining - 1;
            assert(self@.run_ids =~= pre.run_ids.push(run@));
        }
        self.pos = self.pos + 1;
        if self.pos >= self.ids.len() || self.remaining == 0 {
            self.advance_table();
        }
    }

    /// The report of a finished tick.
    pub fn report(&self) -> (r: TtlSweepReport)
        requires
            self@.wf(),
        ensures
            (r.tables_considered, r.skipped_native, r.queued_deletes, r.run_ids@.map_values(
                |t: String| t@,
            ), r.budget_exhausted) == report_of(self@),
    {
        TtlSweepReport {
            tables_considered: self.tables_considered,
            skipped_native: self.skipped_native,
            queued_deletes: self.queued,
            run_ids: self.run_ids.clone(),
            budget_exhausted: self.cap > 0 && self.remaining == 0,
        }
    }
}

/// The report of a tick that did not run because the TTL service is not registered.
pub fn unregistered_sweep_report() -> (r: TtlSweepReport)
    ensures
        r.tables_considered == 0,
        r.skipped_native == 0,
        r.queued_deletes == 0,
        r.run_ids@.len() == 0,
        !r.budget_exhausted,
{
    TtlSweepReport {
        tables_considered: 0,
        skipped_native: 0,
        queued_deletes: 0,
        run_ids: Vec::new(),
        budget_exhausted: false,
    }
}

/// Law: the budget is never exceeded and accounts for every queued delete. In every sweep
/// state the deletes queued so far plus the budget left equal the cap, each queued delete has
/// its run id, and the report says the budget is exhausted exactly when a non-zero cap was
/// fully spent.
pub proof fn law_sweep_budget(v: TtlSweepView)
    requires
        v.wf(),
    ensures
        v.queued <= v.cap,
        report_of(v).2 as nat == v.queued,
        report_of(v).3.len() == report_of(v).2,
        report_of(v).4 <==> (v.cap > 0 && v.queued == v.cap),
{
}

/// Law: each table is listed with its fair share of the remaining budget, which is at least
/// one row and never more than the budget left.
pub proof fn law_list_limit_within_budget(v: TtlSweepView)
    requires
        v.wf(),
        v.next_action() is ListExpired,
    ensures
        v.next_action()->ListExpired_limit == fair_share(
            v.remaining,
            (v.tables.len() - v.table) as nat,
        ),
        1 <= v.next_action()->ListExpired_limit <= v.remaining,
{
    let left = (v.tables.len() - v.table) as nat;
    law_fair_share_is_ceiling(v.remaining, cap_u32(left));
    assert(fair_share(v.remaining, left) == fair_share(v.remaining, cap_u32(left)));
}

/// Law: a row whose delete was not queued (already pending, missing, or failing) consumes
/// no budget.
pub proof fn law_unqueued_row_keeps_budget(v: TtlSweepView)
    requires
        v.wf(),
        v.queueing,
    ensures
        v.after_queue(None).remaining == v.remaining,
        v.after_queue(None).queued == v.queued,
        v.after_queue(None).run_ids == v.run_ids,
{
}

/// Registration state of the TTL sweeper: the registration switch, and the Chronon backend kept
/// for cron resync.
pub struct TtlRegistration<B> {
    registered: bool,
    chronon: Option<B>,
}

/// Abstract state of the TTL registration.
pub struct TtlRegistrationView<B> {
    /// The switch the Chronon script checks.
    pub registered: bool,
    /// The stored Chronon backend.
    pub chronon: Option<B>,
}

impl<B> View for TtlRegistration<B> {
    type V = TtlRegistrationView<B>;

    closed spec fn view(&self) -> TtlRegistrationView<B> {
        TtlRegistrationView { registered: self.registered, chronon: self.chronon }
    }
}

impl<B> TtlRegistration<B> {
    /// Nothing registered.
    pub fn new() -> (r: Self)
        ensures
            !r@.registered,
            r@.chronon is None,
    {
        TtlRegistration { registered: false, chronon: None }
    }
}

/// `true` after a successful [`register_ttl_service`] (or an inline sweep).
pub fn is_ttl_service_registered<B>(reg: &TtlRegistration<B>) -> (r: bool)
    ensures
        r == reg@.registered,
{
    reg.registered
}

/// Wire the TTL sweeper (host boot): turn the switch on and keep the backend unless one is kept
/// already. A second registration changes nothing and returns `false`.
pub fn register_ttl_service<B>(reg: &mut TtlRegistration<B>, backend: B) -> (stored: bool)
    ensures
        stored == !old(reg)@.registered,
        stored ==> final(reg)@.registered && final(reg)@.chronon == (if old(reg)@.chronon is None {
            Some(backend)
        } else {
            old(reg)@.chronon
        }),
        !stored ==> final(reg)@ == old(reg)@,
{
    if reg.registered {
        return false;
    }
    reg.registered = true;
    if reg.chronon.is_none() {
        reg.chronon = Some(backend);
    }
    true
}

/// Turn the switch on without a Chronon backend (inline sweeps for tests and embedded hosts).
pub fn mark_registered_for_inline<B>(reg: &mut TtlRegistration<B>)
    ensures
        final(reg)@.registered,
        final(reg)@.chronon == old(reg)@.chronon,
{
    reg.registered = true;
}

/// Start a sweep tick: an unregistered sweeper runs nothing (`None`, the tick reports an
/// empty [`TtlSweepReport`]); otherwise a sweep over the Deferred tables with budget `cap`.
pub fn sweep_expired_ttl_rows<B>(
    reg: &TtlRegistration<B>,
    cap: u32,
    tables: &Vec<(String, BackendTtlCapability)>,
) -> (r: Option<TtlSweep>)
    ensures
        !reg@.registered ==> r is None,
        reg@.registered ==> (r matches Some(s) && s@.wf() && s@.cap == cap && s@.tables
            == deferred_names(ttl_tables_view(tables@)) && s@.skipped_native == cap_u32(
            native_count(ttl_tables_view(tables@)),
        ) && s@.table == 0 && !s@.queueing && s@.queued == 0),
{
    if !reg.registered {
        return None;
    }
    let (deferred, native) = partition_ttl_tables(tables);
    let s = TtlSweep::new(cap, deferred, native);
    Some(s)
}

} // verus!
