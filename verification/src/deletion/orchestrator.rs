//! Deletion orchestrator: DAG waves and the run's lifecycle.
//!
//! Depths run from the deepest to the root. Within a depth, `RemoveEdge` steps go first, then
//! `SetNull`, then `CascadeDelete`, so that parallel workers never delete a record before the
//! references to it are cleared.

use vstd::prelude::*;

use crate::deletion::run_service::{run_status_is, status_is, DeletionRunStatus, RunFields, RunPatch};
use crate::deletion::step_worker::{step_row_for_node, step_row_spec};
use crate::ids::{new_uuid_v4, uuid_v4_text};
use crate::model::{DeletionAction, DeletionNode, ValenceDeletionStep};
use crate::text::{concat2, str_string};

verus! {

/// Sub-wave of an action within a depth: `RemoveEdge` 0, `SetNull` 1, `CascadeDelete` 2.
pub open spec fn wave_order_spec(a: DeletionAction) -> nat {
    match a {
        DeletionAction::RemoveEdge { .. } => 0,
        DeletionAction::SetNull { .. } => 1,
        DeletionAction::CascadeDelete => 2,
    }
}

/// Sub-wave of an action within a depth.
pub fn wave_order(a: &DeletionAction) -> (r: u8)
    ensures
        r as nat == wave_order_spec(*a),
{
    match a {
        DeletionAction::RemoveEdge { .. } => 0,
        DeletionAction::SetNull { .. } => 1,
        DeletionAction::CascadeDelete => 2,
    }
}

/// Indices, ascending, of the first `n` nodes that sit at depth `d` in sub-wave `o`.
pub open spec fn wave_members(nodes: Seq<DeletionNode>, n: nat, d: nat, o: nat) -> Seq<int>
    decreases n,
{
    if n == 0 {
        Seq::empty()
    } else {
        let rest = wave_members(nodes, (n - 1) as nat, d, o);
        let i = n - 1;
        if nodes[i].depth as nat == d && wave_order_spec(nodes[i].action) == o {
            rest.push(i)
        } else {
            rest
        }
    }
}

/// Deepest depth among the first `n` nodes (`0` for none).
pub open spec fn max_depth_of(nodes: Seq<DeletionNode>, n: nat) -> nat
    decreases n,
{
    if n == 0 {
        0
    } else {
        let m = max_depth_of(nodes, (n - 1) as nat);
        if nodes[n - 1].depth as nat > m {
            nodes[n - 1].depth as nat
        } else {
            m
        }
    }
}

/// The non-empty sub-waves of depth `d`, in sub-wave order.
pub open spec fn depth_waves(nodes: Seq<DeletionNode>, d: nat) -> Seq<(nat, Seq<int>)> {
    let w0 = wave_members(nodes, nodes.len(), d, 0);
    let w1 = wave_members(nodes, nodes.len(), d, 1);
    let w2 = wave_members(nodes, nodes.len(), d, 2);
    let s0: Seq<(nat, Seq<int>)> = if w0.len() > 0 {
        seq![(0nat, w0)]
    } else {
        Seq::empty()
    };
    let s1: Seq<(nat, Seq<int>)> = if w1.len() > 0 {
        s0.push((1nat, w1))
    } else {
        s0
    };
    if w2.len() > 0 {
        s1.push((2nat, w2))
    } else {
        s1
    }
}

/// The orchestrator's plan: every depth from the deepest down to the root, each with its
/// non-empty sub-waves.
pub open spec fn wave_plan(nodes: Seq<DeletionNode>) -> Seq<(nat, Seq<(nat, Seq<int>)>)> {
    let m = max_depth_of(nodes, nodes.len());
    Seq::new(m + 1, |k: int| ((m - k) as nat, depth_waves(nodes, (m - k) as nat)))
}

/// One sub-wave: indices (into the DAG node list) of the nodes to run, ascending.
pub struct Wave {
    /// Sub-wave order (`RemoveEdge` 0, `SetNull` 1, `CascadeDelete` 2).
    pub order: u8,
    /// Node indices.
    pub nodes: Vec<usize>,
}

/// The sub-waves of one depth.
pub struct DepthWaves {
    /// The depth.
    pub depth: u32,
    /// Its non-empty sub-waves in order.
    pub waves: Vec<Wave>,
}

/// Plain-value form of a wave.
pub open spec fn wave_view(w: Wave) -> (nat, Seq<int>) {
    (w.order as nat, w.nodes@.map_values(|i: usize| i as int))
}

/// Plain-value form of a depth's waves.
pub open spec fn depth_view(d: DepthWaves) -> (nat, Seq<(nat, Seq<int>)>) {
    (d.depth as nat, d.waves@.map_values(|w: Wave| wave_view(w)))
}

fn collect_wave(nodes: &Vec<DeletionNode>, d: u32, o: u8) -> (r: Vec<usize>)
    ensures
        r@.map_values(|i: usize| i as int) == wave_members(nodes@, nodes@.len(), d as nat, o as nat),
{
    let mut out: Vec<usize> = Vec::new();
    let mut i: usize = 0;
    while i < nodes.len()
        invariant
            i <= nodes.len(),
            out@.map_values(|k: usize| k as int) == wave_members(nodes@, i as nat, d as nat, o as nat),
        decreases nodes.len() - i,
    {
        if nodes[i].depth == d && wave_order(&nodes[i].action) == o {
            out.push(i);
        }
        assert(out@.map_values(|k: usize| k as int) =~= wave_members(
            nodes@,
            (i + 1) as nat,
            d as nat,
            o as nat,
        ));
        i = i + 1;
    }
    out
}

fn depth_plan(nodes: &Vec<DeletionNode>, d: u32) -> (r: DepthWaves)
    ensures
        depth_view(r) == (d as nat, depth_waves(nodes@, d as nat)),
{
    let mut waves: Vec<Wave> = Vec::new();
    let w0 = collect_wave(nodes, d, 0);
    let w1 = collect_wave(nodes, d, 1);
    let w2 = collect_wave(nodes, d, 2);
    let ghost v0 = wave_members(nodes@, nodes@.len(), d as nat, 0);
    let ghost v1 = wave_members(nodes@, nodes@.len(), d as nat, 1);
    let ghost v2 = wave_members(nodes@, nodes@.len(), d as nat, 2);
    if w0.len() > 0 {
        waves.push(Wave { order: 0, nodes: w0 });
    }
    let ghost s0: Seq<(nat, Seq<int>)> = if v0.len() > 0 {
        seq![(0nat, v0)]
    } else {
        Seq::empty()
    };
    assert(waves@.map_values(|w: Wave| wave_view(w)) =~= s0);
    if w1.len() > 0 {
        waves.push(Wave { order: 1, nodes: w1 });
    }
    let ghost s1: Seq<(nat, Seq<int>)> = if v1.len() > 0 {
        s0.push((1nat, v1))
    } else {
        s0
    };
    assert(waves@.map_values(|w: Wave| wave_view(w)) =~= s1);
    if w2.len() > 0 {
        waves.push(Wave { order: 2, nodes: w2 });
    }
    assert(waves@.map_values(|w: Wave| wave_view(w)) =~= depth_waves(nodes@, d as nat));
    DepthWaves { depth: d, waves }
}

/// Deepest DAG depth (`0` for an empty DAG).
pub fn max_depth(nodes: &Vec<DeletionNode>) -> (m: u32)
    ensures
        m as nat == max_depth_of(nodes@, nodes@.len()),
{
    let mut m: u32 = 0;
    let mut i: usize = 0;
    while i < nodes.len()
        invariant
            i <= nodes.len(),
            m as nat == max_depth_of(nodes@, i as nat),
        decreases nodes.len() - i,
    {
        if nodes[i].depth > m {
            m = nodes[i].depth;
        }
        i = i + 1;
    }
    m
}

/// The wave plan of a DAG: depths from the deepest to the root, each with its non-empty
/// sub-waves (`RemoveEdge`, then `SetNull`, then `CascadeDelete`), nodes in DAG order.
pub fn plan_deletion_waves(nodes: &Vec<DeletionNode>) -> (plan: Vec<DepthWaves>)
    ensures
        plan@.map_values(|d: DepthWaves| depth_view(d)) == wave_plan(nodes@),
{
    let m = max_depth(nodes);
    let mut plan: Vec<DepthWaves> = Vec::new();
    let mut k: u64 = 0;
    while k <= m as u64
        invariant
            k <= m as u64 + 1,
            plan@.len() == k,
            forall|j: int|
                0 <= j < k ==> depth_view(#[trigger] plan@[j]) == wave_plan(nodes@)[j],
            m as nat == max_depth_of(nodes@, nodes@.len()),
        decreases m as u64 + 1 - k,
    {
        let d = m - (k as u32);
        plan.push(depth_plan(nodes, d));
        k = k + 1;
    }
    assert(plan@.map_values(|d: DepthWaves| depth_view(d)) =~= wave_plan(nodes@));
    plan
}

proof fn lemma_wave_members(nodes: Seq<DeletionNode>, n: nat, d: nat, o: nat)
    requires
        n <= nodes.len(),
    ensures
        forall|a: int, b: int|
            0 <= a < b < wave_members(nodes, n, d, o).len() ==> wave_members(nodes, n, d, o)[a]
                < wave_members(nodes, n, d, o)[b],
        forall|a: int|
            0 <= a < wave_members(nodes, n, d, o).len() ==> {
                let i = #[trigger] wave_members(nodes, n, d, o)[a];
                &&& 0 <= i < n
                &&& nodes[i].depth as nat == d
                &&& wave_order_spec(nodes[i].action) == o
            },
        forall|i: int|
            0 <= i < n && nodes[i].depth as nat == d && wave_order_spec(nodes[i].action) == o
                ==> #[trigger] wave_members(nodes, n, d, o).contains(i),
    decreases n,
{
    if n > 0 {
        lemma_wave_members(nodes, (n - 1) as nat, d, o);
        let rest = wave_members(nodes, (n - 1) as nat, d, o);
        let all = wave_members(nodes, n, d, o);
        assert forall|i: int|
            0 <= i < n && nodes[i].depth as nat == d && wave_order_spec(nodes[i].action) == o
                implies all.contains(i) by {
            if i < n - 1 {
                assert(rest.contains(i));
                let a = choose|a: int| 0 <= a < rest.len() && rest[a] == i;
                assert(all[a] == i);
            } else {
                assert(all[all.len() - 1] == i);
            }
        }
    }
}

proof fn lemma_max_depth(nodes: Seq<DeletionNode>, n: nat)
    requires
        n <= nodes.len(),
    ensures
        forall|i: int| 0 <= i < n ==> nodes[i].depth as nat <= max_depth_of(nodes, n),
    decreases n,
{
    if n > 0 {
        lemma_max_depth(nodes, (n - 1) as nat);
    }
}

/// Law: every DAG node is planned exactly once, in the sub-wave of its action at its own depth.
/// The plan's entry for that depth has a wave of the node's action that holds it, and no wave
/// anywhere else in the plan does.
pub proof fn law_each_node_in_its_wave(nodes: Seq<DeletionNode>, i: int)
    requires
        0 <= i < nodes.len(),
    ensures
        ({
            let plan = wave_plan(nodes);
            let k = max_depth_of(nodes, nodes.len()) - nodes[i].depth;
            &&& 0 <= k < plan.len()
            &&& plan[k].0 == nodes[i].depth as nat
            &&& exists|w: int|
                0 <= w < plan[k].1.len() && plan[k].1[w].0 == wave_order_spec(nodes[i].action)
                    && plan[k].1[w].1.contains(i)
            &&& forall|k2: int, w2: int|
                0 <= k2 < plan.len() && 0 <= w2 < plan[k2].1.len() && (
                #[trigger] plan[k2].1[w2]).1.contains(i) ==> k2 == k && plan[k2].1[w2].0
                    == wave_order_spec(nodes[i].action)
        }),
{
    let plan = wave_plan(nodes);
    let m = max_depth_of(nodes, nodes.len());
    lemma_max_depth(nodes, nodes.len());
    let d = nodes[i].depth as nat;
    let o = wave_order_spec(nodes[i].action);
    let k = m - d;
    lemma_wave_members(nodes, nodes.len(), d, 0);
    lemma_wave_members(nodes, nodes.len(), d, 1);
    lemma_wave_members(nodes, nodes.len(), d, 2);
    let mine = wave_members(nodes, nodes.len(), d, o);
    assert(mine.contains(i));
    let waves = depth_waves(nodes, d);
    assert(plan[k].1 == waves);
    assert(exists|w: int| 0 <= w < waves.len() && waves[w].0 == o && waves[w].1.contains(i)) by {
        let w0 = wave_members(nodes, nodes.len(), d, 0);
        let w1 = wave_members(nodes, nodes.len(), d, 1);
        if o == 0 {
            assert(waves[0] == (0nat, w0));
        } else if o == 1 {
            if w0.len() > 0 {
                assert(waves[1] == (1nat, w1));
            } else {
                assert(waves[0] == (1nat, w1));
            }
        } else {
            assert(waves[waves.len() - 1] == (2nat, mine));
        }
    }
    assert forall|k2: int, w2: int|
        0 <= k2 < plan.len() && 0 <= w2 < plan[k2].1.len() && (
        #[trigger] plan[k2].1[w2]).1.contains(i) implies k2 == k && plan[k2].1[w2].0 == o by {
        let d2 = (m - k2) as nat;
        lemma_wave_members(nodes, nodes.len(), d2, 0);
        lemma_wave_members(nodes, nodes.len(), d2, 1);
        lemma_wave_members(nodes, nodes.len(), d2, 2);
        let ws = depth_waves(nodes, d2);
        assert(plan[k2].1 == ws);
        let entry = ws[w2];
        assert(entry.1 == wave_members(nodes, nodes.len(), d2, entry.0)
            && entry.0 <= 2);
        let a = choose|a: int| 0 <= a < entry.1.len() && entry.1[a] == i;
        assert(entry.1[a] == i);
    }
}

/// Law: the plan walks depths from the deepest to the root, within a depth its sub-waves in
/// `RemoveEdge`, `SetNull`, `CascadeDelete` order, and within a sub-wave the nodes in DAG order.
pub proof fn law_wave_plan_order(nodes: Seq<DeletionNode>)
    ensures
        ({
            let plan = wave_plan(nodes);
            &&& forall|k1: int, k2: int|
                0 <= k1 < k2 < plan.len() ==> #[trigger] plan[k1].0 > #[trigger] plan[k2].0
            &&& forall|k: int, w1: int, w2: int|
                0 <= k < plan.len() && 0 <= w1 < w2 < plan[k].1.len() ==> (
                #[trigger] plan[k].1[w1]).0 < (#[trigger] plan[k].1[w2]).0
            &&& forall|k: int, w: int, a: int, b: int|
                0 <= k < plan.len() && 0 <= w < plan[k].1.len() && 0 <= a < b
                    < plan[k].1[w].1.len() ==> #[trigger] plan[k].1[w].1[a]
                    < #[trigger] plan[k].1[w].1[b]
        }),
{
    let plan = wave_plan(nodes);
    assert forall|k: int, w1: int, w2: int|
        0 <= k < plan.len() && 0 <= w1 < w2 < plan[k].1.len() implies (
        #[trigger] plan[k].1[w1]).0 < (#[trigger] plan[k].1[w2]).0 by {
        let d = plan[k].0;
        let ws = depth_waves(nodes, d);
        assert(plan[k].1 == ws);
    }
    assert forall|k: int, w: int, a: int, b: int|
        0 <= k < plan.len() && 0 <= w < plan[k].1.len() && 0 <= a < b < plan[k].1[w].1.len()
            implies #[trigger] plan[k].1[w].1[a] < #[trigger] plan[k].1[w].1[b] by {
        let d = plan[k].0;
        let ws = depth_waves(nodes, d);
        assert(plan[k].1 == ws);
        lemma_wave_members(nodes, nodes.len(), d, 0);
        lemma_wave_members(nodes, nodes.len(), d, 1);
        lemma_wave_members(nodes, nodes.len(), d, 2);
        assert(ws[w].1 == wave_members(nodes, nodes.len(), d, ws[w].0));
    }
}

proof fn lemma_plan_entry(nodes: Seq<DeletionNode>, k: int, w: int)
    requires
        0 <= k < wave_plan(nodes).len(),
        0 <= w < wave_plan(nodes)[k].1.len(),
    ensures
        wave_plan(nodes)[k].1[w].1.len() > 0,
        forall|j: int|
            0 <= j < wave_plan(nodes)[k].1[w].1.len() ==> 0 <= #[trigger] wave_plan(
                nodes,
            )[k].1[w].1[j] < nodes.len(),
{
    let plan = wave_plan(nodes);
    let d = plan[k].0;
    let ws = depth_waves(nodes, d);
    assert(plan[k].1 == ws);
    let o = ws[w].0;
    assert(ws[w].1 == wave_members(nodes, nodes.len(), d, o) && ws[w].1.len() > 0);
    lemma_wave_members(nodes, nodes.len(), d, o);
}

/// How each planned step is executed.
#[derive(Clone, Copy, Debug, PartialEq, Eq)]
pub enum ValenceDeletionOrchestratorStepDispatch {
    /// Enqueue the step worker task (production); each sub-wave is awaited before the next.
    BosonQueue,
    /// Run the step worker inline (embedded hosts and tests).
    InlineWorker,
}

/// What the DAG computation returned: its nodes, and the rendered restrict violations when
/// there are any.
pub struct DagOutcome {
    /// Nodes in DAG order.
    pub nodes: Vec<DeletionNode>,
    /// `Some(text)` when restrict connections forbid the delete.
    pub restrict_violations: Option<String>,
}

/// Results the host hands back to the orchestrator (errors as rendered text).
pub enum DeletionOrchestratorEvent {
    /// Result of `TryClaim`.
    Claimed(Result<bool, String>),
    /// Result of `RestoreRequester`.
    RequesterRestored(Result<(), String>),
    /// Result of `MergeRun`.
    RunMerged(Result<(), String>),
    /// Result of `LoadRun`: the run's fields, or `None` when the row is gone.
    RunLoaded(Result<Option<RunFields>, String>),
    /// Result of `ComputeDag`.
    DagComputed(Result<DagOutcome, String>),
    /// Result of `MarkQueuedStepsSkipped`.
    StepsSkipped(Result<(), String>),
    /// Result of `RunStep` (write the step row, then enqueue or run it).
    StepRun(Result<(), String>),
    /// Result of `WaitWave`.
    WaveWaited(Result<(), String>),
}

/// What the orchestrator asks the host to do next.
pub enum DeletionOrchestratorAction {
    /// Move the run from `queued` to `scanning` unless another orchestrator did.
    TryClaim { run_id: String },
    /// Rebuild the store handle as the run's requester.
    RestoreRequester { run_id: String },
    /// Read the run row.
    LoadRun { run_id: String },
    /// Compute the deletion DAG of the root record as the requester.
    ComputeDag { root_table: String, root_record_id: String },
    /// Merge `patch` into the run row.
    MergeRun { run_id: String, patch: RunPatch },
    /// Mark the run's still-queued steps `skipped`.
    MarkQueuedStepsSkipped { run_id: String },
    /// Write step `step_id` (`row`, for DAG node `node`) and dispatch it.
    RunStep {
        run_id: String,
        step_id: String,
        node: DeletionNode,
        row: ValenceDeletionStep,
        dispatch: ValenceDeletionOrchestratorStepDispatch,
    },
    /// Wait until no step of `depth` is queued or in progress (or the run is cancelled).
    WaitWave { run_id: String, depth: u32 },
    /// The orchestration is over with this outcome.
    Finish(Result<(), String>),
}

/// Where the orchestrator stands.
pub enum DeletionPhase {
    /// Claiming the queued run.
    Claiming,
    /// Restoring the requester.
    Restoring,
    /// Recording the restore failure on the run (best effort), then failing with `message`.
    ReportingRestoreFailure { message: String },
    /// Reading the run's root.
    LoadingRun,
    /// Computing the DAG.
    ComputingDag { root_table: String, root_record_id: String },
    /// Failing the run because of restrict violations.
    RecordingViolations { violations: String },
    /// Marking the run `processing` with its step total.
    MarkingProcessing,
    /// Completing a run with an empty DAG.
    CompletingEmpty,
    /// Checking for cancellation before the plan's depth `k`.
    CheckingDepth,
    /// Skipping the remaining queued steps of a cancelled run.
    SkippingQueued,
    /// Running step `j` of sub-wave `w` of depth entry `k`.
    RunningStep,
    /// Waiting for sub-wave `w` of depth entry `k` to drain.
    WaitingWave,
    /// Reading the run after all waves.
    LoadingFinal,
    /// Writing the terminal status.
    MarkingTerminal { status: DeletionRunStatus },
    /// Over.
    Done { outcome: Result<(), String> },
}

/// Abstract state of the orchestrator.
pub struct DeletionOrchestratorView {
    /// Deletion run driven.
    pub run_id: String,
    /// Step dispatch mode.
    pub dispatch: ValenceDeletionOrchestratorStepDispatch,
    /// Current phase.
    pub phase: DeletionPhase,
    /// DAG nodes (empty before the DAG is computed).
    pub nodes: Seq<DeletionNode>,
    /// Depth entry of the wave plan.
    pub k: nat,
    /// Sub-wave within the entry.
    pub w: nat,
    /// Step within the sub-wave.
    pub j: nat,
    /// Id of the current step.
    pub step_id: String,
}

/// A patch that sets `status` and stamps `completed_at`, with an optional error message.
pub open spec fn closing_patch(p: RunPatch, status: DeletionRunStatus, error: Option<Seq<char>>) -> bool {
    &&& p.status == Some(status)
    &&& p.stamp_completed_at
    &&& !p.stamp_started_at
    &&& p.total_steps is None
    &&& match (error, p.error_message) {
        (Some(e), Some(m)) => m@ == e,
        (None, None) => true,
        _ => false,
    }
}

impl DeletionOrchestratorView {
    /// The plan's depth entries.
    pub open spec fn plan(self) -> Seq<(nat, Seq<(nat, Seq<int>)>)> {
        wave_plan(self.nodes)
    }

    /// Invariant of every orchestrator state.
    pub open spec fn wf(self) -> bool {
        match self.phase {
            DeletionPhase::CheckingDepth => self.k < self.plan().len(),
            DeletionPhase::RunningStep => {
                &&& self.k < self.plan().len()
                &&& self.w < self.plan()[self.k as int].1.len()
                &&& self.j < self.plan()[self.k as int].1[self.w as int].1.len()
                &&& uuid_v4_text(self.step_id@)
            },
            DeletionPhase::WaitingWave => {
                &&& self.k < self.plan().len()
                &&& self.w < self.plan()[self.k as int].1.len()
            },
            _ => true,
        }
    }

    /// Index of the DAG node of the current step.
    pub open spec fn step_node_index(self) -> int {
        self.plan()[self.k as int].1[self.w as int].1[self.j as int]
    }

    /// Finish with `outcome`.
    pub open spec fn done(self, outcome: Result<(), String>) -> DeletionOrchestratorView {
        DeletionOrchestratorView { phase: DeletionPhase::Done { outcome }, ..self }
    }

    /// Begin depth entry `k`: check for cancellation, or read the run when the plan is done.
    pub open spec fn enter_depth(self, k: nat) -> DeletionOrchestratorView {
        if k < self.plan().len() {
            DeletionOrchestratorView { phase: DeletionPhase::CheckingDepth, k, w: 0, j: 0, ..self }
        } else {
            DeletionOrchestratorView { phase: DeletionPhase::LoadingFinal, k, w: 0, j: 0, ..self }
        }
    }

    /// The run is not cancelled at depth entry `k`: start its first sub-wave, or move on.
    pub open spec fn start_depth(self, id: String) -> DeletionOrchestratorView {
        if self.plan()[self.k as int].1.len() > 0 {
            DeletionOrchestratorView {
                phase: DeletionPhase::RunningStep,
                w: 0,
                j: 0,
                step_id: id,
                ..self
            }
        } else {
            self.enter_depth(self.k + 1)
        }
    }

    /// The current sub-wave is over: start the next one, or the next depth entry.
    pub open spec fn next_wave(self, id: String) -> DeletionOrchestratorView {
        if self.w + 1 < self.plan()[self.k as int].1.len() {
            DeletionOrchestratorView {
                phase: DeletionPhase::RunningStep,
                w: self.w + 1,
                j: 0,
                step_id: id,
                ..self
            }
        } else {
            self.enter_depth(self.k + 1)
        }
    }

    /// The current step was written and dispatched.
    pub open spec fn after_step(self, id: String) -> DeletionOrchestratorView {
        if self.j + 1 < self.plan()[self.k as int].1[self.w as int].1.len() {
            DeletionOrchestratorView { j: self.j + 1, step_id: id, ..self }
        } else if self.dispatch == ValenceDeletionOrchestratorStepDispatch::BosonQueue {
            DeletionOrchestratorView { phase: DeletionPhase::WaitingWave, ..self }
        } else {
            self.next_wave(id)
        }
    }
}

/// Error text the orchestration fails with when the requester cannot be restored.
pub open spec fn restore_failure_message(e: Seq<char>) -> Seq<char> {
    "requester actor restore failed: "@ + e
}

/// Message when the run row is missing.
pub const RUN_NOT_FOUND: &'static str = "deletion run not found";

/// Message when the run row has no `root_table`.
pub const ROOT_TABLE_MISSING: &'static str = "root_table missing";

/// Message when the run row has no `root_record_id`.
pub const ROOT_RECORD_ID_MISSING: &'static str = "root_record_id missing";

/// Message when the run row vanished during orchestration.
pub const RUN_MISSING_AFTER: &'static str = "run missing after orchestration";

/// The terminal status of a run whose waves all ran: `failed` when a step failed.
pub open spec fn terminal_status_spec(failed_steps: Option<i64>) -> DeletionRunStatus {
    let failed = match failed_steps {
        Some(n) => n,
        None => 0,
    };
    if failed > 0 {
        DeletionRunStatus::Failed
    } else {
        DeletionRunStatus::Completed
    }
}

/// The terminal status of a run whose waves all ran: `failed` when a step failed.
pub fn terminal_status(failed_steps: Option<i64>) -> (s: DeletionRunStatus)
    ensures
        s == terminal_status_spec(failed_steps),
{
    let failed = match failed_steps {
        Some(n) => n,
        None => 0,
    };
    if failed > 0 {
        DeletionRunStatus::Failed
    } else {
        DeletionRunStatus::Completed
    }
}

/// The state after `e`, where `id` is the id of a step that starts on this event.
pub open spec fn on_event_spec(
    v: DeletionOrchestratorView,
    e: DeletionOrchestratorEvent,
    id: String,
) -> DeletionOrchestratorView {
    match (v.phase, e) {
        (DeletionPhase::Claiming, DeletionOrchestratorEvent::Claimed(r)) => match r {
            Err(m) => v.done(Err(m)),
            Ok(false) => v.done(Ok(())),
            Ok(true) => DeletionOrchestratorView { phase: DeletionPhase::Restoring, ..v },
        },
        (DeletionPhase::Restoring, DeletionOrchestratorEvent::RequesterRestored(r)) => match r {
            Err(m) => DeletionOrchestratorView {
                phase: DeletionPhase::ReportingRestoreFailure {
                    message: restore_failure_message_string(m),
                },
                ..v
            },
            Ok(()) => DeletionOrchestratorView { phase: DeletionPhase::LoadingRun, ..v },
        },
        (
            DeletionPhase::ReportingRestoreFailure { message },
            DeletionOrchestratorEvent::RunMerged(_),
        ) => v.done(Err(message)),
        (DeletionPhase::LoadingRun, DeletionOrchestratorEvent::RunLoaded(r)) => match r {
            Err(m) => v.done(Err(m)),
            Ok(None) => v.done(Err(str_string(RUN_NOT_FOUND))),
            Ok(Some(f)) => match (f.root_table, f.root_record_id) {
                (None, _) => v.done(Err(str_string(ROOT_TABLE_MISSING))),
                (Some(_), None) => v.done(Err(str_string(ROOT_RECORD_ID_MISSING))),
                (Some(t), Some(rid)) => DeletionOrchestratorView {
                    phase: DeletionPhase::ComputingDag { root_table: t, root_record_id: rid },
                    ..v
                },
            },
        },
        (DeletionPhase::ComputingDag { .. }, DeletionOrchestratorEvent::DagComputed(r)) => match r {
            Err(m) => v.done(Err(m)),
            Ok(dag) => match dag.restrict_violations {
                Some(text) => DeletionOrchestratorView {
                    phase: DeletionPhase::RecordingViolations { violations: text },
                    ..v
                },
                None => DeletionOrchestratorView {
                    phase: DeletionPhase::MarkingProcessing,
                    nodes: dag.nodes@,
                    ..v
                },
            },
        },
        (DeletionPhase::RecordingViolations { .. }, DeletionOrchestratorEvent::RunMerged(r)) => v.done(
            r,
        ),
        (DeletionPhase::MarkingProcessing, DeletionOrchestratorEvent::RunMerged(r)) => match r {
            Err(m) => v.done(Err(m)),
            Ok(()) => if v.nodes.len() == 0 {
                DeletionOrchestratorView { phase: DeletionPhase::CompletingEmpty, ..v }
            } else {
                v.enter_depth(0)
            },
        },
        (DeletionPhase::CompletingEmpty, DeletionOrchestratorEvent::RunMerged(r)) => v.done(r),
        (DeletionPhase::CheckingDepth, DeletionOrchestratorEvent::RunLoaded(r)) => match r {
            Err(m) => v.done(Err(m)),
            Ok(Some(f)) => if status_is(f, "cancelled"@) {
                DeletionOrchestratorView { phase: DeletionPhase::SkippingQueued, ..v }
            } else {
                v.start_depth(id)
            },
            Ok(None) => v.start_depth(id),
        },
        (DeletionPhase::SkippingQueued, DeletionOrchestratorEvent::StepsSkipped(r)) => v.done(r),
        (DeletionPhase::RunningStep, DeletionOrchestratorEvent::StepRun(r)) => match r {
            Err(m) => v.done(Err(m)),
            Ok(()) => v.after_step(id),
        },
        (DeletionPhase::WaitingWave, DeletionOrchestratorEvent::WaveWaited(r)) => match r {
            Err(m) => v.done(Err(m)),
            Ok(()) => v.next_wave(id),
        },
        (DeletionPhase::LoadingFinal, DeletionOrchestratorEvent::RunLoaded(r)) => match r {
            Err(m) => v.done(Err(m)),
            Ok(None) => v.done(Err(str_string(RUN_MISSING_AFTER))),
            Ok(Some(f)) => if status_is(f, "cancelled"@) {
                v.done(Ok(()))
            } else {
                DeletionOrchestratorView {
                    phase: DeletionPhase::MarkingTerminal {
                        status: terminal_status_spec(f.failed_steps),
                    },
                    ..v
                }
            },
        },
        (DeletionPhase::MarkingTerminal { .. }, DeletionOrchestratorEvent::RunMerged(r)) => v.done(
            r,
        ),
        _ => v,
    }
}

/// Some `String` whose text is the restore-failure message for `m`.
pub open spec fn restore_failure_message_string(m: String) -> String {
    choose|t: String| t@ == restore_failure_message(m@)
}

/// Strings with the same text.
pub open spec fn same_text(a: Result<(), String>, b: Result<(), String>) -> bool {
    match (a, b) {
        (Ok(()), Ok(())) => true,
        (Err(x), Err(y)) => x@ == y@,
        _ => false,
    }
}

/// Two views agree up to strings with the same text.
pub open spec fn views_agree(a: DeletionOrchestratorView, b: DeletionOrchestratorView) -> bool {
    &&& a.run_id == b.run_id
    &&& a.dispatch == b.dispatch
    &&& a.nodes == b.nodes
    &&& a.k == b.k
    &&& a.w == b.w
    &&& a.j == b.j
    &&& a.step_id == b.step_id
    &&& match (a.phase, b.phase) {
        (DeletionPhase::Done { outcome: x }, DeletionPhase::Done { outcome: y }) => same_text(x, y),
        (
            DeletionPhase::ReportingRestoreFailure { message: x },
            DeletionPhase::ReportingRestoreFailure { message: y },
        ) => x@ == y@,
        (x, y) => x == y,
    }
}

/// The event fits the phase it answers.
pub open spec fn event_fits(p: DeletionPhase, e: DeletionOrchestratorEvent) -> bool {
    match (p, e) {
        (DeletionPhase::Claiming, DeletionOrchestratorEvent::Claimed(_)) => true,
        (DeletionPhase::Restoring, DeletionOrchestratorEvent::RequesterRestored(_)) => true,
        (DeletionPhase::ReportingRestoreFailure { .. }, DeletionOrchestratorEvent::RunMerged(_)) => true,
        (DeletionPhase::LoadingRun, DeletionOrchestratorEvent::RunLoaded(_)) => true,
        (DeletionPhase::ComputingDag { .. }, DeletionOrchestratorEvent::DagComputed(_)) => true,
        (DeletionPhase::RecordingViolations { .. }, DeletionOrchestratorEvent::RunMerged(_)) => true,
        (DeletionPhase::MarkingProcessing, DeletionOrchestratorEvent::RunMerged(_)) => true,
        (DeletionPhase::CompletingEmpty, DeletionOrchestratorEvent::RunMerged(_)) => true,
        (DeletionPhase::CheckingDepth, DeletionOrchestratorEvent::RunLoaded(_)) => true,
        (DeletionPhase::SkippingQueued, DeletionOrchestratorEvent::StepsSkipped(_)) => true,
        (DeletionPhase::RunningStep, DeletionOrchestratorEvent::StepRun(_)) => true,
        (DeletionPhase::WaitingWave, DeletionOrchestratorEvent::WaveWaited(_)) => true,
        (DeletionPhase::LoadingFinal, DeletionOrchestratorEvent::RunLoaded(_)) => true,
        (DeletionPhase::MarkingTerminal { .. }, DeletionOrchestratorEvent::RunMerged(_)) => true,
        _ => false,
    }
}

/// The action a state asks for.
pub open spec fn action_spec(v: DeletionOrchestratorView, a: DeletionOrchestratorAction) -> bool {
    match v.phase {
        DeletionPhase::Claiming => a matches DeletionOrchestratorAction::TryClaim { run_id }
            && run_id == v.run_id,
        DeletionPhase::Restoring => a matches DeletionOrchestratorAction::RestoreRequester { run_id }
            && run_id == v.run_id,
        DeletionPhase::ReportingRestoreFailure { message } => a matches DeletionOrchestratorAction::MergeRun { run_id, patch }
            && run_id == v.run_id && closing_patch(patch, DeletionRunStatus::Failed, Some(message@)),
        DeletionPhase::LoadingRun => a matches DeletionOrchestratorAction::LoadRun { run_id }
            && run_id == v.run_id,
        DeletionPhase::ComputingDag { root_table, root_record_id } => a matches DeletionOrchestratorAction::ComputeDag { root_table: t, root_record_id: r }
            && t == root_table && r == root_record_id,
        DeletionPhase::RecordingViolations { violations } => a matches DeletionOrchestratorAction::MergeRun { run_id, patch }
            && run_id == v.run_id && closing_patch(
            patch,
            DeletionRunStatus::Failed,
            Some(violations@),
        ),
        DeletionPhase::MarkingProcessing => a matches DeletionOrchestratorAction::MergeRun { run_id, patch }
            && run_id == v.run_id && patch.status == Some(DeletionRunStatus::Processing)
            && patch.total_steps == Some(v.nodes.len() as i64) && patch.error_message is None
            && !patch.stamp_completed_at && !patch.stamp_started_at,
        DeletionPhase::CompletingEmpty => a matches DeletionOrchestratorAction::MergeRun { run_id, patch }
            && run_id == v.run_id && closing_patch(patch, DeletionRunStatus::Completed, None),
        DeletionPhase::CheckingDepth => a matches DeletionOrchestratorAction::LoadRun { run_id }
            && run_id == v.run_id,
        DeletionPhase::SkippingQueued => a matches DeletionOrchestratorAction::MarkQueuedStepsSkipped { run_id }
            && run_id == v.run_id,
        DeletionPhase::RunningStep => a matches DeletionOrchestratorAction::RunStep { run_id, step_id, node, row, dispatch }
            && run_id == v.run_id && step_id == v.step_id && node == v.nodes[v.step_node_index()]
            && step_row_spec(v.run_id@, node, row) && dispatch == v.dispatch,
        DeletionPhase::WaitingWave => a matches DeletionOrchestratorAction::WaitWave { run_id, depth }
            && run_id == v.run_id && depth as nat == v.plan()[v.k as int].0,
        DeletionPhase::LoadingFinal => a matches DeletionOrchestratorAction::LoadRun { run_id }
            && run_id == v.run_id,
        DeletionPhase::MarkingTerminal { status } => a matches DeletionOrchestratorAction::MergeRun { run_id, patch }
            && run_id == v.run_id && closing_patch(patch, status, None),
        DeletionPhase::Done { outcome } => a matches DeletionOrchestratorAction::Finish(r) && same_text(
            r,
            outcome,
        ),
    }
}

/// Decisions of one deletion-run orchestration: claim, requester, DAG, the wave plan step by
/// step, cancellation checks, and the terminal status.
pub struct DeletionOrchestrator {
    run_id: String,
    dispatch: ValenceDeletionOrchestratorStepDispatch,
    phase: DeletionPhase,
    nodes: Vec<DeletionNode>,
    plan: Vec<DepthWaves>,
    k: usize,
    w: usize,
    j: usize,
    step_id: String,
}

impl View for DeletionOrchestrator {
    type V = DeletionOrchestratorView;

    closed spec fn view(&self) -> DeletionOrchestratorView {
        DeletionOrchestratorView {
            run_id: self.run_id,
            dispatch: self.dispatch,
            phase: self.phase,
            nodes: self.nodes@,
            k: self.k as nat,
            w: self.w as nat,
            j: self.j as nat,
            step_id: self.step_id,
        }
    }
}

fn clone_outcome(r: &Result<(), String>) -> (c: Result<(), String>)
    ensures
        same_text(c, *r),
{
    match r {
        Ok(()) => Ok(()),
        Err(m) => Err(m.clone()),
    }
}

fn closing(status: DeletionRunStatus, error: Option<String>) -> (p: RunPatch)
    ensures
        p.status == Some(status),
        p.stamp_completed_at,
        !p.stamp_started_at,
        p.total_steps is None,
        p.error_message == error,
{
    RunPatch {
        status: Some(status),
        error_message: error,
        total_steps: None,
        stamp_completed_at: true,
        stamp_started_at: false,
    }
}

impl DeletionOrchestrator {
    closed spec fn plan_matches(&self) -> bool {
        self.plan@.map_values(|d: DepthWaves| depth_view(d)) == wave_plan(self.nodes@)
    }

    /// Start orchestrating run `run_id` with the given step dispatch.
    pub fn new(run_id: String, dispatch: ValenceDeletionOrchestratorStepDispatch) -> (o: Self)
        ensures
            o.inv(),
            o@.run_id == run_id,
            o@.dispatch == dispatch,
            o@.phase == DeletionPhase::Claiming,
            o@.nodes.len() == 0,
    {
        let nodes: Vec<DeletionNode> = Vec::new();
        let plan = plan_deletion_waves(&nodes);
        DeletionOrchestrator {
            run_id,
            dispatch,
            phase: DeletionPhase::Claiming,
            nodes,
            plan,
            k: 0,
            w: 0,
            j: 0,
            step_id: String::new(),
        }
    }
}

/// A copy of a DAG node.
pub fn clone_node(n: &DeletionNode) -> (r: DeletionNode)
    ensures
        r == *n,
{
    let action = match &n.action {
        DeletionAction::CascadeDelete => DeletionAction::CascadeDelete,
        DeletionAction::SetNull { field } => DeletionAction::SetNull { field: field.clone() },
        DeletionAction::RemoveEdge { edge_table } => DeletionAction::RemoveEdge {
            edge_table: edge_table.clone(),
        },
    };
    DeletionNode {
        table: n.table.clone(),
        record_id: n.record_id.clone(),
        action,
        depth: n.depth,
        connection_name: n.connection_name.clone(),
        from_table: n.from_table.clone(),
    }
}

impl DeletionOrchestrator {
    /// The orchestrator's internal consistency: the state invariant, and the stored wave plan
    /// being the plan of the stored DAG.
    pub closed spec fn inv(&self) -> bool {
        &&& self@.wf()
        &&& self.plan_matches()
    }

    /// The action this state asks for.
    pub fn next_action(&self) -> (a: DeletionOrchestratorAction)
        requires
            self.inv(),
        ensures
            action_spec(self@, a),
    {
        match &self.phase {
            DeletionPhase::Claiming => DeletionOrchestratorAction::TryClaim {
                run_id: self.run_id.clone(),
            },
            DeletionPhase::Restoring => DeletionOrchestratorAction::RestoreRequester {
                run_id: self.run_id.clone(),
            },
            DeletionPhase::ReportingRestoreFailure { message } => {
                DeletionOrchestratorAction::MergeRun {
                    run_id: self.run_id.clone(),
                    patch: closing(DeletionRunStatus::Failed, Some(message.clone())),
                }
            },
            DeletionPhase::LoadingRun => DeletionOrchestratorAction::LoadRun {
                run_id: self.run_id.clone(),
            },
            DeletionPhase::ComputingDag { root_table, root_record_id } => {
                DeletionOrchestratorAction::ComputeDag {
                    root_table: root_table.clone(),
                    root_record_id: root_record_id.clone(),
                }
            },
            DeletionPhase::RecordingViolations { violations } => {
                DeletionOrchestratorAction::MergeRun {
                    run_id: self.run_id.clone(),
                    patch: closing(DeletionRunStatus::Failed, Some(violations.clone())),
                }
            },
            DeletionPhase::MarkingProcessing => DeletionOrchestratorAction::MergeRun {
                run_id: self.run_id.clone(),
                patch: RunPatch {
                    status: Some(DeletionRunStatus::Processing),
                    error_message: None,
                    total_steps: Some(self.nodes.len() as i64),
                    stamp_completed_at: false,
                    stamp_started_at: false,
                },
            },
            DeletionPhase::CompletingEmpty => DeletionOrchestratorAction::MergeRun {
                run_id: self.run_id.clone(),
                patch: closing(DeletionRunStatus::Completed, None),
            },
            DeletionPhase::CheckingDepth => DeletionOrchestratorAction::LoadRun {
                run_id: self.run_id.clone(),
            },
            DeletionPhase::SkippingQueued => DeletionOrchestratorAction::MarkQueuedStepsSkipped {
                run_id: self.run_id.clone(),
            },
            DeletionPhase::RunningStep => {
                proof {
                    lemma_plan_entry(self.nodes@, self.k as int, self.w as int);
                    assert(depth_view(self.plan@[self.k as int]) == wave_plan(
                        self.nodes@,
                    )[self.k as int]);
                    assert(wave_view(self.plan@[self.k as int].waves@[self.w as int])
                        == wave_plan(self.nodes@)[self.k as int].1[self.w as int]);
                }
                let idx = self.plan[self.k].waves[self.w].nodes[self.j];
                assert(idx as int == wave_view(self.plan@[self.k as int].waves@[self.w as int]).1[self.j as int]);
                assert(idx as int == self@.step_node_index());
                let node = clone_node(&self.nodes[idx]);
                let row = step_row_for_node(self.run_id.as_str(), &node);
                DeletionOrchestratorAction::RunStep {
                    run_id: self.run_id.clone(),
                    step_id: self.step_id.clone(),
                    node,
                    row,
                    dispatch: self.dispatch,
                }
            },
            DeletionPhase::WaitingWave => {
                proof {
                    assert(depth_view(self.plan@[self.k as int]) == wave_plan(
                        self.nodes@,
                    )[self.k as int]);
                }
                DeletionOrchestratorAction::WaitWave {
                    run_id: self.run_id.clone(),
                    depth: self.plan[self.k].depth,
                }
            },
            DeletionPhase::LoadingFinal => DeletionOrchestratorAction::LoadRun {
                run_id: self.run_id.clone(),
            },
            DeletionPhase::MarkingTerminal { status } => DeletionOrchestratorAction::MergeRun {
                run_id: self.run_id.clone(),
                patch: closing(*status, None),
            },
            DeletionPhase::Done { outcome } => DeletionOrchestratorAction::Finish(
                clone_outcome(outcome),
            ),
        }
    }
}

/// Law: an orchestrator that loses the claim (another `run_now` already started the run, or the
/// run is no longer queued) ends successfully without touching the run.
pub proof fn law_lost_claim_is_a_no_op(v: DeletionOrchestratorView, id: String)
    requires
        v.phase == DeletionPhase::Claiming,
    ensures
        on_event_spec(v, DeletionOrchestratorEvent::Claimed(Ok(false)), id).phase
            == (DeletionPhase::Done { outcome: Ok(()) }),
{
}

/// Law: a DAG with restrict violations fails the run with the violations as its error message
/// and schedules no step; the orchestration itself then ends with the merge's outcome.
pub proof fn law_restrict_violations_fail_the_run(
    v: DeletionOrchestratorView,
    dag: DagOutcome,
    text: String,
    merged: Result<(), String>,
    id: String,
    a: DeletionOrchestratorAction,
)
    requires
        v.phase is ComputingDag,
        dag.restrict_violations == Some(text),
    ensures
        ({
            let next = on_event_spec(v, DeletionOrchestratorEvent::DagComputed(Ok(dag)), id);
            &&& next.nodes == v.nodes
            &&& action_spec(next, a) ==> (a matches DeletionOrchestratorAction::MergeRun { patch, .. }
                && closing_patch(patch, DeletionRunStatus::Failed, Some(text@)))
            &&& on_event_spec(next, DeletionOrchestratorEvent::RunMerged(merged), id).phase == (
            DeletionPhase::Done { outcome: merged })
        }),
{
}

/// Law: the DAG is computed and steps run only as the requester. When the requester cannot be
/// restored, the run is failed with `requester actor restore failed: <error>` before any DAG
/// or step, and the orchestration ends with that error whatever the failing merge returned.
/// (`text` is any string holding that message.)
pub proof fn law_restore_failure_fails_the_run(
    v: DeletionOrchestratorView,
    err: String,
    text: String,
    merged: Result<(), String>,
    id: String,
    a: DeletionOrchestratorAction,
)
    requires
        v.phase == DeletionPhase::Restoring,
        text@ == restore_failure_message(err@),
    ensures
        ({
            let next = on_event_spec(v, DeletionOrchestratorEvent::RequesterRestored(Err(err)), id);
            &&& next.nodes == v.nodes
            &&& action_spec(next, a) ==> (a matches DeletionOrchestratorAction::MergeRun { patch, .. }
                && closing_patch(patch, DeletionRunStatus::Failed, Some(restore_failure_message(err@))))
            &&& on_event_spec(next, DeletionOrchestratorEvent::RunMerged(merged), id).phase matches DeletionPhase::Done { outcome: Err(m) }
                && m@ == restore_failure_message(err@)
        }),
{
    assert(restore_failure_message_string(err)@ == restore_failure_message(err@));
}

/// Law: once every wave ran, the run ends `failed` exactly when some step failed and
/// `completed` otherwise (a cancelled run is left as it is).
pub proof fn law_terminal_status(v: DeletionOrchestratorView, f: RunFields, id: String)
    requires
        v.phase == DeletionPhase::LoadingFinal,
        !status_is(f, "cancelled"@),
    ensures
        on_event_spec(v, DeletionOrchestratorEvent::RunLoaded(Ok(Some(f))), id).phase == (
        DeletionPhase::MarkingTerminal {
            status: if (match f.failed_steps {
                Some(n) => n,
                None => 0,
            }) > 0 {
                DeletionRunStatus::Failed
            } else {
                DeletionRunStatus::Completed
            },
        }),
{
}

/// Law: a run found cancelled before a depth starts gets its queued steps skipped and no further
/// step; the orchestration ends with the outcome of that update.
pub proof fn law_cancel_stops_the_waves(
    v: DeletionOrchestratorView,
    f: RunFields,
    skipped: Result<(), String>,
    id: String,
)
    requires
        v.phase == DeletionPhase::CheckingDepth,
        status_is(f, "cancelled"@),
    ensures
        ({
            let next = on_event_spec(v, DeletionOrchestratorEvent::RunLoaded(Ok(Some(f))), id);
            &&& next.phase == DeletionPhase::SkippingQueued
            &&& on_event_spec(next, DeletionOrchestratorEvent::StepsSkipped(skipped), id).phase == (
            DeletionPhase::Done { outcome: skipped })
        }),
{
}

/// Law: the step the orchestrator dispatches is the planned DAG node at the current plan
/// position, and its step row reads back as exactly that node.
pub proof fn law_dispatched_step_is_planned_node(
    v: DeletionOrchestratorView,
    a: DeletionOrchestratorAction,
)
    requires
        v.wf(),
        v.phase == DeletionPhase::RunningStep,
        action_spec(v, a),
    ensures
        a matches DeletionOrchestratorAction::RunStep { node, row, .. } && node == v.nodes[v.step_node_index()]
            && crate::deletion::step_worker::step_to_node_spec(row) == Ok::<DeletionNode, Seq<char>>(node),
{
    if let DeletionOrchestratorAction::RunStep { node, row, .. } = a {
        crate::deletion::step_worker::law_step_row_round_trip(v.run_id@, node, row);
    }
}

/// Law: within a sub-wave the steps are dispatched one after another in plan order; with the
/// Boson queue the orchestrator waits for the sub-wave to drain before the next one, inline it
/// moves on directly.
pub proof fn law_steps_advance_in_plan_order(v: DeletionOrchestratorView, id: String)
    requires
        v.wf(),
        v.phase == DeletionPhase::RunningStep,
    ensures
        ({
            let next = on_event_spec(v, DeletionOrchestratorEvent::StepRun(Ok(())), id);
            let len = v.plan()[v.k as int].1[v.w as int].1.len();
            &&& v.j + 1 < len ==> next.phase == DeletionPhase::RunningStep && next.k == v.k
                && next.w == v.w && next.j == v.j + 1
            &&& (v.j + 1 >= len && v.dispatch == ValenceDeletionOrchestratorStepDispatch::BosonQueue)
                ==> next.phase == DeletionPhase::WaitingWave && next.k == v.k && next.w == v.w
            &&& (v.j + 1 >= len && v.dispatch == ValenceDeletionOrchestratorStepDispatch::InlineWorker)
                ==> next == v.next_wave(id)
        }),
{
}

impl DeletionOrchestrator {
    fn finish(&mut self, outcome: Result<(), String>)
        ensures
            final(self)@ == old(self)@.done(outcome),
            final(self).plan == old(self).plan,
    {
        self.phase = DeletionPhase::Done { outcome };
    }

    fn enter_depth(&mut self, k: usize)
        requires
            old(self).plan_matches(),
        ensures
            final(self)@ == old(self)@.enter_depth(k as nat),
            final(self).plan_matches(),
            final(self)@.wf(),
    {
        proof {
            assert(self.plan@.len() == wave_plan(self.nodes@).len());
        }
        if k < self.plan.len() {
            self.phase = DeletionPhase::CheckingDepth;
        } else {
            self.phase = DeletionPhase::LoadingFinal;
        }
        self.k = k;
        self.w = 0;
        self.j = 0;
    }

    fn next_wave(&mut self)
        requires
            old(self).plan_matches(),
            old(self)@.k < old(self)@.plan().len(),
            old(self)@.w < old(self)@.plan()[old(self)@.k as int].1.len(),
        ensures
            final(self)@ == old(self)@.next_wave(final(self)@.step_id),
            final(self).inv(),
    {
        proof {
            assert(depth_view(self.plan@[self.k as int]) == wave_plan(self.nodes@)[self.k as int]);
            assert(self.plan@.len() == wave_plan(self.nodes@).len());
        }
        if self.w + 1 < self.plan[self.k].waves.len() {
            self.phase = DeletionPhase::RunningStep;
            self.w = self.w + 1;
            self.j = 0;
            self.step_id = new_uuid_v4();
            proof {
                lemma_plan_entry(self.nodes@, self.k as int, self.w as int);
            }
        } else {
            let n = self.plan.len();
            assert(self.k < n);
            self.enter_depth(self.k + 1);
        }
    }

    fn start_depth(&mut self)
        requires
            old(self).plan_matches(),
            old(self)@.k < old(self)@.plan().len(),
        ensures
            final(self)@ == old(self)@.start_depth(final(self)@.step_id),
            final(self).inv(),
    {
        proof {
            assert(depth_view(self.plan@[self.k as int]) == wave_plan(self.nodes@)[self.k as int]);
            assert(self.plan@.len() == wave_plan(self.nodes@).len());
        }
        if self.plan[self.k].waves.len() > 0 {
            self.phase = DeletionPhase::RunningStep;
            self.w = 0;
            self.j = 0;
            self.step_id = new_uuid_v4();
            proof {
                lemma_plan_entry(self.nodes@, self.k as int, 0);
            }
        } else {
            let n = self.plan.len();
            assert(self.k < n);
            self.enter_depth(self.k + 1);
        }
    }

    /// Hand back the result of the last action.
    #[verifier::rlimit(60)]
    pub fn on_event(&mut self, e: DeletionOrchestratorEvent)
        requires
            old(self).inv(),
            event_fits(old(self)@.phase, e),
        ensures
            final(self).inv(),
            views_agree(final(self)@, on_event_spec(old(self)@, e, final(self)@.step_id)),
    {
        let ghost pre = self@;
        let mut phase = DeletionPhase::Claiming;
        std::mem::swap(&mut phase, &mut self.phase);
        proof {
            assert(self.plan_matches());
        }
        match (phase, e) {
            (DeletionPhase::Claiming, DeletionOrchestratorEvent::Claimed(r)) => match r {
                Err(m) => self.finish(Err(m)),
                Ok(false) => self.finish(Ok(())),
                Ok(true) => {
                    self.phase = DeletionPhase::Restoring;
                },
            },
            (DeletionPhase::Restoring, DeletionOrchestratorEvent::RequesterRestored(r)) => match r {
                Err(m) => {
                    self.phase = DeletionPhase::ReportingRestoreFailure {
                        message: concat2("requester actor restore failed: ", m.as_str()),
                    };
                },
                Ok(()) => {
                    self.phase = DeletionPhase::LoadingRun;
                },
            },
            (
                DeletionPhase::ReportingRestoreFailure { message },
                DeletionOrchestratorEvent::RunMerged(_),
            ) => self.finish(Err(message)),
            (DeletionPhase::LoadingRun, DeletionOrchestratorEvent::RunLoaded(r)) => match r {
                Err(m) => self.finish(Err(m)),
                Ok(None) => self.finish(Err(String::from_str(RUN_NOT_FOUND))),
                Ok(Some(f)) => match (f.root_table, f.root_record_id) {
                    (None, _) => self.finish(Err(String::from_str(ROOT_TABLE_MISSING))),
                    (Some(_), None) => self.finish(Err(String::from_str(ROOT_RECORD_ID_MISSING))),
                    (Some(t), Some(rid)) => {
                        self.phase = DeletionPhase::ComputingDag {
                            root_table: t,
                            root_record_id: rid,
                        };
                    },
                },
            },
            (DeletionPhase::ComputingDag { .. }, DeletionOrchestratorEvent::DagComputed(r)) => match r {
                Err(m) => self.finish(Err(m)),
                Ok(dag) => match dag.restrict_violations {
                    Some(text) => {
                        self.phase = DeletionPhase::RecordingViolations { violations: text };
                    },
                    None => {
                        self.plan = plan_deletion_waves(&dag.nodes);
                        self.nodes = dag.nodes;
                        self.phase = DeletionPhase::MarkingProcessing;
                    },
                },
            },
            (DeletionPhase::RecordingViolations { .. }, DeletionOrchestratorEvent::RunMerged(r)) => {
                self.finish(r)
            },
            (DeletionPhase::MarkingProcessing, DeletionOrchestratorEvent::RunMerged(r)) => match r {
                Err(m) => self.finish(Err(m)),
                Ok(()) => {
                    if self.nodes.len() == 0 {
                        self.phase = DeletionPhase::CompletingEmpty;
                    } else {
                        self.enter_depth(0);
                    }
                },
            },
            (DeletionPhase::CompletingEmpty, DeletionOrchestratorEvent::RunMerged(r)) => self.finish(
                r,
            ),
            (DeletionPhase::CheckingDepth, DeletionOrchestratorEvent::RunLoaded(r)) => match r {
                Err(m) => self.finish(Err(m)),
                Ok(Some(f)) => {
                    if run_status_is(&f, "cancelled") {
                        self.phase = DeletionPhase::SkippingQueued;
                    } else {
                        self.start_depth();
                    }
                },
                Ok(None) => self.start_depth(),
            },
            (DeletionPhase::SkippingQueued, DeletionOrchestratorEvent::StepsSkipped(r)) => {
                self.finish(r)
            },
            (DeletionPhase::RunningStep, DeletionOrchestratorEvent::StepRun(r)) => match r {
                Err(m) => self.finish(Err(m)),
                Ok(()) => {
                    proof {
                        assert(depth_view(self.plan@[self.k as int]) == wave_plan(
                            self.nodes@,
                        )[self.k as int]);
                        assert(wave_view(self.plan@[self.k as int].waves@[self.w as int])
                            == wave_plan(self.nodes@)[self.k as int].1[self.w as int]);
                        assert(self.plan@[self.k as int].waves@[self.w as int].nodes@.len()
                            == wave_plan(self.nodes@)[self.k as int].1[self.w as int].1.len());
                    }
                    let wave_len = self.plan[self.k].waves[self.w].nodes.len();
                    if self.j + 1 < wave_len {
                        self.phase = DeletionPhase::RunningStep;
                        self.j = self.j + 1;
                        self.step_id = new_uuid_v4();
                    } else if let ValenceDeletionOrchestratorStepDispatch::BosonQueue
                        = self.dispatch {
                        self.phase = DeletionPhase::WaitingWave;
                    } else {
                        self.next_wave();
                    }
                },
            },
            (DeletionPhase::WaitingWave, DeletionOrchestratorEvent::WaveWaited(r)) => match r {
                Err(m) => self.finish(Err(m)),
                Ok(()) => self.next_wave(),
            },
            (DeletionPhase::LoadingFinal, DeletionOrchestratorEvent::RunLoaded(r)) => match r {
                Err(m) => self.finish(Err(m)),
                Ok(None) => self.finish(Err(String::from_str(RUN_MISSING_AFTER))),
                Ok(Some(f)) => {
                    if run_status_is(&f, "cancelled") {
                        self.finish(Ok(()))
                    } else {
                        self.phase = DeletionPhase::MarkingTerminal {
                            status: terminal_status(f.failed_steps),
                        };
                    }
                },
            },
            (DeletionPhase::MarkingTerminal { .. }, DeletionOrchestratorEvent::RunMerged(r)) => {
                self.finish(r)
            },
            (p, _) => {
                self.phase = p;
            },
        }
    }
}

/// Sleep between checks of a draining sub-wave, in milliseconds.
pub const WAVE_POLL_INTERVAL_MS: u64 = 200;

/// Counts the run's steps of one depth that are still queued or in progress (`$run`, `$depth`).
pub const COUNT_WAVE_INFLIGHT_QUERY: &'static str = "SELECT VALUE count FROM (SELECT count() AS count FROM valence_deletion_step WHERE run_id = $run AND depth = $depth AND (status = 'queued' OR status = 'in_progress') GROUP ALL)";

/// Marks the run's still-queued steps skipped (`$run`).
pub const MARK_REMAINING_SKIPPED_QUERY: &'static str = "UPDATE valence_deletion_step SET status = 'skipped', completed_at = time::now() WHERE run_id = $run AND status = 'queued'";

/// A JSON number cell as an integer query result.
#[derive(Clone, Copy, Debug, PartialEq, Eq)]
pub enum IntCell {
    /// A non-negative integer.
    PosInt(u64),
    /// A negative integer.
    NegInt(i64),
    /// Not an integer.
    NotInt,
}

/// The in-flight count a query's first cell gives: its integer value (a negative one
/// reinterpreted as `u64`), or 0 when there is no integer.
pub open spec fn inflight_spec(first: Option<IntCell>) -> u64 {
    match first {
        Some(IntCell::PosInt(n)) => n,
        Some(IntCell::NegInt(i)) => i as u64,
        _ => 0,
    }
}

/// The in-flight step count read off the count query's first cell.
pub fn inflight_count(first: Option<IntCell>) -> (n: u64)
    ensures
        n == inflight_spec(first),
{
    match first {
        Some(IntCell::PosInt(n)) => n,
        Some(IntCell::NegInt(i)) => i as u64,
        _ => 0,
    }
}

/// What waiting for a sub-wave does after one check.
#[derive(Clone, Copy, Debug, PartialEq, Eq)]
pub enum WaveWait {
    /// Stop waiting (the run is cancelled, or no step of the depth is in flight).
    Stop,
    /// Count the in-flight steps.
    CountInflight,
    /// Sleep and check again.
    Poll,
}

/// First check of a waiting round: a cancelled run stops the wait at once.
pub fn wave_wait_after_status(run: &Option<RunFields>) -> (w: WaveWait)
    ensures
        (*run matches Some(f) && status_is(f, "cancelled"@)) ==> w == WaveWait::Stop,
        !(*run matches Some(f) && status_is(f, "cancelled"@)) ==> w == WaveWait::CountInflight,
{
    match run {
        Some(f) => if run_status_is(f, "cancelled") {
            WaveWait::Stop
        } else {
            WaveWait::CountInflight
        },
        None => WaveWait::CountInflight,
    }
}

/// Second check of a waiting round: the wave is drained when nothing is in flight.
pub fn wave_wait_after_count(inflight: u64) -> (w: WaveWait)
    ensures
        inflight == 0 ==> w == WaveWait::Stop,
        inflight > 0 ==> w == WaveWait::Poll,
{
    if inflight == 0 {
        WaveWait::Stop
    } else {
        WaveWait::Poll
    }
}


/// Law: every depth entry is entered through the cancellation check. When the last sub-wave
/// of depth entry `k` is over (run inline, or drained on the queue) and another entry follows,
/// the orchestrator reads the run again (`CheckingDepth` at `k + 1`) before any step of that
/// entry. More generally, no event ever moves it to a step of another depth entry: a step is
/// only issued within the entry it was checked for.
#[verifier::rlimit(40)]
pub proof fn law_each_depth_starts_with_cancellation_check(
    v: DeletionOrchestratorView,
    e: DeletionOrchestratorEvent,
    id: String,
)
    requires
        v.wf(),
    ensures
        (v.phase == DeletionPhase::RunningStep
            && v.dispatch == ValenceDeletionOrchestratorStepDispatch::InlineWorker
            && v.j + 1 >= v.plan()[v.k as int].1[v.w as int].1.len()
            && v.w + 1 >= v.plan()[v.k as int].1.len() && v.k + 1 < v.plan().len()) ==> ({
            let n = on_event_spec(v, DeletionOrchestratorEvent::StepRun(Ok(())), id);
            n.phase == DeletionPhase::CheckingDepth && n.k == v.k + 1
        }),
        (v.phase == DeletionPhase::WaitingWave && v.w + 1 >= v.plan()[v.k as int].1.len() && v.k + 1
            < v.plan().len()) ==> ({
            let n = on_event_spec(v, DeletionOrchestratorEvent::WaveWaited(Ok(())), id);
            n.phase == DeletionPhase::CheckingDepth && n.k == v.k + 1
        }),
        on_event_spec(v, e, id).phase == DeletionPhase::RunningStep ==> on_event_spec(v, e, id).k
            == v.k,
{
}

} // verus!
