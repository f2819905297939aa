//! The agent's status: the live task graph, the open proposals, the
//! history of finished tasks and the recent observations.
use vstd::prelude::*;

use crate::agent_core::observation::{Observation, OBSERVATION_LOG_LIMIT};
use crate::agent_core::proposal::{Proposal, ProposalId};
use crate::agent_core::task::{AgentTask, TaskDependencyError, TaskGraph, TaskId, spec_insert_error, graph_has};
use crate::text::{seq_lt, str_eq, str_lt, lemma_seq_lt_total, lemma_seq_lt_transitive, lemma_seq_lt_irreflexive};

verus! {

/// The most completed tasks kept in the history.
pub const MAX_TASK_HISTORY: usize = 64;

/// The stage of a task in the agent's lifecycle.
#[derive(Debug, Clone, Copy, PartialEq, Eq, Hash, Structural)]
pub enum TaskStage {
    Proposed,
    Approved,
    Executing,
    Done,
    Failed,
    Cancelled,
}

/// The kebab-case name of each stage.
pub open spec fn spec_stage_name(s: TaskStage) -> Seq<char> {
    match s {
        TaskStage::Proposed => "proposed"@,
        TaskStage::Approved => "approved"@,
        TaskStage::Executing => "executing"@,
        TaskStage::Done => "done"@,
        TaskStage::Failed => "failed"@,
        TaskStage::Cancelled => "cancelled"@,
    }
}

impl TaskStage {
    /// The canonical kebab-case name.
    pub fn as_str(&self) -> (r: &'static str)
        ensures
            r@ == spec_stage_name(*self),
    {
        match self {
            TaskStage::Proposed => "proposed",
            TaskStage::Approved => "approved",
            TaskStage::Executing => "executing",
            TaskStage::Done => "done",
            TaskStage::Failed => "failed",
            TaskStage::Cancelled => "cancelled",
        }
    }

    /// `Done`, `Failed` and `Cancelled` are the resting stages.
    pub fn is_terminal(&self) -> (r: bool)
        ensures
            r == (*self == TaskStage::Done || *self == TaskStage::Failed || *self
                == TaskStage::Cancelled),
    {
        matches!(self, TaskStage::Done | TaskStage::Failed | TaskStage::Cancelled)
    }
}

/// A finished task and how it ended.
#[derive(Debug, Clone)]
pub struct HistoryEntry {
    /// The task.
    pub task: AgentTask,
    /// How it ended.
    pub stage: TaskStage,
    /// When it ended, in milliseconds since the Unix epoch.
    pub timestamp_ms: u64,
    /// A note on the outcome.
    pub note: Option<String>,
}

/// The last `n` items of `s` (all of them when there are fewer).
pub open spec fn keep_last<T>(s: Seq<T>, n: nat) -> Seq<T> {
    if s.len() > n {
        s.subrange(s.len() - n, s.len() as int)
    } else {
        s
    }
}

/// Proposals sorted strictly by id.
pub open spec fn sorted_by_id(s: Seq<Proposal>) -> bool {
    forall|i: int, j: int| 0 <= i < j < s.len() ==> seq_lt(s[i].id@, s[j].id@)
}

/// Some proposal of `s` has this id.
pub open spec fn has_proposal(s: Seq<Proposal>, id: Seq<char>) -> bool {
    exists|i: int| 0 <= i < s.len() && s[i].id@ == id
}

/// The agent's status.
pub struct AgentStatus {
    tasks: TaskGraph,
    proposals: Vec<Proposal>,
    history: Vec<HistoryEntry>,
    observations: Vec<Observation>,
}

impl AgentStatus {
    /// The live task graph.
    pub closed spec fn spec_graph(&self) -> TaskGraph {
        self.tasks
    }

    /// The open proposals, sorted by id.
    pub closed spec fn spec_proposals(&self) -> Seq<Proposal> {
        self.proposals@
    }

    /// The finished tasks, oldest first.
    pub closed spec fn spec_history(&self) -> Seq<HistoryEntry> {
        self.history@
    }

    /// The recent observations, oldest first.
    pub closed spec fn spec_observations(&self) -> Seq<Observation> {
        self.observations@
    }

    /// The graph is well formed, the proposals are sorted by id, and the
    /// logs are within their limits.
    pub open spec fn wf(&self) -> bool {
        &&& self.spec_graph().wf()
        &&& sorted_by_id(self.spec_proposals())
        &&& self.spec_history().len() <= MAX_TASK_HISTORY
        &&& self.spec_observations().len() <= OBSERVATION_LOG_LIMIT
    }

    /// An empty status.
    pub fn new() -> (r: AgentStatus)
        ensures
            r.wf(),
            r.spec_graph().spec_tasks().len() == 0,
            r.spec_proposals().len() == 0,
            r.spec_history().len() == 0,
            r.spec_observations().len() == 0,
    {
        AgentStatus { tasks: TaskGraph::new(), proposals: Vec::new(), history: Vec::new(), observations: Vec::new() }
    }

    /// The live task graph.
    pub fn tasks(&self) -> (r: &TaskGraph)
        ensures
            *r == self.spec_graph(),
    {
        &self.tasks
    }

    /// The number of live tasks.
    pub fn task_count(&self) -> (r: usize)
        ensures
            r == self.spec_graph().spec_tasks().len(),
    {
        self.tasks.len()
    }

    /// Inserts a task into the live graph (see `TaskGraph::insert`).
    pub fn insert_task(&mut self, task: AgentTask) -> (r: Result<(), TaskDependencyError>)
        requires
            old(self).wf(),
        ensures
            final(self).wf(),
            match spec_insert_error(old(self).spec_graph().spec_tasks(), task) {
                Some(e) => r matches Err(x) && x@ == e && final(self).spec_graph().spec_tasks() == old(
                    self,
                ).spec_graph().spec_tasks(),
                None => r is Ok && final(self).spec_graph().spec_tasks() == old(self).spec_graph().spec_tasks().push(
                    task,
                ),
            },
            final(self).spec_proposals() == old(self).spec_proposals(),
            final(self).spec_history() == old(self).spec_history(),
            final(self).spec_observations() == old(self).spec_observations(),
    {
        self.tasks.insert(task)
    }

    /// Removes a task from the live graph by id and returns it.
    pub fn remove_task(&mut self, id: &TaskId) -> (r: Option<AgentTask>)
        requires
            old(self).wf(),
        ensures
            final(self).wf(),
            r is Some <==> graph_has(old(self).spec_graph().spec_tasks(), id@),
            r matches Some(t) ==> t.id@ == id@ && exists|i: int|
                0 <= i < old(self).spec_graph().spec_tasks().len() && old(self).spec_graph().spec_tasks()[i] == t
                    && final(self).spec_graph().spec_tasks() == old(self).spec_graph().spec_tasks().remove(i),
            r is None ==> final(self).spec_graph().spec_tasks() == old(self).spec_graph().spec_tasks(),
            final(self).spec_proposals() == old(self).spec_proposals(),
            final(self).spec_history() == old(self).spec_history(),
            final(self).spec_observations() == old(self).spec_observations(),
    {
        self.tasks.remove(id)
    }

    /// The first position whose proposal id is not below `id`.
    fn proposal_slot(&self, id: &str) -> (r: usize)
        requires
            sorted_by_id(self.spec_proposals()),
        ensures
            r <= self.spec_proposals().len(),
            forall|j: int| 0 <= j < r ==> seq_lt(self.spec_proposals()[j].id@, id@),
            r < self.spec_proposals().len() ==> !seq_lt(self.spec_proposals()[r as int].id@, id@),
    {
        let mut i: usize = 0;
        while i < self.proposals.len() && str_lt(self.proposals[i].id.as_str(), id)
            invariant
                i <= self.proposals@.len(),
                forall|j: int| 0 <= j < i ==> seq_lt(self.proposals@[j].id@, id@),
            decreases self.proposals@.len() - i,
        {
            i += 1;
        }
        i
    }

    /// Adds a proposal; a proposal with the same id is replaced. Whether
    /// the id was new.
    pub fn add_proposal(&mut self, proposal: Proposal) -> (r: bool)
        requires
            old(self).wf(),
        ensures
            final(self).wf(),
            r == !has_proposal(old(self).spec_proposals(), proposal.id@),
            has_proposal(final(self).spec_proposals(), proposal.id@),
            forall|i: int| 0 <= i < final(self).spec_proposals().len() && final(self).spec_proposals()[i].id@
                == proposal.id@ ==> final(self).spec_proposals()[i] == proposal,
            forall|q: Proposal| q.id@ != proposal.id@ ==> (final(self).spec_proposals().contains(q) <==> old(
                self,
            ).spec_proposals().contains(q)),
            final(self).spec_graph() == old(self).spec_graph(),
            final(self).spec_history() == old(self).spec_history(),
            final(self).spec_observations() == old(self).spec_observations(),
    {
        let ghost ps = self.proposals@;
        let slot = self.proposal_slot(proposal.id.as_str());
        if slot < self.proposals.len() && str_eq(self.proposals[slot].id.as_str(), proposal.id.as_str()) {
            let ghost pid = proposal.id@;
            self.proposals.set(slot, proposal);
            proof {
                let ps2 = self.proposals@;
                assert(ps2 =~= ps.update(slot as int, proposal));
                assert forall|a: int, b: int| 0 <= a < b < ps2.len() implies seq_lt(ps2[a].id@, ps2[b].id@) by {
                    assert(seq_lt(ps[a].id@, ps[b].id@));
                }
                assert forall|i: int| 0 <= i < ps2.len() && ps2[i].id@ == pid implies ps2[i] == proposal by {
                    if i != slot {
                        if i < slot {
                            lemma_seq_lt_irreflexive(pid);
                            assert(seq_lt(ps[i].id@, ps[slot as int].id@));
                        } else {
                            lemma_seq_lt_irreflexive(pid);
                            assert(seq_lt(ps[slot as int].id@, ps[i].id@));
                        }
                    }
                }
                assert forall|q: Proposal| q.id@ != pid implies (ps2.contains(q) <==> ps.contains(q)) by {
                    if ps.contains(q) {
                        let k = choose|k: int| 0 <= k < ps.len() && ps[k] == q;
                        assert(k != slot);
                        assert(ps2[k] == q);
                    }
                    if ps2.contains(q) {
                        let k = choose|k: int| 0 <= k < ps2.len() && ps2[k] == q;
                        assert(k != slot);
                        assert(ps[k] == q);
                    }
                }
                assert(ps2[slot as int].id@ == pid);
                assert(has_proposal(ps, pid));
            }
            false
        } else {
            let ghost pid = proposal.id@;
            proof {
                assert forall|j: int| 0 <= j < ps.len() implies ps[j].id@ != pid by {
                    if j < slot {
                        lemma_seq_lt_irreflexive(pid);
                    } else {
                        if slot < ps.len() {
                            assert(ps[slot as int].id@ != pid);
                            lemma_seq_lt_total(ps[slot as int].id@, pid);
                            if j > slot {
                                lemma_seq_lt_transitive(pid, ps[slot as int].id@, ps[j].id@);
                                lemma_seq_lt_irreflexive(pid);
                            }
                        }
                    }
                }
            }
            self.proposals.insert(slot, proposal);
            proof {
                let ps2 = self.proposals@;
                assert(ps2 =~= ps.insert(slot as int, proposal));
                if slot < ps.len() {
                    assert(ps[slot as int].id@ != pid);
                    lemma_seq_lt_total(ps[slot as int].id@, pid);
                }
                assert forall|a: int, b: int| 0 <= a < b < ps2.len() implies seq_lt(ps2[a].id@, ps2[b].id@) by {
                    if a < slot && b == slot {
                    } else if a < slot && b > slot {
                        assert(ps2[b] == ps[b - 1]);
                        assert(ps2[a] == ps[a]);
                    } else if a == slot {
                        assert(ps2[b] == ps[b - 1]);
                        if b - 1 > slot {
                            lemma_seq_lt_transitive(pid, ps[slot as int].id@, ps[b - 1].id@);
                        }
                    } else if a > slot {
                        assert(ps2[a] == ps[a - 1]);
                        assert(ps2[b] == ps[b - 1]);
                    }
                }
                assert forall|i: int| 0 <= i < ps2.len() && ps2[i].id@ == pid implies ps2[i] == proposal by {
                    if i < slot {
                        assert(ps2[i] == ps[i]);
                    } else if i > slot {
                        assert(ps2[i] == ps[i - 1]);
                    }
                }
                assert forall|q: Proposal| q.id@ != pid implies (ps2.contains(q) <==> ps.contains(q)) by {
                    if ps.contains(q) {
                        let k = choose|k: int| 0 <= k < ps.len() && ps[k] == q;
                        if k < slot {
                            assert(ps2[k] == q);
                        } else {
                            assert(ps2[k + 1] == q);
                        }
                    }
                    if ps2.contains(q) {
                        let k = choose|k: int| 0 <= k < ps2.len() && ps2[k] == q;
                        assert(k != slot);
                        if k < slot {
                            assert(ps[k] == q);
                        } else {
                            assert(ps[k - 1] == q);
                        }
                    }
                }
                assert(ps2[slot as int].id@ == pid);
            }
            true
        }
    }

    /// The position of the proposal with this id.
    fn proposal_position(&self, id: &ProposalId) -> (r: Option<usize>)
        ensures
            match r {
                Some(i) => i < self.spec_proposals().len() && self.spec_proposals()[i as int].id@ == id@,
                None => !has_proposal(self.spec_proposals(), id@),
            },
    {
        let mut i: usize = 0;
        while i < self.proposals.len()
            invariant
                i <= self.proposals@.len(),
                forall|j: int| 0 <= j < i ==> self.proposals@[j].id@ != id@,
            decreases self.proposals@.len() - i,
        {
            if str_eq(self.proposals[i].id.as_str(), id.as_str()) {
                return Some(i);
            }
            i += 1;
        }
        None
    }

    /// Removes the proposal with this id and returns it.
    pub fn remove_proposal(&mut self, id: &ProposalId) -> (r: Option<Proposal>)
        requires
            old(self).wf(),
        ensures
            final(self).wf(),
            r is Some <==> has_proposal(old(self).spec_proposals(), id@),
            r matches Some(p) ==> p.id@ == id@ && old(self).spec_proposals().contains(p),
            !has_proposal(final(self).spec_proposals(), id@),
            forall|q: Proposal| q.id@ != id@ ==> (final(self).spec_proposals().contains(q) <==> old(
                self,
            ).spec_proposals().contains(q)),
            final(self).spec_graph() == old(self).spec_graph(),
            final(self).spec_history() == old(self).spec_history(),
            final(self).spec_observations() == old(self).spec_observations(),
    {
        let ghost ps = self.proposals@;
        match self.proposal_position(id) {
            Some(i) => {
                let p = self.proposals.remove(i);
                proof {
                    let ps2 = self.proposals@;
                    assert(ps2 =~= ps.remove(i as int));
                    assert forall|a: int, b: int| 0 <= a < b < ps2.len() implies seq_lt(ps2[a].id@, ps2[b].id@) by {
                        let a2 = if a < i { a } else { a + 1 };
                        let b2 = if b < i { b } else { b + 1 };
                        assert(ps2[a] == ps[a2]);
                        assert(ps2[b] == ps[b2]);
                    }
                    if has_proposal(ps2, id@) {
                        let k = choose|k: int| 0 <= k < ps2.len() && ps2[k].id@ == id@;
                        let k2 = if k < i { k } else { k + 1 };
                        assert(ps2[k] == ps[k2]);
                        lemma_seq_lt_irreflexive(id@);
                        if k2 < i {
                            assert(seq_lt(ps[k2].id@, ps[i as int].id@));
                        } else {
                            assert(seq_lt(ps[i as int].id@, ps[k2].id@));
                        }
                    }
                    assert forall|q: Proposal| q.id@ != id@ implies (ps2.contains(q) <==> ps.contains(q)) by {
                        if ps.contains(q) {
                            let k = choose|k: int| 0 <= k < ps.len() && ps[k] == q;
                            assert(k != i);
                            let k2 = if k < i { k } else { k - 1 };
                            assert(ps2[k2] == q);
                        }
                        if ps2.contains(q) {
                            let k = choose|k: int| 0 <= k < ps2.len() && ps2[k] == q;
                            let k2 = if k < i { k } else { k + 1 };
                            assert(ps[k2] == q);
                        }
                    }
                    assert(ps[i as int] == p);
                }
                Some(p)
            },
            None => None,
        }
    }

    /// The proposal with this id, if any.
    pub fn proposal(&self, id: &ProposalId) -> (r: Option<&Proposal>)
        ensures
            r is Some <==> has_proposal(self.spec_proposals(), id@),
            r matches Some(p) ==> p.id@ == id@ && self.spec_proposals().contains(*p),
    {
        match self.proposal_position(id) {
            Some(i) => Some(&self.proposals[i]),
            None => None,
        }
    }

    /// The open proposals, sorted by id.
    pub fn proposals(&self) -> (r: Vec<&Proposal>)
        ensures
            r@.len() == self.spec_proposals().len(),
            forall|i: int| 0 <= i < r@.len() ==> *r@[i] == self.spec_proposals()[i],
    {
        let mut out: Vec<&Proposal> = Vec::new();
        let mut i: usize = 0;
        while i < self.proposals.len()
            invariant
                i <= self.proposals@.len(),
                out@.len() == i,
                forall|k: int| 0 <= k < i ==> *out@[k] == self.proposals@[k],
            decreases self.proposals@.len() - i,
        {
            out.push(&self.proposals[i]);
            i += 1;
        }
        out
    }

    /// The number of open proposals.
    pub fn proposal_count(&self) -> (r: usize)
        ensures
            r == self.spec_proposals().len(),
    {
        self.proposals.len()
    }

    /// The finished tasks, oldest first.
    pub fn history(&self) -> (r: &[HistoryEntry])
        ensures
            r@ == self.spec_history(),
    {
        self.history.as_slice()
    }

    /// The number of history entries.
    pub fn history_len(&self) -> (r: usize)
        ensures
            r == self.spec_history().len(),
    {
        self.history.len()
    }

    /// Records a finished task, keeping only the latest 64 entries.
    pub fn record_history(&mut self, entry: HistoryEntry)
        requires
            old(self).wf(),
            entry.stage == TaskStage::Done || entry.stage == TaskStage::Failed || entry.stage == TaskStage::Cancelled,
        ensures
            final(self).wf(),
            final(self).spec_history() == keep_last(old(self).spec_history().push(entry), MAX_TASK_HISTORY as nat),
            final(self).spec_graph() == old(self).spec_graph(),
            final(self).spec_proposals() == old(self).spec_proposals(),
            final(self).spec_observations() == old(self).spec_observations(),
    {
        self.history.push(entry);
        if self.history.len() > MAX_TASK_HISTORY {
            let ghost h = self.history@;
            let _ = self.history.remove(0);
            assert(self.history@ =~= h.subrange(h.len() - MAX_TASK_HISTORY, h.len() as int));
        }
    }

    /// Records an observation, keeping only the latest 256.
    pub fn add_observation(&mut self, observation: Observation)
        requires
            old(self).wf(),
        ensures
            final(self).wf(),
            final(self).spec_observations() == keep_last(
                old(self).spec_observations().push(observation),
                OBSERVATION_LOG_LIMIT as nat,
            ),
            final(self).spec_graph() == old(self).spec_graph(),
            final(self).spec_proposals() == old(self).spec_proposals(),
            final(self).spec_history() == old(self).spec_history(),
    {
        self.observations.push(observation);
        if self.observations.len() > OBSERVATION_LOG_LIMIT {
            let ghost h = self.observations@;
            let _ = self.observations.remove(0);
            assert(self.observations@ =~= h.subrange(h.len() - OBSERVATION_LOG_LIMIT, h.len() as int));
        }
    }

    /// The recent observations, oldest first.
    pub fn observations(&self) -> (r: &[Observation])
        ensures
            r@ == self.spec_observations(),
    {
        self.observations.as_slice()
    }

    /// The number of recent observations.
    pub fn observation_count(&self) -> (r: usize)
        ensures
            r == self.spec_observations().len(),
    {
        self.observations.len()
    }
}

impl Default for AgentStatus {
    fn default() -> (r: AgentStatus)
        ensures
            r.wf(),
            r.spec_proposals().len() == 0,
            r.spec_history().len() == 0,
            r.spec_observations().len() == 0,
    {
        AgentStatus::new()
    }
}

} // verus!
