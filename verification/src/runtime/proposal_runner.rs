//! The proposal pipeline's decisions: which proposals run at once and
//! which wait for consent, how an approved proposal becomes a task and an
//! action, and how the outcome is recorded. Running the action is I/O,
//! done by the caller between preparing and finishing.
use vstd::prelude::*;

use crate::agent_core::proposal::{
    proposal_to_task, same_proposal, spec_proposal_risk_name, Proposal, ProposalError, ProposalRisk,
};
use crate::agent_core::state::{keep_last, AgentStatus, HistoryEntry, TaskStage, MAX_TASK_HISTORY};
use crate::agent_core::task::{graph_has, spec_insert_error, spec_task_risk_to_level, AgentTask, TaskId};
use crate::core_types::RiskLevel;
use crate::runtime::action::Action;
use crate::runtime::approval::{ApprovalRequest, ApprovalStatus};
use crate::runtime::errors::{spec_error_detail, spec_error_prefix, AgentError};
use crate::runtime::executor::ExecutionResult;
use crate::runtime::task_to_action::{
    plan_of, spec_task_plan, spec_task_to_action_message, task_to_action, ActionPlan, TaskToActionError,
    TaskToActionErrorView,
};
use crate::text::{opt_view, spec_decimal, to_owned_string, u64_to_decimal};
use vstd::utf8::{decode_utf8, encode_utf8, is_char_boundary};

verus! {

/// Why the pipeline could not carry a proposal through.
#[derive(Debug, Clone)]
pub enum RunnerError {
    /// No proposal has this id.
    ProposalNotFound(String),
    /// The proposal cannot be approved in its stage.
    ProposalNotApprovable { id: String, stage: String },
    /// The proposal did not become a task.
    ProposalToTaskFailed,
    /// The task did not become an action.
    TaskToAction(TaskToActionError),
    /// The executor failed.
    ExecutionFailed(String),
    /// The action needs the user's consent first.
    RequiresConsent(ApprovalRequest),
    /// The proposal failed validation.
    ValidationFailed(Vec<ProposalError>),
}

/// The message of each pipeline error.
pub open spec fn spec_runner_message(e: RunnerError) -> Seq<char> {
    match e {
        RunnerError::ProposalNotFound(id) => "proposal not found: "@ + id@,
        RunnerError::ProposalNotApprovable { id, stage } => "proposal "@ + id@ + " not approvable in stage "@
            + stage@,
        RunnerError::ProposalToTaskFailed => "proposal-to-task conversion failed"@,
        RunnerError::TaskToAction(e) => "task-to-action: "@ + spec_task_to_action_message(e),
        RunnerError::ExecutionFailed(e) => "execution failed: "@ + e@,
        RunnerError::RequiresConsent(req) => "requires consent: "@ + req.reason@,
        RunnerError::ValidationFailed(errs) => "validation failed: "@ + spec_decimal(errs@.len()) + " errors"@,
    }
}

impl RunnerError {
    /// The human-readable message.
    pub fn to_string(&self) -> (r: String)
        ensures
            r@ == spec_runner_message(*self),
    {
        match self {
            RunnerError::ProposalNotFound(id) => {
                let mut r = String::from_str("proposal not found: ");
                r.append(id.as_str());
                r
            },
            RunnerError::ProposalNotApprovable { id, stage } => {
                let mut r = String::from_str("proposal ");
                r.append(id.as_str());
                r.append(" not approvable in stage ");
                r.append(stage.as_str());
                r
            },
            RunnerError::ProposalToTaskFailed => String::from_str("proposal-to-task conversion failed"),
            RunnerError::TaskToAction(e) => {
                let mut r = String::from_str("task-to-action: ");
                let m = e.to_string();
                r.append(m.as_str());
                r
            },
            RunnerError::ExecutionFailed(e) => {
                let mut r = String::from_str("execution failed: ");
                r.append(e.as_str());
                r
            },
            RunnerError::RequiresConsent(req) => {
                let mut r = String::from_str("requires consent: ");
                r.append(req.reason.as_str());
                r
            },
            RunnerError::ValidationFailed(errs) => {
                let mut r = String::from_str("validation failed: ");
                let n = u64_to_decimal(errs.len() as u64);
                r.append(n.as_str());
                r.append(" errors");
                r
            },
        }
    }
}

/// What happened to one proposal.
#[derive(Debug)]
pub struct RunResult {
    /// The proposal.
    pub proposal_id: String,
    /// The task it became, if one was named.
    pub task_id: Option<String>,
    /// The execution, when the action ran.
    pub execution: Option<ExecutionResult>,
    /// What went wrong, if anything.
    pub error: Option<RunnerError>,
}

/// The positions, among the first `n` proposals, of those whose need for
/// consent is `consent`, in order.
pub open spec fn consent_positions(ps: Seq<Proposal>, consent: bool, n: int) -> Seq<int>
    decreases n,
{
    if n <= 0 {
        Seq::empty()
    } else {
        let rest = consent_positions(ps, consent, n - 1);
        if (ps[n - 1].risk != ProposalRisk::Low) == consent {
            rest.push(n - 1)
        } else {
            rest
        }
    }
}

/// The approval request raised for a proposal that needs consent, in a
/// session.
pub open spec fn asks_consent_for(r: ApprovalRequest, session_id: Seq<char>, p: Proposal) -> bool {
    &&& r.session_id@ == session_id
    &&& r.action_id@ == p.id@
    &&& r.action_name@ == p.title@
    &&& r.risk_level@ == spec_proposal_risk_name(p.risk)
    &&& r.reason@ == p.reasoning@
    &&& r.status == ApprovalStatus::Pending
    &&& r.resolved_at is None
}

/// The byte length of a string's UTF-8 form.
pub open spec fn byte_len(s: Seq<char>) -> nat {
    encode_utf8(s).len()
}

/// The first eight bytes of an id (all of it when shorter) end on a
/// character boundary.
pub open spec fn id_prefix_cuttable(id: Seq<char>) -> bool {
    is_char_boundary(encode_utf8(id), if byte_len(id) < 8 { byte_len(id) as int } else { 8 })
}

/// The id of the task made from a proposal at `now`:
/// `task-<now>-<first eight bytes of the proposal id>`.
pub open spec fn spec_task_id_for(proposal_id: Seq<char>, now_ms: u64) -> Seq<char> {
    let cut = if byte_len(proposal_id) < 8 { byte_len(proposal_id) as int } else { 8 };
    "task-"@ + spec_decimal(now_ms as nat) + "-"@ + decode_utf8(encode_utf8(proposal_id).subrange(0, cut))
}

/// The task `t`, under id `id`, carries out proposal `p`.
pub open spec fn task_from_proposal(t: AgentTask, p: Proposal, id: Seq<char>) -> bool {
    &&& t.id@ == id
    &&& t.kind == p.kind
    &&& t.title@ == p.title@
    &&& t.description@ == p.description@
    &&& t.depends_on@.len() == 0
    &&& spec_task_risk_to_level(t.risk) == match p.risk {
        ProposalRisk::Low => RiskLevel::Low,
        ProposalRisk::Medium => RiskLevel::Medium,
        ProposalRisk::High => RiskLevel::High,
        ProposalRisk::Critical => RiskLevel::Critical,
    }
    &&& opt_view(t.target) == opt_view(p.target)
    &&& t.arguments == p.arguments
}

/// `after` is the history `before` with one more entry: the task with id
/// `id`, ended in `stage` at `now` with note `note`, the oldest entries
/// dropped beyond the limit.
pub open spec fn recorded(
    before: Seq<HistoryEntry>,
    after: Seq<HistoryEntry>,
    id: Seq<char>,
    stage: TaskStage,
    now: u64,
    note: Seq<char>,
) -> bool {
    exists|e: HistoryEntry|
        #![trigger keep_last(before.push(e), MAX_TASK_HISTORY as nat)]
        e.task.id@ == id && e.stage == stage && e.timestamp_ms == now && opt_view(e.note) == Some(note) && after
            == keep_last(before.push(e), MAX_TASK_HISTORY as nat)
}

/// The decisions of the proposal pipeline for one session.
pub struct ProposalRunner {
    session_id: String,
}

impl ProposalRunner {
    /// The session the runner works in.
    pub closed spec fn spec_session_id(&self) -> Seq<char> {
        self.session_id@
    }

    /// A runner for the session `session_id`.
    pub fn new(session_id: &str) -> (r: ProposalRunner)
        ensures
            r.spec_session_id() == session_id@,
    {
        ProposalRunner { session_id: to_owned_string(session_id) }
    }

    /// Splits proposals into those that run at once (low risk) and an
    /// approval request for each of the others, both in the given order.
    pub fn triage_proposals(&self, proposals: &[Proposal]) -> (r: (Vec<Proposal>, Vec<ApprovalRequest>))
        ensures
            r.0@.len() == consent_positions(proposals@, false, proposals@.len() as int).len(),
            forall|k: int|
                0 <= k < r.0@.len() ==> same_proposal(
                    #[trigger] r.0@[k],
                    proposals@[consent_positions(proposals@, false, proposals@.len() as int)[k]],
                ),
            r.1@.len() == consent_positions(proposals@, true, proposals@.len() as int).len(),
            forall|k: int|
                0 <= k < r.1@.len() ==> asks_consent_for(
                    #[trigger] r.1@[k],
                    self.spec_session_id(),
                    proposals@[consent_positions(proposals@, true, proposals@.len() as int)[k]],
                ),
    {
        let mut auto: Vec<Proposal> = Vec::new();
        let mut consent: Vec<ApprovalRequest> = Vec::new();
        let mut i: usize = 0;
        while i < proposals.len()
            invariant
                i <= proposals@.len(),
                auto@.len() == consent_positions(proposals@, false, i as int).len(),
                forall|k: int|
                    0 <= k < auto@.len() ==> same_proposal(
                        #[trigger] auto@[k],
                        proposals@[consent_positions(proposals@, false, i as int)[k]],
                    ),
                consent@.len() == consent_positions(proposals@, true, i as int).len(),
                forall|k: int|
                    0 <= k < consent@.len() ==> asks_consent_for(
                        #[trigger] consent@[k],
                        self.session_id@,
                        proposals@[consent_positions(proposals@, true, i as int)[k]],
                    ),
            decreases proposals@.len() - i,
        {
            let p = &proposals[i];
            if p.requires_consent() {
                let request = ApprovalRequest::new(
                    self.session_id.as_str(),
                    p.id.as_str(),
                    p.title.as_str(),
                    p.risk.as_str(),
                    p.reasoning.as_str(),
                );
                consent.push(request);
            } else {
                auto.push(p.clone());
            }
            i += 1;
        }
        (auto, consent)
    }

    /// Turns an approved proposal into a task in the live graph and an
    /// action in the runner's session. The task is named
    /// `task-<now>-<id prefix>`. When the proposal makes no valid task,
    /// or the graph refuses it, nothing changes; when the task makes no
    /// action, it leaves the graph and is recorded as failed.
    #[verifier::rlimit(60)]
    pub fn prepare_proposal(&self, status: &mut AgentStatus, proposal: &Proposal, now_ms: u64) -> (r: Result<
        (TaskId, Action),
        RunResult,
    >)
        requires
            old(status).wf(),
            id_prefix_cuttable(proposal.id@),
        ensures
            final(status).wf(),
            final(status).spec_proposals() == old(status).spec_proposals(),
            final(status).spec_observations() == old(status).spec_observations(),
            match r {
                Ok((tid, a)) => {
                    let t = final(status).spec_graph().spec_tasks().last();
                    &&& tid@ == spec_task_id_for(proposal.id@, now_ms)
                    &&& task_from_proposal(t, *proposal, tid@)
                    &&& spec_insert_error(old(status).spec_graph().spec_tasks(), t) is None
                    &&& final(status).spec_graph().spec_tasks() == old(status).spec_graph().spec_tasks().push(t)
                    &&& final(status).spec_history() == old(status).spec_history()
                    &&& plan_of(a.variant) is Some
                    &&& spec_task_plan(self.spec_session_id(), t) == Ok::<ActionPlan, TaskToActionErrorView>(
                        plan_of(a.variant)->0,
                    )
                    &&& a.session_id@ == self.spec_session_id()
                    &&& a.reason@ == t.description@
                },
                Err(run) => {
                    &&& run.proposal_id@ == proposal.id@
                    &&& opt_view(run.task_id) == Some(spec_task_id_for(proposal.id@, now_ms))
                    &&& run.execution is None
                    &&& match run.error {
                        Some(RunnerError::ProposalToTaskFailed) => {
                            &&& final(status).spec_graph().spec_tasks() == old(status).spec_graph().spec_tasks()
                            &&& final(status).spec_history() == old(status).spec_history()
                            &&& (proposal.title@.len() == 0 || proposal.description@.len() == 0 || exists|t: AgentTask|
                                task_from_proposal(t, *proposal, spec_task_id_for(proposal.id@, now_ms))
                                    && spec_insert_error(old(status).spec_graph().spec_tasks(), t) is Some)
                        },
                        Some(RunnerError::TaskToAction(e)) => exists|t: AgentTask|
                            {
                                &&& task_from_proposal(t, *proposal, spec_task_id_for(proposal.id@, now_ms))
                                &&& spec_insert_error(old(status).spec_graph().spec_tasks(), t) is None
                                &&& spec_task_plan(self.spec_session_id(), t) == Err::<
                                    ActionPlan,
                                    TaskToActionErrorView,
                                >(e@)
                                &&& final(status).spec_graph().spec_tasks() == old(status).spec_graph().spec_tasks()
                                &&& recorded(
                                    old(status).spec_history(),
                                    final(status).spec_history(),
                                    spec_task_id_for(proposal.id@, now_ms),
                                    TaskStage::Failed,
                                    now_ms,
                                    "task_to_action failed: "@ + spec_task_to_action_message(e),
                                )
                            },
                        _ => false,
                    }
                },
            },
    {
        let tid_text = task_id_text(proposal.id.as_str(), now_ms);
        let task_id = match TaskId::new(tid_text.as_str()) {
            Some(t) => t,
            None => {
                proof {
                    reveal_strlit("task-");
                }
                assert(false);
                return Err(RunResult { proposal_id: tid_text, task_id: None, execution: None, error: None });
            },
        };
        let failed = RunResult {
            proposal_id: to_owned_string(proposal.id.as_str()),
            task_id: Some(to_owned_string(task_id.as_str())),
            execution: None,
            error: Some(RunnerError::ProposalToTaskFailed),
        };
        let task = match proposal_to_task(proposal, task_id.clone()) {
            Some(t) => t,
            None => {
                assert(task_id@.len() > 0);
                return Err(failed);
            },
        };
        let ghost t0 = task;
        assert(task_from_proposal(t0, *proposal, spec_task_id_for(proposal.id@, now_ms)));
        match status.insert_task(task) {
            Ok(()) => {},
            Err(_) => {
                return Err(failed);
            },
        }
        let ghost tasks = status.spec_graph().spec_tasks();
        let converted = match status.tasks().get(&task_id) {
            Some(t) => {
                proof {
                    let i = choose|i: int|
                        0 <= i < tasks.len() && tasks[i] == *t && t.id@ == task_id@ && forall|j: int|
                            0 <= j < i ==> tasks[j].id@ != task_id@;
                    if i != tasks.len() - 1 {
                        assert(tasks[tasks.len() - 1] == t0);
                        assert(tasks[i].id@ == tasks[tasks.len() - 1].id@);
                    }
                }
                task_to_action(self.session_id.as_str(), t)
            },
            None => {
                assert(tasks[tasks.len() - 1] == t0);
                assert(false);
                return Err(failed);
            },
        };
        match converted {
            Ok(a) => Ok((task_id, a)),
            Err(e) => {
                let mut note = String::from_str("task_to_action failed: ");
                let m = e.to_string();
                note.append(m.as_str());
                finish_task(status, &task_id, TaskStage::Failed, now_ms, note);
                proof {
                    let old_tasks = old(status).spec_graph().spec_tasks();
                    assert(tasks == old_tasks.push(t0));
                }
                Err(
                    RunResult {
                        proposal_id: to_owned_string(proposal.id.as_str()),
                        task_id: Some(to_owned_string(task_id.as_str())),
                        execution: None,
                        error: Some(RunnerError::TaskToAction(e)),
                    },
                )
            },
        }
    }

    /// Records the outcome of running a prepared proposal's action: the
    /// task ends as done when the action succeeded, as failed otherwise,
    /// with a note on the outcome.
    pub fn finish_proposal(
        &self,
        status: &mut AgentStatus,
        proposal_id: &str,
        task_id: &TaskId,
        outcome: Result<ExecutionResult, AgentError>,
        now_ms: u64,
    ) -> (r: RunResult)
        requires
            old(status).wf(),
        ensures
            final(status).wf(),
            final(status).spec_proposals() == old(status).spec_proposals(),
            final(status).spec_observations() == old(status).spec_observations(),
            r.proposal_id@ == proposal_id@,
            opt_view(r.task_id) == Some(task_id@),
            !graph_has(old(status).spec_graph().spec_tasks(), task_id@) ==> final(status).spec_history() == old(
                status,
            ).spec_history() && final(status).spec_graph().spec_tasks() == old(status).spec_graph().spec_tasks(),
            match outcome {
                Ok(res) => {
                    &&& r.execution matches Some(x) && x.success == res.success && x.duration_ms == res.duration_ms
                    &&& r.error is None
                    &&& graph_has(old(status).spec_graph().spec_tasks(), task_id@) ==> recorded(
                        old(status).spec_history(),
                        final(status).spec_history(),
                        task_id@,
                        if res.success {
                            TaskStage::Done
                        } else {
                            TaskStage::Failed
                        },
                        now_ms,
                        "action completed in "@ + spec_decimal(res.duration_ms as nat) + "ms"@,
                    )
                },
                Err(e) => {
                    let m = spec_error_prefix(e) + spec_error_detail(e);
                    &&& r.execution is None
                    &&& r.error matches Some(RunnerError::ExecutionFailed(x)) && x@ == m
                    &&& graph_has(old(status).spec_graph().spec_tasks(), task_id@) ==> recorded(
                        old(status).spec_history(),
                        final(status).spec_history(),
                        task_id@,
                        TaskStage::Failed,
                        now_ms,
                        "execution failed: "@ + m,
                    )
                },
            },
    {
        match outcome {
            Ok(res) => {
                let stage = if res.success {
                    TaskStage::Done
                } else {
                    TaskStage::Failed
                };
                let mut note = String::from_str("action completed in ");
                let d = u64_to_decimal(res.duration_ms);
                note.append(d.as_str());
                note.append("ms");
                finish_task(status, task_id, stage, now_ms, note);
                RunResult {
                    proposal_id: to_owned_string(proposal_id),
                    task_id: Some(to_owned_string(task_id.as_str())),
                    execution: Some(res),
                    error: None,
                }
            },
            Err(e) => {
                let m = e.to_string();
                let mut note = String::from_str("execution failed: ");
                note.append(m.as_str());
                finish_task(status, task_id, TaskStage::Failed, now_ms, note);
                RunResult {
                    proposal_id: to_owned_string(proposal_id),
                    task_id: Some(to_owned_string(task_id.as_str())),
                    execution: None,
                    error: Some(RunnerError::ExecutionFailed(m)),
                }
            },
        }
    }
}

/// The id text `task-<now>-<first eight bytes of the proposal id>`.
fn task_id_text(proposal_id: &str, now_ms: u64) -> (r: String)
    requires
        id_prefix_cuttable(proposal_id@),
    ensures
        r@ == spec_task_id_for(proposal_id@, now_ms),
{
    broadcast use vstd::utf8::group_utf8_lib;
    let n = proposal_id.as_bytes().len();
    let cut: usize = if n < 8 {
        n
    } else {
        8
    };
    let (head, _) = proposal_id.split_at(cut);
    assert(encode_utf8(head@) == encode_utf8(proposal_id@).subrange(0, cut as int));
    assert(head@ == decode_utf8(encode_utf8(head@)));
    let mut r = String::from_str("task-");
    let d = u64_to_decimal(now_ms);
    r.append(d.as_str());
    r.append("-");
    r.append(head);
    r
}

/// Ends a task: it leaves the live graph and enters the history with its
/// stage, time and note. Nothing changes when no task has the id.
fn finish_task(status: &mut AgentStatus, id: &TaskId, stage: TaskStage, now_ms: u64, note: String)
    requires
        old(status).wf(),
        stage == TaskStage::Done || stage == TaskStage::Failed,
    ensures
        final(status).wf(),
        final(status).spec_proposals() == old(status).spec_proposals(),
        final(status).spec_observations() == old(status).spec_observations(),
        graph_has(old(status).spec_graph().spec_tasks(), id@) ==> {
            &&& recorded(old(status).spec_history(), final(status).spec_history(), id@, stage, now_ms, note@)
            &&& exists|i: int|
                0 <= i < old(status).spec_graph().spec_tasks().len() && old(status).spec_graph().spec_tasks()[i].id@
                    == id@ && final(status).spec_graph().spec_tasks() == old(status).spec_graph().spec_tasks().remove(i)
        },
        !graph_has(old(status).spec_graph().spec_tasks(), id@) ==> final(status).spec_history() == old(
            status,
        ).spec_history() && final(status).spec_graph().spec_tasks() == old(status).spec_graph().spec_tasks(),
{
    let ghost before = status.spec_history();
    match status.remove_task(id) {
        Some(task) => {
            let entry = HistoryEntry { task, stage, timestamp_ms: now_ms, note: Some(note) };
            let ghost e = entry;
            status.record_history(entry);
            assert(keep_last(before.push(e), MAX_TASK_HISTORY as nat) == status.spec_history());
        },
        None => {},
    }
}

} // verus!
