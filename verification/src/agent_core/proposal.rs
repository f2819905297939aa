//! Proposals: what the agent wants to do, why, and the observations that
//! support it, with the validation every proposal must pass.
use vstd::prelude::*;

use crate::core_types::RiskLevel;
use crate::json::clone_opt_json;
use crate::text::{clone_opt_string, clone_strings, opt_view, strings_view};
use super::observation::Observation;
use super::task::{AgentTask, TaskId, TaskKind, TaskRisk, spec_task_risk_to_level};

verus! {

/// The risk a proposal exposes, from `Low` (least) to `Critical`.
#[derive(Debug, Clone, Copy, PartialEq, Eq, Hash, PartialOrd, Ord, Structural)]
pub enum ProposalRisk {
    Low,
    Medium,
    High,
    Critical,
}

/// The kebab-case name of each risk.
pub open spec fn spec_proposal_risk_name(r: ProposalRisk) -> Seq<char> {
    match r {
        ProposalRisk::Low => "low"@,
        ProposalRisk::Medium => "medium"@,
        ProposalRisk::High => "high"@,
        ProposalRisk::Critical => "critical"@,
    }
}

/// The rank of a risk in the order `Low < Medium < High < Critical`.
pub open spec fn proposal_risk_rank(r: ProposalRisk) -> int {
    match r {
        ProposalRisk::Low => 0,
        ProposalRisk::Medium => 1,
        ProposalRisk::High => 2,
        ProposalRisk::Critical => 3,
    }
}

fn proposal_risk_rank_exec(r: ProposalRisk) -> (n: u8)
    ensures
        n == proposal_risk_rank(r),
{
    match r {
        ProposalRisk::Low => 0,
        ProposalRisk::Medium => 1,
        ProposalRisk::High => 2,
        ProposalRisk::Critical => 3,
    }
}

impl ProposalRisk {
    /// The canonical kebab-case name.
    pub fn as_str(&self) -> (r: &'static str)
        ensures
            r@ == spec_proposal_risk_name(*self),
    {
        match self {
            ProposalRisk::Low => "low",
            ProposalRisk::Medium => "medium",
            ProposalRisk::High => "high",
            ProposalRisk::Critical => "critical",
        }
    }

    /// The core risk level of the same name.
    pub fn to_risk_level(&self) -> (r: RiskLevel)
        ensures
            r == match *self {
                ProposalRisk::Low => RiskLevel::Low,
                ProposalRisk::Medium => RiskLevel::Medium,
                ProposalRisk::High => RiskLevel::High,
                ProposalRisk::Critical => RiskLevel::Critical,
            },
    {
        match self {
            ProposalRisk::Low => RiskLevel::Low,
            ProposalRisk::Medium => RiskLevel::Medium,
            ProposalRisk::High => RiskLevel::High,
            ProposalRisk::Critical => RiskLevel::Critical,
        }
    }

    /// Every risk above `Low` requires explicit user consent.
    pub fn requires_consent(&self) -> (r: bool)
        ensures
            r == (*self != ProposalRisk::Low),
    {
        !matches!(self, ProposalRisk::Low)
    }
}

/// A proposal identifier: any non-empty string.
#[derive(Debug, Hash, PartialOrd, Ord)]
pub struct ProposalId(String);

impl View for ProposalId {
    type V = Seq<char>;

    closed spec fn view(&self) -> Seq<char> {
        self.0@
    }
}

impl ProposalId {
    /// A `ProposalId` for a non-empty string; `None` for the empty string.
    pub fn new(value: &str) -> (r: Option<ProposalId>)
        ensures
            r is Some <==> value@.len() > 0,
            r matches Some(id) ==> id@ == value@,
    {
        if value.is_empty() {
            return None;
        }
        Some(ProposalId(value.to_string()))
    }

    /// The inner string.
    pub fn as_str(&self) -> (r: &str)
        ensures
            r@ == self@,
    {
        self.0.as_str()
    }
}

impl Clone for ProposalId {
    fn clone(&self) -> (r: Self)
        ensures
            r@ == self@,
    {
        ProposalId(self.0.clone())
    }
}

impl PartialEq for ProposalId {
    fn eq(&self, other: &Self) -> (r: bool) {
        self.0 == other.0
    }
}

impl vstd::std_specs::cmp::PartialEqSpecImpl for ProposalId {
    open spec fn obeys_eq_spec() -> bool {
        true
    }

    open spec fn eq_spec(&self, other: &ProposalId) -> bool {
        self@ == other@
    }
}

impl Eq for ProposalId {}

/// A proposal: the action, its risk, the reasoning, and the ids of the
/// observations that support it.
#[derive(Debug, PartialEq, Eq)]
pub struct Proposal {
    pub id: ProposalId,
    /// The kind of action proposed.
    pub kind: TaskKind,
    /// A short summary.
    pub title: String,
    /// A longer description.
    pub description: String,
    /// The risk the proposal exposes.
    pub risk: ProposalRisk,
    /// The reasoning offered for the proposal.
    pub reasoning: String,
    /// Ids of the supporting observations.
    pub evidence: Vec<String>,
    /// Creation timestamp.
    pub timestamp_ms: u64,
    /// Optional target id.
    pub target: Option<String>,
    /// Optional structured arguments.
    pub arguments: Option<serde_json::Value>,
}

/// Two proposals agree on every field (strings by content).
pub open spec fn same_proposal(a: Proposal, b: Proposal) -> bool {
    &&& a.id@ == b.id@
    &&& a.kind == b.kind
    &&& a.title@ == b.title@
    &&& a.description@ == b.description@
    &&& a.risk == b.risk
    &&& a.reasoning@ == b.reasoning@
    &&& strings_view(a.evidence@) == strings_view(b.evidence@)
    &&& a.timestamp_ms == b.timestamp_ms
    &&& opt_view(a.target) == opt_view(b.target)
    &&& a.arguments == b.arguments
}

impl Clone for Proposal {
    fn clone(&self) -> (r: Self)
        ensures
            same_proposal(r, *self),
    {
        Proposal {
            id: self.id.clone(),
            kind: self.kind,
            title: self.title.clone(),
            description: self.description.clone(),
            risk: self.risk,
            reasoning: self.reasoning.clone(),
            evidence: clone_strings(&self.evidence),
            timestamp_ms: self.timestamp_ms,
            target: clone_opt_string(&self.target),
            arguments: clone_opt_json(&self.arguments),
        }
    }
}

impl Proposal {
    /// A new proposal; `None` when `id`, `title`, `description` or
    /// `reasoning` is empty.
    pub fn new(
        id: &str,
        kind: TaskKind,
        title: &str,
        description: &str,
        reasoning: &str,
        risk: ProposalRisk,
        timestamp_ms: u64,
    ) -> (r: Option<Proposal>)
        ensures
            r is Some <==> (id@.len() > 0 && title@.len() > 0 && description@.len() > 0
                && reasoning@.len() > 0),
            r matches Some(p) ==> {
                &&& p.id@ == id@
                &&& p.kind == kind
                &&& p.title@ == title@
                &&& p.description@ == description@
                &&& p.reasoning@ == reasoning@
                &&& p.risk == risk
                &&& p.evidence@.len() == 0
                &&& p.timestamp_ms == timestamp_ms
                &&& p.target is None
                &&& p.arguments is None
            },
    {
        let pid = match ProposalId::new(id) {
            Some(p) => p,
            None => return None,
        };
        if title.is_empty() || description.is_empty() || reasoning.is_empty() {
            return None;
        }
        Some(
            Proposal {
                id: pid,
                kind,
                title: title.to_string(),
                description: description.to_string(),
                risk,
                reasoning: reasoning.to_string(),
                evidence: Vec::new(),
                timestamp_ms,
                target: None,
                arguments: None,
            },
        )
    }

    /// Appends the ids of supporting observations.
    pub fn with_evidence(self, ids: Vec<String>) -> (r: Proposal)
        ensures
            r.evidence@ == self.evidence@ + ids@,
            r.id == self.id,
            r.kind == self.kind,
            r.title == self.title,
            r.description == self.description,
            r.risk == self.risk,
            r.reasoning == self.reasoning,
            r.timestamp_ms == self.timestamp_ms,
            r.target == self.target,
            r.arguments == self.arguments,
    {
        let mut s = self;
        let mut ids = ids;
        s.evidence.append(&mut ids);
        s
    }

    /// Attaches a target id.
    pub fn with_target(self, target: &str) -> (r: Proposal)
        ensures
            r.target matches Some(t) && t@ == target@,
            r.id == self.id,
            r.kind == self.kind,
            r.title == self.title,
            r.description == self.description,
            r.risk == self.risk,
            r.reasoning == self.reasoning,
            r.evidence == self.evidence,
            r.timestamp_ms == self.timestamp_ms,
            r.arguments == self.arguments,
    {
        let mut s = self;
        s.target = Some(target.to_string());
        s
    }

    /// Attaches structured arguments.
    pub fn with_arguments(self, args: serde_json::Value) -> (r: Proposal)
        ensures
            r.arguments == Some(args),
            r.id == self.id,
            r.kind == self.kind,
            r.title == self.title,
            r.description == self.description,
            r.risk == self.risk,
            r.reasoning == self.reasoning,
            r.evidence == self.evidence,
            r.timestamp_ms == self.timestamp_ms,
            r.target == self.target,
    {
        let mut s = self;
        s.arguments = Some(args);
        s
    }

    /// Whether the proposal requires explicit user consent.
    pub fn requires_consent(&self) -> (r: bool)
        ensures
            r == (self.risk != ProposalRisk::Low),
    {
        self.risk.requires_consent()
    }
}

/// Reasons a proposal is invalid.
#[derive(Debug, Clone, PartialEq, Eq)]
pub enum ProposalError {
    /// The proposal's id is empty.
    EmptyId,
    /// The title, description or reasoning is empty.
    IncompleteDescription,
    /// An evidence id names no observation in the supplied list.
    UnknownEvidence { proposal: String, missing: String },
    /// The risk is below the minimum for the proposal's kind.
    RiskTooLowForKind { kind: TaskKind, risk: ProposalRisk },
}

/// `ProposalError` with its strings as character sequences.
pub enum ProposalErrorView {
    EmptyId,
    IncompleteDescription,
    UnknownEvidence { proposal: Seq<char>, missing: Seq<char> },
    RiskTooLowForKind { kind: TaskKind, risk: ProposalRisk },
}

impl View for ProposalError {
    type V = ProposalErrorView;

    open spec fn view(&self) -> ProposalErrorView {
        match self {
            ProposalError::EmptyId => ProposalErrorView::EmptyId,
            ProposalError::IncompleteDescription => ProposalErrorView::IncompleteDescription,
            ProposalError::UnknownEvidence { proposal, missing } => ProposalErrorView::UnknownEvidence {
                proposal: proposal@,
                missing: missing@,
            },
            ProposalError::RiskTooLowForKind { kind, risk } => ProposalErrorView::RiskTooLowForKind {
                kind: *kind,
                risk: *risk,
            },
        }
    }
}

/// The least risk a proposal of each kind may carry: notifications `Low`;
/// restarts, clean-ups and scans `Medium`; updates, installs, device,
/// display, power and security control, and custom work `High`.
pub open spec fn spec_min_risk(k: TaskKind) -> ProposalRisk {
    match k {
        TaskKind::Notify => ProposalRisk::Low,
        TaskKind::RestartService | TaskKind::ProposeCleanup | TaskKind::ProposeSecurityScan => ProposalRisk::Medium,
        TaskKind::ProposeUpdate | TaskKind::ProposeInstall | TaskKind::DeviceControl | TaskKind::DisplayControl
        | TaskKind::PowerControl | TaskKind::SecurityControl | TaskKind::Custom => ProposalRisk::High,
    }
}

/// Some observation in `obs` has the id `id`.
pub open spec fn observed(obs: Seq<Observation>, id: Seq<char>) -> bool {
    exists|j: int| 0 <= j < obs.len() && obs[j].id@ == id
}

/// `k` is the first evidence id of `p` that names no observation in `obs`.
pub open spec fn is_first_unknown(p: Proposal, obs: Seq<Observation>, k: int) -> bool {
    &&& 0 <= k < p.evidence@.len()
    &&& !observed(obs, p.evidence@[k]@)
    &&& forall|m: int| 0 <= m < k ==> observed(obs, p.evidence@[m]@)
}

/// The result of validating a proposal: the first failing check among
/// the id, the descriptions, the evidence, and the risk floor.
pub open spec fn spec_validate_proposal(p: Proposal, obs: Seq<Observation>) -> Result<(), ProposalErrorView> {
    if p.id@.len() == 0 {
        Err(ProposalErrorView::EmptyId)
    } else if p.title@.len() == 0 || p.description@.len() == 0 || p.reasoning@.len() == 0 {
        Err(ProposalErrorView::IncompleteDescription)
    } else if exists|k: int| is_first_unknown(p, obs, k) {
        Err(
            ProposalErrorView::UnknownEvidence {
                proposal: p.id@,
                missing: p.evidence@[choose|k: int| is_first_unknown(p, obs, k)]@,
            },
        )
    } else if proposal_risk_rank(p.risk) < proposal_risk_rank(spec_min_risk(p.kind)) {
        Err(ProposalErrorView::RiskTooLowForKind { kind: p.kind, risk: p.risk })
    } else {
        Ok(())
    }
}

/// The view of a validation result.
pub open spec fn result_view(r: Result<(), ProposalError>) -> Result<(), ProposalErrorView> {
    match r {
        Ok(()) => Ok(()),
        Err(e) => Err(e@),
    }
}

fn is_observed(obs: &[Observation], id: &String) -> (r: bool)
    ensures
        r == observed(obs@, id@),
{
    let mut j: usize = 0;
    while j < obs.len()
        invariant
            j <= obs@.len(),
            forall|m: int| 0 <= m < j ==> obs@[m].id@ != id@,
        decreases obs@.len() - j,
    {
        if obs[j].id == *id {
            return true;
        }
        j += 1;
    }
    false
}

/// Validates a proposal against the observation list.
pub fn validate_proposal(proposal: &Proposal, observations: &[Observation]) -> (r: Result<(), ProposalError>)
    ensures
        result_view(r) == spec_validate_proposal(*proposal, observations@),
{
    if proposal.id.as_str().is_empty() {
        return Err(ProposalError::EmptyId);
    }
    if proposal.title.as_str().is_empty() || proposal.description.as_str().is_empty()
        || proposal.reasoning.as_str().is_empty() {
        return Err(ProposalError::IncompleteDescription);
    }
    let mut k: usize = 0;
    while k < proposal.evidence.len()
        invariant
            k <= proposal.evidence@.len(),
            proposal.id@.len() > 0,
            proposal.title@.len() > 0,
            proposal.description@.len() > 0,
            proposal.reasoning@.len() > 0,
            forall|m: int| 0 <= m < k ==> observed(observations@, proposal.evidence@[m]@),
        decreases proposal.evidence@.len() - k,
    {
        if !is_observed(observations, &proposal.evidence[k]) {
            let pid = proposal.id.as_str().to_string();
            let missing = proposal.evidence[k].clone();
            proof {
                assert(is_first_unknown(*proposal, observations@, k as int));
                let c = choose|c: int| is_first_unknown(*proposal, observations@, c);
                if c < k {
                    assert(observed(observations@, proposal.evidence@[c]@));
                } else if c > k {
                    assert(observed(observations@, proposal.evidence@[k as int]@));
                }
                assert(c == k);
                assert(missing@ == proposal.evidence@[k as int]@);
                assert(pid@ == proposal.id@);
                assert(proposal.id@.len() > 0);
                assert(exists|c: int| is_first_unknown(*proposal, observations@, c));
                assert(spec_validate_proposal(*proposal, observations@) == Err::<(), ProposalErrorView>(
                    ProposalErrorView::UnknownEvidence { proposal: pid@, missing: missing@ }));
            }
            return Err(ProposalError::UnknownEvidence { proposal: pid, missing });
        }
        k += 1;
    }
    let min_risk = match proposal.kind {
        TaskKind::Notify => ProposalRisk::Low,
        TaskKind::RestartService | TaskKind::ProposeCleanup | TaskKind::ProposeSecurityScan => ProposalRisk::Medium,
        TaskKind::ProposeUpdate | TaskKind::ProposeInstall | TaskKind::DeviceControl | TaskKind::DisplayControl
        | TaskKind::PowerControl | TaskKind::SecurityControl | TaskKind::Custom => ProposalRisk::High,
    };
    if proposal_risk_rank_exec(proposal.risk) < proposal_risk_rank_exec(min_risk) {
        return Err(ProposalError::RiskTooLowForKind { kind: proposal.kind, risk: proposal.risk });
    }
    Ok(())
}

/// The drafts of `ds` that pass validation, in order.
pub open spec fn accepted_drafts(ds: Seq<Proposal>, obs: Seq<Observation>) -> Seq<Proposal>
    decreases ds.len(),
{
    if ds.len() == 0 {
        Seq::empty()
    } else {
        let rest = accepted_drafts(ds.drop_last(), obs);
        if spec_validate_proposal(ds.last(), obs) is Ok {
            rest.push(ds.last())
        } else {
            rest
        }
    }
}

/// The validation errors of the drafts of `ds` that fail, in order.
pub open spec fn rejected_drafts(ds: Seq<Proposal>, obs: Seq<Observation>) -> Seq<ProposalErrorView>
    decreases ds.len(),
{
    if ds.len() == 0 {
        Seq::empty()
    } else {
        let rest = rejected_drafts(ds.drop_last(), obs);
        match spec_validate_proposal(ds.last(), obs) {
            Ok(()) => rest,
            Err(e) => rest.push(e),
        }
    }
}

/// Validates a batch of drafts: returns copies of those that pass, in
/// order, and the errors of those that fail, in order.
pub fn propose_from_observations(drafts: &[Proposal], observations: &[Observation]) -> (r: (
    Vec<Proposal>,
    Vec<ProposalError>,
))
    ensures
        r.0@.len() == accepted_drafts(drafts@, observations@).len(),
        forall|i: int|
            0 <= i < r.0@.len() ==> same_proposal(r.0@[i], accepted_drafts(drafts@, observations@)[i]),
        r.1@.map_values(|e: ProposalError| e@) == rejected_drafts(drafts@, observations@),
        r.0@.len() + r.1@.len() == drafts@.len(),
{
    let mut accepted: Vec<Proposal> = Vec::new();
    let mut rejected: Vec<ProposalError> = Vec::new();
    let mut i: usize = 0;
    while i < drafts.len()
        invariant
            i <= drafts@.len(),
            accepted@.len() == accepted_drafts(drafts@.subrange(0, i as int), observations@).len(),
            forall|k: int|
                0 <= k < accepted@.len() ==> same_proposal(
                    accepted@[k],
                    accepted_drafts(drafts@.subrange(0, i as int), observations@)[k],
                ),
            rejected@.map_values(|e: ProposalError| e@) == rejected_drafts(
                drafts@.subrange(0, i as int),
                observations@,
            ),
            accepted@.len() + rejected@.len() == i,
        decreases drafts@.len() - i,
    {
        let ghost s1 = drafts@.subrange(0, i + 1);
        proof {
            assert(s1.drop_last() =~= drafts@.subrange(0, i as int));
            assert(s1.last() == drafts@[i as int]);
        }
        match validate_proposal(&drafts[i], observations) {
            Ok(()) => {
                accepted.push(drafts[i].clone());
            },
            Err(e) => {
                let ghost old_rej = rejected@;
                rejected.push(e);
                proof {
                    assert(rejected@.map_values(|e: ProposalError| e@) =~= old_rej.map_values(
                        |e: ProposalError| e@,
                    ).push(e@));
                }
            },
        }
        i += 1;
    }
    proof {
        assert(drafts@.subrange(0, drafts@.len() as int) =~= drafts@);
    }
    (accepted, rejected)
}

/// A proposal whose evidence is all observed, whose descriptions are
/// present, and whose risk meets its kind's floor is valid; and no `Low`
/// risk proposal of a kind that needs consent is ever valid.
pub proof fn law_risk_floor(p: Proposal, obs: Seq<Observation>)
    ensures
        spec_validate_proposal(p, obs) is Ok ==> proposal_risk_rank(p.risk) >= proposal_risk_rank(
            spec_min_risk(p.kind),
        ),
        spec_validate_proposal(p, obs) is Ok && p.kind != TaskKind::Notify ==> p.risk
            != ProposalRisk::Low,
{
}

/// A valid proposal cites only observed evidence.
pub proof fn law_valid_proposal_evidence_is_observed(p: Proposal, obs: Seq<Observation>, k: int)
    requires
        spec_validate_proposal(p, obs) is Ok,
        0 <= k < p.evidence@.len(),
    ensures
        observed(obs, p.evidence@[k]@),
    decreases k,
{
    if !observed(obs, p.evidence@[k]@) {
        if forall|m: int| 0 <= m < k ==> observed(obs, p.evidence@[m]@) {
            assert(is_first_unknown(p, obs, k));
        } else {
            let m = choose|m: int| 0 <= m < k && !observed(obs, p.evidence@[m]@);
            law_valid_proposal_evidence_is_observed(p, obs, m);
        }
    }
}

/// Makes the task that carries out an accepted proposal: its kind, title
/// and description, risk, target and arguments are the proposal's; `None`
/// when the task would be invalid (an empty title or description).
pub fn proposal_to_task(proposal: &Proposal, task_id: TaskId) -> (r: Option<AgentTask>)
    ensures
        r is Some <==> task_id@.len() > 0 && proposal.title@.len() > 0 && proposal.description@.len() > 0,
        r matches Some(t) ==> {
            &&& t.id@ == task_id@
            &&& t.kind == proposal.kind
            &&& t.title@ == proposal.title@
            &&& t.description@ == proposal.description@
            &&& t.depends_on@.len() == 0
            &&& spec_task_risk_to_level(t.risk) == match proposal.risk {
                ProposalRisk::Low => RiskLevel::Low,
                ProposalRisk::Medium => RiskLevel::Medium,
                ProposalRisk::High => RiskLevel::High,
                ProposalRisk::Critical => RiskLevel::Critical,
            }
            &&& opt_view(t.target) == opt_view(proposal.target)
            &&& t.arguments == proposal.arguments
        },
{
    let mut t = match AgentTask::new(task_id.as_str(), proposal.kind, proposal.title.as_str(), proposal.description.as_str()) {
        Some(t) => t,
        None => {
            return None;
        },
    };
    t.risk = TaskRisk::from_risk_level(proposal.risk.to_risk_level());
    match &proposal.target {
        Some(target) => {
            t = t.with_target(target.as_str());
        },
        None => {},
    }
    match &proposal.arguments {
        Some(args) => {
            t = t.with_arguments(args.clone());
        },
        None => {},
    }
    Some(t)
}

} // verus!
