//! The proposal generator's deterministic part: the schema and prompt it
//! gives the model, and how the model's drafts become typed proposals.
//! Asking the model is I/O, done by the caller.
use vstd::prelude::*;

use crate::agent_core::observation::Observation;
use crate::agent_core::proposal::{spec_proposal_risk_name, Proposal, ProposalRisk};
use crate::agent_core::task::TaskKind;
use crate::json::clone_opt_json;
use crate::text::{clone_opt_string, clone_strings, opt_view, spec_decimal, str_eq, strings_view, u64_to_decimal};

verus! {

/// The JSON schema the model's answer must follow: an array of proposal
/// drafts.
pub const PROPOSAL_SCHEMA: &'static str = r#"{
  "type": "array",
  "items": {
    "type": "object",
    "required": ["kind", "title", "description", "reasoning", "risk"],
    "properties": {
      "kind": { "type": "string", "enum": ["RestartService","Notify","ProposeUpdate","ProposeInstall","ProposeCleanup","ProposeSecurityScan","DeviceControl","DisplayControl","PowerControl","SecurityControl","Custom"] },
      "title": { "type": "string", "minLength": 1 },
      "description": { "type": "string", "minLength": 1 },
      "reasoning": { "type": "string", "minLength": 1 },
      "risk": { "type": "string", "enum": ["Low","Medium","High","Critical"] },
      "target": { "type": "string" },
      "arguments": { "type": "object" }
    }
  }
}"#;

/// The system prompt of the proposal generator.
pub const SYSTEM_PROMPT: &'static str = r#"You are the Aether OS autonomous agent proposal generator.

You receive a batch of system observations (sensor readings, anomaly detections, status reports).
Your job is to propose concrete actions to address them.

Rules:
- Each proposal MUST reference at least one observation id from the input as evidence.
- Risk must match the TaskKind's default floor: ProposeUpdate, ProposeInstall, ProposeSecurityScan require High; Custom requires High; others default to Low.
- Title and description must be concise and actionable.
- Reasoning must explain why this action is warranted by the evidence.
- Target and arguments are optional; use them when the TaskKind requires a specific target (e.g., service name for RestartService).

Output a JSON array of proposal objects. Do not include any text outside the JSON array."#;

/// A proposal as the model drafted it, before validation.
#[derive(Debug, Clone)]
pub struct ProposalDraft {
    /// The task kind, by name.
    pub kind: String,
    /// A short title.
    pub title: String,
    /// A longer description.
    pub description: String,
    /// Why the action is warranted.
    pub reasoning: String,
    /// The risk, by name.
    pub risk: String,
    /// What the action acts on, if anything.
    pub target: Option<String>,
    /// Structured arguments, if any.
    pub arguments: Option<serde_json::Value>,
}

/// The task kind a draft names.
pub open spec fn spec_task_kind_of(s: Seq<char>) -> Option<TaskKind> {
    if s == "RestartService"@ {
        Some(TaskKind::RestartService)
    }     else if s == "Notify"@ {
        Some(TaskKind::Notify)
    }     else if s == "ProposeUpdate"@ {
        Some(TaskKind::ProposeUpdate)
    }     else if s == "ProposeInstall"@ {
        Some(TaskKind::ProposeInstall)
    }     else if s == "ProposeCleanup"@ {
        Some(TaskKind::ProposeCleanup)
    }     else if s == "ProposeSecurityScan"@ {
        Some(TaskKind::ProposeSecurityScan)
    }     else if s == "DeviceControl"@ {
        Some(TaskKind::DeviceControl)
    }     else if s == "DisplayControl"@ {
        Some(TaskKind::DisplayControl)
    }     else if s == "PowerControl"@ {
        Some(TaskKind::PowerControl)
    }     else if s == "SecurityControl"@ {
        Some(TaskKind::SecurityControl)
    }     else if s == "Custom"@ {
        Some(TaskKind::Custom)
    } else {
        None
    }
}

/// The task kind named `s` (as the model writes it, such as
/// `RestartService`).
pub fn parse_task_kind(s: &str) -> (r: Option<TaskKind>)
    ensures
        r == spec_task_kind_of(s@),
{
    if str_eq(s, "RestartService") {
        Some(TaskKind::RestartService)
    }     else if str_eq(s, "Notify") {
        Some(TaskKind::Notify)
    }     else if str_eq(s, "ProposeUpdate") {
        Some(TaskKind::ProposeUpdate)
    }     else if str_eq(s, "ProposeInstall") {
        Some(TaskKind::ProposeInstall)
    }     else if str_eq(s, "ProposeCleanup") {
        Some(TaskKind::ProposeCleanup)
    }     else if str_eq(s, "ProposeSecurityScan") {
        Some(TaskKind::ProposeSecurityScan)
    }     else if str_eq(s, "DeviceControl") {
        Some(TaskKind::DeviceControl)
    }     else if str_eq(s, "DisplayControl") {
        Some(TaskKind::DisplayControl)
    }     else if str_eq(s, "PowerControl") {
        Some(TaskKind::PowerControl)
    }     else if str_eq(s, "SecurityControl") {
        Some(TaskKind::SecurityControl)
    }     else if str_eq(s, "Custom") {
        Some(TaskKind::Custom)
    } else {
        None
    }
}

/// The risk a draft names.
pub open spec fn spec_risk_of(s: Seq<char>) -> Option<ProposalRisk> {
    if s == "Low"@ {
        Some(ProposalRisk::Low)
    }     else if s == "Medium"@ {
        Some(ProposalRisk::Medium)
    }     else if s == "High"@ {
        Some(ProposalRisk::High)
    }     else if s == "Critical"@ {
        Some(ProposalRisk::Critical)
    } else {
        None
    }
}

/// The risk named `s` (`Low`, `Medium`, `High` or `Critical`).
pub fn parse_risk(s: &str) -> (r: Option<ProposalRisk>)
    ensures
        r == spec_risk_of(s@),
{
    if str_eq(s, "Low") {
        Some(ProposalRisk::Low)
    }     else if str_eq(s, "Medium") {
        Some(ProposalRisk::Medium)
    }     else if str_eq(s, "High") {
        Some(ProposalRisk::High)
    }     else if str_eq(s, "Critical") {
        Some(ProposalRisk::Critical)
    } else {
        None
    }
}

/// The id of the `i`-th proposal drafted at `now`: `prop-llm-<now>-<i>`.
pub open spec fn spec_draft_proposal_id(now_ms: u64, i: nat) -> Seq<char> {
    "prop-llm-"@ + spec_decimal(now_ms as nat) + "-"@ + spec_decimal(i)
}

/// Why the `i`-th draft makes no proposal, if it makes none: an unknown
/// kind, an unknown risk, or an empty title, description or reasoning.
pub open spec fn spec_draft_error(d: ProposalDraft, i: nat) -> Option<Seq<char>> {
    if spec_task_kind_of(d.kind@) is None {
        Some("unknown kind: "@ + d.kind@)
    } else if spec_risk_of(d.risk@) is None {
        Some("unknown risk: "@ + d.risk@)
    } else if d.title@.len() == 0 || d.description@.len() == 0 || d.reasoning@.len() == 0 {
        Some("invalid proposal at index "@ + spec_decimal(i))
    } else {
        None
    }
}

/// The error of the first of the first `n` drafts that makes no proposal.
pub open spec fn first_draft_error(ds: Seq<ProposalDraft>, n: int) -> Option<Seq<char>>
    decreases n,
{
    if n <= 0 {
        None
    } else {
        match first_draft_error(ds, n - 1) {
            Some(e) => Some(e),
            None => spec_draft_error(ds[n - 1], (n - 1) as nat),
        }
    }
}

/// The ids of some observations.
pub open spec fn observation_ids(obs: Seq<Observation>) -> Seq<Seq<char>> {
    obs.map_values(|o: Observation| o.id@)
}

/// The proposal `p` is the `i`-th draft `d` made at `now`, with every
/// observation as evidence.
pub open spec fn proposal_from_draft(p: Proposal, d: ProposalDraft, i: nat, now_ms: u64, evidence: Seq<Seq<char>>) -> bool {
    &&& p.id@ == spec_draft_proposal_id(now_ms, i)
    &&& Some(p.kind) == spec_task_kind_of(d.kind@)
    &&& p.title@ == d.title@
    &&& p.description@ == d.description@
    &&& p.reasoning@ == d.reasoning@
    &&& Some(p.risk) == spec_risk_of(d.risk@)
    &&& strings_view(p.evidence@) == evidence
    &&& p.timestamp_ms == now_ms
    &&& opt_view(p.target) == opt_view(d.target)
    &&& p.arguments == d.arguments
}

/// Turns the model's drafts into proposals, in order: the `i`-th gets the
/// id `prop-llm-<now>-<i>` and every observation as evidence. The first
/// draft with an unknown kind or risk, or an empty text, fails the batch.
pub fn drafts_to_proposals(drafts: Vec<ProposalDraft>, now_ms: u64, observations: &[Observation]) -> (r: Result<
    Vec<Proposal>,
    String,
>)
    ensures
        match r {
            Ok(ps) => {
                &&& first_draft_error(drafts@, drafts@.len() as int) is None
                &&& ps@.len() == drafts@.len()
                &&& forall|i: int|
                    0 <= i < ps@.len() ==> proposal_from_draft(
                        #[trigger] ps@[i],
                        drafts@[i],
                        i as nat,
                        now_ms,
                        observation_ids(observations@),
                    )
            },
            Err(e) => first_draft_error(drafts@, drafts@.len() as int) == Some(e@),
        },
{
    let mut obs_ids: Vec<String> = Vec::new();
    let mut j: usize = 0;
    while j < observations.len()
        invariant
            j <= observations@.len(),
            strings_view(obs_ids@) == observation_ids(observations@.subrange(0, j as int)),
        decreases observations@.len() - j,
    {
        let ghost prev = obs_ids@;
        let id = observations[j].id.clone();
        assert(id@ == observations@[j as int].id@);
        obs_ids.push(id);
        proof {
            assert(strings_view(obs_ids@) =~= strings_view(prev).push(id@));
            assert(observations@.subrange(0, j + 1) =~= observations@.subrange(0, j as int).push(observations@[j as int]));
            assert(strings_view(obs_ids@) =~= observation_ids(observations@.subrange(0, j + 1)));
        }
        j += 1;
    }
    proof {
        assert(observations@.subrange(0, j as int) =~= observations@);
    }
    let mut proposals: Vec<Proposal> = Vec::new();
    let mut i: usize = 0;
    while i < drafts.len()
        invariant
            i <= drafts@.len(),
            strings_view(obs_ids@) == observation_ids(observations@),
            first_draft_error(drafts@, i as int) is None,
            proposals@.len() == i,
            forall|k: int|
                0 <= k < i ==> proposal_from_draft(
                    #[trigger] proposals@[k],
                    drafts@[k],
                    k as nat,
                    now_ms,
                    observation_ids(observations@),
                ),
        decreases drafts@.len() - i,
    {
        let draft = &drafts[i];
        let kind = match parse_task_kind(draft.kind.as_str()) {
            Some(k) => k,
            None => {
                let mut e = String::from_str("unknown kind: ");
                e.append(draft.kind.as_str());
                proof {
                    lemma_first_error_stays(drafts@, i as int + 1, drafts@.len() as int);
                }
                return Err(e);
            },
        };
        let risk = match parse_risk(draft.risk.as_str()) {
            Some(r) => r,
            None => {
                let mut e = String::from_str("unknown risk: ");
                e.append(draft.risk.as_str());
                proof {
                    lemma_first_error_stays(drafts@, i as int + 1, drafts@.len() as int);
                }
                return Err(e);
            },
        };
        let mut id = String::from_str("prop-llm-");
        let now_text = u64_to_decimal(now_ms);
        id.append(now_text.as_str());
        id.append("-");
        let index_text = u64_to_decimal(i as u64);
        id.append(index_text.as_str());
        let mut proposal = match Proposal::new(
            id.as_str(),
            kind,
            draft.title.as_str(),
            draft.description.as_str(),
            draft.reasoning.as_str(),
            risk,
            now_ms,
        ) {
            Some(p) => p,
            None => {
                let mut e = String::from_str("invalid proposal at index ");
                let index_text = u64_to_decimal(i as u64);
                e.append(index_text.as_str());
                proof {
                    reveal_strlit("prop-llm-");
                    lemma_first_error_stays(drafts@, i as int + 1, drafts@.len() as int);
                }
                return Err(e);
            },
        };
        proposal.target = clone_opt_string(&draft.target);
        proposal.arguments = clone_opt_json(&draft.arguments);
        proposal.evidence = clone_strings(&obs_ids);
        proposals.push(proposal);
        i += 1;
    }
    Ok(proposals)
}

/// Once a prefix of the drafts holds an error, every longer prefix holds
/// the same first error.
proof fn lemma_first_error_stays(ds: Seq<ProposalDraft>, n: int, m: int)
    requires
        0 <= n <= m,
        first_draft_error(ds, n) is Some,
    ensures
        first_draft_error(ds, m) == first_draft_error(ds, n),
    decreases m - n,
{
    if m > n {
        lemma_first_error_stays(ds, n, m - 1);
    }
}

/// `c` in lower case, for the ASCII letters.
pub open spec fn ascii_lower(c: char) -> char {
    if 'A' <= c <= 'Z' {
        ((c as u32) + 32) as char
    } else {
        c
    }
}

/// `a` and `b` are the same text up to the case of ASCII letters.
pub open spec fn eq_ignore_ascii_case(a: Seq<char>, b: Seq<char>) -> bool {
    a.len() == b.len() && forall|i: int| 0 <= i < a.len() ==> ascii_lower(a[i]) == ascii_lower(b[i])
}

/// A draft's risk name means the risk of that name: whatever the parser
/// reads as risk `r` is `r`'s own name (`ProposalRisk::as_str`) up to
/// case, and every risk has a name the parser reads as that risk.
pub proof fn law_risk_names_round_trip(s: Seq<char>, r: ProposalRisk)
    ensures
        spec_risk_of(s) == Some(r) ==> eq_ignore_ascii_case(s, spec_proposal_risk_name(r)),
        exists|t: Seq<char>| #[trigger] spec_risk_of(t) == Some(r),
{
    reveal_strlit("Low");
    reveal_strlit("Medium");
    reveal_strlit("High");
    reveal_strlit("Critical");
    reveal_strlit("low");
    reveal_strlit("medium");
    reveal_strlit("high");
    reveal_strlit("critical");
    assert(ascii_lower('L') == 'l');
    assert(ascii_lower('M') == 'm');
    assert(ascii_lower('H') == 'h');
    assert(ascii_lower('C') == 'c');
    assert("Low"@.len() == 3 && "Medium"@.len() == 6 && "High"@.len() == 4 && "Critical"@.len() == 8);
    match r {
        ProposalRisk::Low => assert(spec_risk_of("Low"@) == Some(r)),
        ProposalRisk::Medium => assert(spec_risk_of("Medium"@) == Some(r)),
        ProposalRisk::High => assert(spec_risk_of("High"@) == Some(r)),
        ProposalRisk::Critical => assert(spec_risk_of("Critical"@) == Some(r)),
    }
}

} // verus!
