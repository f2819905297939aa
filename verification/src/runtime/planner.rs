//! The planner: ordered plans of action steps, their estimated risk and
//! whether they need approval, and the check that no step depends on a
//! later one.
use vstd::prelude::*;

use crate::ids::{random_uuid, uuid_string, uuid_text};
use crate::runtime::action::{spec_action_name, Action, ActionRisk};
use crate::runtime::clock::unix_time_ms;
use crate::runtime::recovery::RecoveryPolicy;
use crate::text::{clone_strings, push_decimal, seq_lt, spec_decimal, str_eq, str_lt, strings_view, to_owned_string};

verus! {

/// A unique plan identifier.
#[derive(Debug, Clone, Copy, PartialEq, Eq, Hash)]
pub struct PlanId(uuid::Uuid);

impl PlanId {
    /// A fresh random identifier.
    pub fn new() -> (r: PlanId) {
        PlanId(random_uuid())
    }

    /// The identifier's text.
    pub closed spec fn spec_text(&self) -> Seq<char> {
        uuid_string(self.0)
    }

    /// The identifier in the hyphenated UUID format.
    pub fn to_string(&self) -> (r: String)
        ensures
            r@ == self.spec_text(),
    {
        uuid_text(&self.0)
    }
}

impl Default for PlanId {
    fn default() -> (r: PlanId) {
        PlanId::new()
    }
}

/// One step of a plan.
#[derive(Debug, Clone)]
pub struct PlanStep {
    /// The step's position in its plan.
    pub step_index: u32,
    /// The action the step runs.
    pub action_name: String,
    /// The action's parameters.
    pub parameters: serde_json::Value,
    /// The indices of the steps it waits for.
    pub depends_on: Vec<u32>,
    /// The capabilities it needs.
    pub required_capabilities: Vec<String>,
    /// Its risk, by name (`low`, `medium`, `high`, `critical`).
    pub risk_level: String,
    /// Whether the plan may go on without it.
    pub optional: bool,
    /// How it recovers from a failure.
    pub recovery: RecoveryPolicy,
}

impl PlanStep {
    /// The same step with another recovery policy.
    pub fn with_recovery(self, recovery: RecoveryPolicy) -> (r: PlanStep)
        ensures
            r == (PlanStep { recovery, ..self }),
    {
        let mut r = self;
        r.recovery = recovery;
        r
    }
}

/// The greatest of the steps' risk names in the order of strings, or
/// `None` for no steps: the names are compared as text, so `low` and
/// `medium` rank above `critical` and `high`.
pub open spec fn spec_max_risk(steps: Seq<PlanStep>) -> Option<Seq<char>>
    decreases steps.len(),
{
    if steps.len() == 0 {
        None
    } else {
        let r = steps.last().risk_level@;
        match spec_max_risk(steps.drop_last()) {
            None => Some(r),
            Some(m) => if seq_lt(r, m) {
                Some(m)
            } else {
                Some(r)
            },
        }
    }
}

/// Whether a plan whose greatest risk name is `risk` needs approval: the
/// name is `high` or `critical`.
pub open spec fn spec_needs_approval(risk: Seq<char>) -> bool {
    risk == "high"@ || risk == "critical"@
}

/// A plan of ordered steps.
#[derive(Debug, Clone)]
pub struct Plan {
    /// The plan's identifier.
    pub id: PlanId,
    /// The session it belongs to.
    pub session_id: String,
    /// What it is for.
    pub intent_summary: String,
    /// Its steps, in order.
    pub steps: Vec<PlanStep>,
    /// Its estimated risk, by name.
    pub estimated_risk: String,
    /// Whether it needs the user's approval.
    pub requires_approval: bool,
    /// Milliseconds since the Unix epoch at its creation.
    pub created_at: u64,
    /// How often the whole plan may be retried.
    pub max_plan_retries: u32,
}

/// A plan with no step as made at `now`: low estimated risk, no approval
/// needed, no plan-level retry.
pub open spec fn is_fresh_plan(p: Plan, session_id: Seq<char>, intent_summary: Seq<char>, now: u64) -> bool {
    &&& p.session_id@ == session_id
    &&& p.intent_summary@ == intent_summary
    &&& p.steps@.len() == 0
    &&& p.estimated_risk@ == "low"@
    &&& !p.requires_approval
    &&& p.created_at == now
    &&& p.max_plan_retries == 0
}

/// The plan after adding steps to `before`: the steps follow the old
/// ones, and, once there is a step, the estimated risk is the greatest
/// risk name and approval is needed when that is `high` or `critical`.
pub open spec fn plan_after_steps(before: Plan, after: Plan, added: Seq<PlanStep>) -> bool {
    &&& after.steps@ == before.steps@ + added
    &&& after.id == before.id
    &&& after.session_id == before.session_id
    &&& after.intent_summary == before.intent_summary
    &&& after.created_at == before.created_at
    &&& after.max_plan_retries == before.max_plan_retries
    &&& match spec_max_risk(after.steps@) {
        Some(r) => after.estimated_risk@ == r && after.requires_approval == spec_needs_approval(r),
        None => after.estimated_risk == before.estimated_risk && after.requires_approval == before.requires_approval,
    }
}

/// The first step, in order, that depends on a step at or after itself,
/// with the first such dependency: `(step index, dependency)`.
pub open spec fn spec_forward_dependency(steps: Seq<PlanStep>) -> Option<(u32, u32)>
    decreases steps.len(),
{
    if steps.len() == 0 {
        None
    } else {
        match first_late_dependency(steps[0].depends_on@, steps[0].step_index) {
            Some(d) => Some((steps[0].step_index, d)),
            None => spec_forward_dependency(steps.drop_first()),
        }
    }
}

/// The first dependency that is not below `index`.
pub open spec fn first_late_dependency(deps: Seq<u32>, index: u32) -> Option<u32>
    decreases deps.len(),
{
    if deps.len() == 0 {
        None
    } else if deps[0] >= index {
        Some(deps[0])
    } else {
        first_late_dependency(deps.drop_first(), index)
    }
}

/// The message of a forward dependency.
pub open spec fn forward_dependency_message(step: u32, dep: u32) -> Seq<char> {
    "Step "@ + spec_decimal(step as nat) + " depends on future step "@ + spec_decimal(dep as nat)
}

proof fn lemma_first_late_dependency(deps: Seq<u32>, index: u32, i: int)
    requires
        0 <= i <= deps.len(),
        forall|j: int| 0 <= j < i ==> deps[j] < index,
    ensures
        first_late_dependency(deps, index) == first_late_dependency(deps.subrange(i, deps.len() as int), index),
    decreases i,
{
    if i > 0 {
        lemma_first_late_dependency(deps.drop_first(), index, i - 1);
        assert(deps.drop_first().subrange(i - 1, deps.drop_first().len() as int) =~= deps.subrange(
            i,
            deps.len() as int,
        ));
    } else {
        assert(deps.subrange(0, deps.len() as int) =~= deps);
    }
}

proof fn lemma_forward_dependency(steps: Seq<PlanStep>, i: int)
    requires
        0 <= i <= steps.len(),
        forall|j: int| 0 <= j < i ==> first_late_dependency(#[trigger] steps[j].depends_on@, steps[j].step_index) is None,
    ensures
        spec_forward_dependency(steps) == spec_forward_dependency(steps.subrange(i, steps.len() as int)),
    decreases i,
{
    if i > 0 {
        assert(first_late_dependency(steps[0].depends_on@, steps[0].step_index) is None);
        assert forall|j: int| 0 <= j < i - 1 implies first_late_dependency(
            #[trigger] steps.drop_first()[j].depends_on@,
            steps.drop_first()[j].step_index,
        ) is None by {
            assert(steps.drop_first()[j] == steps[j + 1]);
        }
        lemma_forward_dependency(steps.drop_first(), i - 1);
        assert(steps.drop_first().subrange(i - 1, steps.drop_first().len() as int) =~= steps.subrange(
            i,
            steps.len() as int,
        ));
    } else {
        assert(steps.subrange(0, steps.len() as int) =~= steps);
    }
}

impl Plan {
    /// A plan with no step made at `now`.
    pub fn new_at(now: u64, session_id: &str, intent_summary: &str) -> (r: Plan)
        ensures
            is_fresh_plan(r, session_id@, intent_summary@, now),
    {
        Plan {
            id: PlanId::new(),
            session_id: to_owned_string(session_id),
            intent_summary: to_owned_string(intent_summary),
            steps: Vec::new(),
            estimated_risk: String::from_str("low"),
            requires_approval: false,
            created_at: now,
            max_plan_retries: 0,
        }
    }

    /// A plan with no step made now, by the system clock.
    pub fn new(session_id: &str, intent_summary: &str) -> (r: Plan)
        ensures
            exists|now: u64| is_fresh_plan(r, session_id@, intent_summary@, now),
    {
        Plan::new_at(unix_time_ms(), session_id, intent_summary)
    }

    /// Adds a step at the end, and estimates the risk anew.
    pub fn add_step(&mut self, step: PlanStep)
        ensures
            plan_after_steps(*old(self), *final(self), seq![step]),
    {
        let ghost before = self.steps@;
        self.steps.push(step);
        self.recalculate_risk();
        assert(before + seq![step] =~= before.push(step));
    }

    /// Sets the estimated risk to the greatest risk name of the steps,
    /// and approval to whether that is `high` or `critical`; a plan with
    /// no step keeps both.
    fn recalculate_risk(&mut self)
        ensures
            plan_after_steps(*old(self), *final(self), Seq::empty()),
    {
        let n = self.steps.len();
        if n == 0 {
            assert(self.steps@ + Seq::<PlanStep>::empty() =~= self.steps@);
            return;
        }
        let mut best: usize = 0;
        let mut i: usize = 1;
        assert(self.steps@.take(1).drop_last() =~= Seq::<PlanStep>::empty());
        assert(self.steps@.take(1).last() == self.steps@[0]);
        assert(spec_max_risk(Seq::<PlanStep>::empty()) is None);
        while i < n
            invariant
                1 <= i <= n,
                n == self.steps@.len(),
                best < i,
                spec_max_risk(self.steps@.take(i as int)) == Some(self.steps@[best as int].risk_level@),
            decreases n - i,
        {
            assert(self.steps@.take(i + 1).drop_last() =~= self.steps@.take(i as int));
            if !str_lt(self.steps[i].risk_level.as_str(), self.steps[best].risk_level.as_str()) {
                best = i;
            }
            i += 1;
        }
        assert(self.steps@.take(n as int) =~= self.steps@);
        let r = self.steps[best].risk_level.clone();
        let approval = str_eq(r.as_str(), "high") || str_eq(r.as_str(), "critical");
        self.requires_approval = approval;
        self.estimated_risk = r;
        assert(self.steps@ + Seq::<PlanStep>::empty() =~= self.steps@);
    }

    /// Whether the plan has no step.
    pub fn is_empty(&self) -> (r: bool)
        ensures
            r == (self.steps@.len() == 0),
    {
        self.steps.len() == 0
    }

    /// The number of steps.
    pub fn step_count(&self) -> (r: usize)
        ensures
            r == self.steps@.len(),
    {
        self.steps.len()
    }

    /// Checks that no step depends on itself or a later step; the first
    /// such dependency, in step order, is the error.
    pub fn validate(&self) -> (r: Result<(), String>)
        ensures
            match spec_forward_dependency(self.steps@) {
                None => r is Ok,
                Some((s, d)) => r matches Err(m) && m@ == forward_dependency_message(s, d),
            },
    {
        let mut i: usize = 0;
        while i < self.steps.len()
            invariant
                i <= self.steps@.len(),
                forall|j: int|
                    0 <= j < i ==> first_late_dependency(
                        #[trigger] self.steps@[j].depends_on@,
                        self.steps@[j].step_index,
                    ) is None,
            decreases self.steps@.len() - i,
        {
            let step = &self.steps[i];
            let mut k: usize = 0;
            while k < step.depends_on.len()
                invariant
                    i < self.steps@.len(),
                    *step == self.steps@[i as int],
                    forall|j: int|
                        0 <= j < i ==> first_late_dependency(
                            #[trigger] self.steps@[j].depends_on@,
                            self.steps@[j].step_index,
                        ) is None,
                    k <= step.depends_on@.len(),
                    forall|j: int| 0 <= j < k ==> step.depends_on@[j] < step.step_index,
                decreases step.depends_on@.len() - k,
            {
                let dep = step.depends_on[k];
                if dep >= step.step_index {
                    proof {
                        lemma_forward_dependency(self.steps@, i as int);
                        lemma_first_late_dependency(step.depends_on@, step.step_index, k as int);
                        let rest = self.steps@.subrange(i as int, self.steps@.len() as int);
                        assert(rest[0] == *step);
                    }
                    let mut m = String::from_str("Step ");
                    push_decimal(&mut m, step.step_index as u64);
                    m.append(" depends on future step ");
                    push_decimal(&mut m, dep as u64);
                    return Err(m);
                }
                k += 1;
            }
            proof {
                lemma_first_late_dependency(step.depends_on@, step.step_index, k as int);
            }
            i += 1;
        }
        proof {
            lemma_forward_dependency(self.steps@, self.steps@.len() as int);
        }
        Ok(())
    }
}

/// The single step of a one-step plan.
pub open spec fn is_single_step(
    step: PlanStep,
    action_name: Seq<char>,
    params: serde_json::Value,
    capabilities: Seq<Seq<char>>,
    risk_level: Seq<char>,
    recovery: RecoveryPolicy,
) -> bool {
    &&& step.step_index == 0
    &&& step.action_name@ == action_name
    &&& step.parameters == params
    &&& step.depends_on@.len() == 0
    &&& strings_view(step.required_capabilities@) == capabilities
    &&& step.risk_level@ == risk_level
    &&& !step.optional
    &&& step.recovery == recovery
}

/// A one-step plan: made for `session_id` at `now`, summarised by the
/// action's name, with the step as its only step, estimated at the step's
/// risk and needing approval when that is `high` or `critical`.
pub open spec fn is_single_step_plan(p: Plan, session_id: Seq<char>, action_name: Seq<char>, now: u64, step: PlanStep) -> bool {
    &&& p.session_id@ == session_id
    &&& p.intent_summary@ == action_name
    &&& p.created_at == now
    &&& p.max_plan_retries == 0
    &&& p.steps@ == seq![step]
    &&& p.estimated_risk@ == step.risk_level@
    &&& p.requires_approval == spec_needs_approval(step.risk_level@)
}

/// The lower-case name of an action risk, as plan steps carry it.
pub open spec fn spec_risk_step_name(r: ActionRisk) -> Seq<char> {
    match r {
        ActionRisk::Low => "low"@,
        ActionRisk::Medium => "medium"@,
        ActionRisk::High => "high"@,
        ActionRisk::Critical => "critical"@,
    }
}

/// The rank of an action risk in the order `Low < Medium < High < Critical`.
pub open spec fn action_risk_rank(r: ActionRisk) -> int {
    match r {
        ActionRisk::Low => 0,
        ActionRisk::Medium => 1,
        ActionRisk::High => 2,
        ActionRisk::Critical => 3,
    }
}

/// Approval follows risk: a plan at high risk needs approval, one at low
/// or medium risk does not, and whatever needs approval at one risk needs
/// it at every greater risk (so a critical plan needs it too).
pub proof fn law_approval_is_monotone_in_risk(a: ActionRisk, b: ActionRisk)
    ensures
        spec_needs_approval(spec_risk_step_name(ActionRisk::High)),
        !spec_needs_approval(spec_risk_step_name(ActionRisk::Low)),
        !spec_needs_approval(spec_risk_step_name(ActionRisk::Medium)),
        action_risk_rank(a) <= action_risk_rank(b) && spec_needs_approval(spec_risk_step_name(a))
            ==> spec_needs_approval(spec_risk_step_name(b)),
{
    reveal_strlit("low");
    reveal_strlit("medium");
    reveal_strlit("high");
    reveal_strlit("critical");
    assert("low"@.len() == 3 && "medium"@.len() == 6 && "high"@.len() == 4 && "critical"@.len() == 8);
}

/// Builds plans from intents.
#[derive(Debug, Clone, Copy)]
pub struct Planner;

impl Planner {
    /// A planner.
    pub fn new() -> (r: Planner) {
        Planner
    }

    /// A one-step plan made at `now` with the given recovery policy.
    pub fn plan_single_with_recovery_at(
        &self,
        now: u64,
        session_id: &str,
        action_name: &str,
        params: serde_json::Value,
        capabilities: Vec<String>,
        risk_level: &str,
        recovery: RecoveryPolicy,
    ) -> (r: Plan)
        ensures
            r.steps@.len() == 1,
            is_single_step(r.steps@[0], action_name@, params, strings_view(capabilities@), risk_level@, recovery),
            is_single_step_plan(r, session_id@, action_name@, now, r.steps@[0]),
    {
        let mut plan = Plan::new_at(now, session_id, action_name);
        let step = PlanStep {
            step_index: 0,
            action_name: to_owned_string(action_name),
            parameters: params,
            depends_on: Vec::new(),
            required_capabilities: capabilities,
            risk_level: to_owned_string(risk_level),
            optional: false,
            recovery,
        };
        let ghost st = step;
        plan.add_step(step);
        assert(Seq::<PlanStep>::empty() + seq![st] =~= seq![st]);
        assert(seq![st].drop_last() =~= Seq::<PlanStep>::empty());
        assert(spec_max_risk(Seq::<PlanStep>::empty()) is None);
        assert(spec_max_risk(seq![st]) == Some(st.risk_level@));
        plan
    }

    /// A one-step plan made now with no retries.
    pub fn plan_single(
        &self,
        session_id: &str,
        action_name: &str,
        params: serde_json::Value,
        capabilities: Vec<String>,
        risk_level: &str,
    ) -> (r: Plan)
        ensures
            r.steps@.len() == 1,
            is_single_step(
                r.steps@[0],
                action_name@,
                params,
                strings_view(capabilities@),
                risk_level@,
                RecoveryPolicy { max_retries: 0, backoff_base_ms: 100, backoff_max_ms: 5_000, timeout_ms: None },
            ),
            exists|now: u64| is_single_step_plan(r, session_id@, action_name@, now, r.steps@[0]),
    {
        self.plan_single_with_recovery_at(
            unix_time_ms(),
            session_id,
            action_name,
            params,
            capabilities,
            risk_level,
            RecoveryPolicy::default(),
        )
    }

    /// A one-step plan made now with a custom recovery policy.
    pub fn plan_single_with_recovery(
        &self,
        session_id: &str,
        action_name: &str,
        params: serde_json::Value,
        capabilities: Vec<String>,
        risk_level: &str,
        recovery: RecoveryPolicy,
    ) -> (r: Plan)
        ensures
            r.steps@.len() == 1,
            is_single_step(r.steps@[0], action_name@, params, strings_view(capabilities@), risk_level@, recovery),
            exists|now: u64| is_single_step_plan(r, session_id@, action_name@, now, r.steps@[0]),
    {
        self.plan_single_with_recovery_at(
            unix_time_ms(),
            session_id,
            action_name,
            params,
            capabilities,
            risk_level,
            recovery,
        )
    }

    /// A one-step plan for an action: in the action's session, named after
    /// it, needing its requested capabilities at its risk (in lower case).
    /// `parameters` is the action's variant in serialised form; the
    /// recovery policy is the caller's.
    pub fn plan_for_action(&self, action: &Action, parameters: serde_json::Value, recovery: RecoveryPolicy) -> (r:
        Plan)
        ensures
            r.steps@.len() == 1,
            is_single_step(
                r.steps@[0],
                spec_action_name(action.variant),
                parameters,
                strings_view(action.requested_capabilities@),
                spec_risk_step_name(action.risk_level),
                recovery,
            ),
            exists|now: u64|
                is_single_step_plan(
                    r,
                    action.session_id@,
                    spec_action_name(action.variant),
                    now,
                    r.steps@[0],
                ),
    {
        let risk: &str = match action.risk_level {
            ActionRisk::Low => "low",
            ActionRisk::Medium => "medium",
            ActionRisk::High => "high",
            ActionRisk::Critical => "critical",
        };
        self.plan_single_with_recovery_at(
            unix_time_ms(),
            action.session_id.as_str(),
            action.action_name(),
            parameters,
            clone_strings(&action.requested_capabilities),
            risk,
            recovery,
        )
    }

    /// A plan made now of the given steps, in order.
    pub fn plan_multi(&self, session_id: &str, intent_summary: &str, steps: Vec<PlanStep>) -> (r: Plan)
        ensures
            r.session_id@ == session_id@,
            r.intent_summary@ == intent_summary@,
            r.max_plan_retries == 0,
            r.steps@ == steps@,
            match spec_max_risk(steps@) {
                Some(m) => r.estimated_risk@ == m && r.requires_approval == spec_needs_approval(m),
                None => r.estimated_risk@ == "low"@ && !r.requires_approval,
            },
    {
        let now = unix_time_ms();
        let mut plan = Plan::new_at(now, session_id, intent_summary);
        let mut rest = steps;
        let ghost all = rest@;
        let mut k: usize = 0;
        let n = rest.len();
        while k < n
            invariant
                k <= n,
                n == all.len(),
                rest@ == all.subrange(k as int, n as int),
                plan.steps@ == all.take(k as int),
                plan.session_id@ == session_id@,
                plan.intent_summary@ == intent_summary@,
                plan.created_at == now,
                plan.max_plan_retries == 0,
                match spec_max_risk(plan.steps@) {
                    Some(m) => plan.estimated_risk@ == m && plan.requires_approval == spec_needs_approval(m),
                    None => plan.estimated_risk@ == "low"@ && !plan.requires_approval,
                },
            decreases n - k,
        {
            let s = rest.remove(0);
            assert(s == all[k as int]);
            plan.add_step(s);
            assert(plan.steps@ =~= all.take(k + 1));
            assert(rest@ =~= all.subrange(k + 1, n as int));
            k += 1;
        }
        assert(all.take(n as int) =~= all);
        plan
    }
}

impl Default for Planner {
    fn default() -> (r: Planner) {
        Planner::new()
    }
}

} // verus!
