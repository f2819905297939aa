//! The agent runtime host's decisions: its lifecycle, the sessions it
//! tracks and how they advance, the validation verdict on a submitted
//! action, and the bounded set of actions parked until the user approves
//! or denies them. Running actions, the audit trail and the event bus are
//! driven by the caller around these decisions.
use vstd::prelude::*;

use crate::json::{object_with, string_value};
use crate::runtime::action::{spec_action_name, variant_name, Action, ActionId};
use crate::runtime::approval::{ApprovalRequest, ApprovalRequestId, ApprovalStatus};
use crate::runtime::cancellation::CancellationToken;
use crate::runtime::errors::AgentError;
use crate::runtime::request::{RequestActor, RequestId, UserRequest};
use crate::runtime::session::{
    spec_can_transition, spec_is_terminal, spec_state_name, spec_transition_error, AgentSession, SessionActor,
    SessionId, SessionState,
};
use crate::runtime::validator::{
    missing_capabilities, spec_schema_error, spec_shell_like, spec_validation_errors, ValidationResult, Validator,
};
use crate::runtime::action::{risk_debug_name, spec_risk_debug_name, ActionRisk};
use crate::text::strings_view;

verus! {

/// Where the host is in its lifecycle.
#[derive(Debug, Clone, Copy, PartialEq, Eq, Structural)]
pub enum HostState {
    Starting,
    Ready,
    Running,
    Stopping,
    Stopped,
    Failed,
}

/// The name of each state.
pub open spec fn spec_host_state_name(s: HostState) -> Seq<char> {
    match s {
        HostState::Starting => "STARTING"@,
        HostState::Ready => "READY"@,
        HostState::Running => "RUNNING"@,
        HostState::Stopping => "STOPPING"@,
        HostState::Stopped => "STOPPED"@,
        HostState::Failed => "FAILED"@,
    }
}

impl HostState {
    /// The state's name, such as `READY`.
    pub fn as_str(self) -> (r: &'static str)
        ensures
            r@ == spec_host_state_name(self),
    {
        match self {
            HostState::Starting => "STARTING",
            HostState::Ready => "READY",
            HostState::Running => "RUNNING",
            HostState::Stopping => "STOPPING",
            HostState::Stopped => "STOPPED",
            HostState::Failed => "FAILED",
        }
    }

    /// Whether the host accepts new work: when ready or running.
    pub fn is_accepting(self) -> (r: bool)
        ensures
            r == (self is Ready || self is Running),
    {
        match self {
            HostState::Ready | HostState::Running => true,
            _ => false,
        }
    }

    /// Whether the host has stopped or failed.
    pub fn is_terminal(self) -> (r: bool)
        ensures
            r == (self is Stopped || self is Failed),
    {
        match self {
            HostState::Stopped | HostState::Failed => true,
            _ => false,
        }
    }
}

/// A host that has stopped or failed accepts no work.
pub proof fn law_terminal_host_accepts_nothing(s: HostState)
    ensures
        (s is Stopped || s is Failed) ==> !(s is Ready || s is Running),
{
}

/// The lifecycle moves the host may make: starting to ready, ready to
/// running, running to stopping, stopping to stopped, and from starting,
/// ready or running to failed.
pub open spec fn spec_host_transition_allowed(from: HostState, to: HostState) -> bool {
    ||| (from is Starting && to is Ready)
    ||| (from is Ready && to is Running)
    ||| (from is Running && to is Stopping)
    ||| (from is Running && to is Failed)
    ||| (from is Ready && to is Failed)
    ||| (from is Starting && to is Failed)
    ||| (from is Stopping && to is Stopped)
}

/// No lifecycle move leaves a stopped or failed host.
pub proof fn law_host_lifecycle_is_final(from: HostState, to: HostState)
    ensures
        (from is Stopped || from is Failed) ==> !spec_host_transition_allowed(from, to),
{
}

/// What the host keeps per session.
#[derive(Debug)]
pub struct HostSessionRecord {
    /// The session.
    pub session: AgentSession,
    /// The requests submitted in it.
    pub requests: Vec<RequestId>,
    /// The actions started in it, with their cancellation tokens.
    pub actions: Vec<(ActionId, CancellationToken)>,
    /// Creation order, for stable listing.
    pub ordinal: u64,
}

/// A high-risk action held until the user approves or denies it.
#[derive(Debug)]
pub struct PendingApproval {
    /// The session the action was submitted in.
    pub session: SessionId,
    /// The action.
    pub action: Action,
    /// The request envelope it came with.
    pub request: UserRequest,
    /// The approval request shown to the user.
    pub approval: ApprovalRequest,
}

/// The verdict on a submitted action.
#[derive(Debug)]
pub enum Submission {
    /// The validator refused it.
    Rejected(ValidationResult),
    /// It is parked until the user decides: the approval's id, and the
    /// oldest parked action, expired, when parking made room for it.
    Parked(ValidationResult, ApprovalRequestId, Option<PendingApproval>),
    /// It may run now, with its request envelope.
    Execute(ValidationResult, Action, UserRequest),
}

/// No two records share a session key.
pub open spec fn session_keys_unique(s: Seq<HostSessionRecord>) -> bool {
    forall|i: int, j: int| 0 <= i < j < s.len() ==> s[i].session.id.spec_key() != s[j].session.id.spec_key()
}

/// No two pending approvals share a key.
pub open spec fn approval_keys_unique(s: Seq<PendingApproval>) -> bool {
    forall|i: int, j: int| 0 <= i < j < s.len() ==> s[i].approval.id.spec_key() != s[j].approval.id.spec_key()
}

/// Some record has this session key.
pub open spec fn has_session_key(s: Seq<HostSessionRecord>, k: u128) -> bool {
    exists|i: int| 0 <= i < s.len() && s[i].session.id.spec_key() == k
}

/// Some pending approval has this key.
pub open spec fn has_approval_key(s: Seq<PendingApproval>, k: u128) -> bool {
    exists|i: int| 0 <= i < s.len() && s[i].approval.id.spec_key() == k
}

/// Position `i` holds the oldest pending approval (the first among the
/// oldest).
pub open spec fn is_oldest(s: Seq<PendingApproval>, i: int) -> bool {
    &&& 0 <= i < s.len()
    &&& forall|j: int| 0 <= j < s.len() ==> s[i].approval.created_at <= s[j].approval.created_at
    &&& forall|j: int| 0 <= j < i ==> s[j].approval.created_at > s[i].approval.created_at
}

/// The message of a refused lifecycle move.
pub open spec fn spec_host_transition_error(from: HostState, to: HostState, reason: Seq<char>) -> Seq<char> {
    "invalid host transition "@ + spec_host_state_name(from) + " -> "@ + spec_host_state_name(to) + " ("@ + reason
        + ")"@
}

/// A record just made for session `id` of `actor` at `now`: ready, with
/// no request, action or error yet, and the given creation ordinal.
pub open spec fn fresh_record(rec: HostSessionRecord, id: SessionId, actor: SessionActor, now: u64, ordinal: u64) -> bool {
    &&& rec.session.id == id
    &&& rec.session.state == SessionState::Ready
    &&& rec.session.actor == actor
    &&& rec.session.created_at == now
    &&& rec.session.updated_at == now
    &&& rec.session.request_count == 0
    &&& rec.session.action_count == 0
    &&& rec.session.observation_count == 0
    &&& rec.session.error_count == 0
    &&& !rec.session.cancelled
    &&& rec.requests@.len() == 0
    &&& rec.actions@.len() == 0
    &&& rec.ordinal == ordinal
}

/// The outcome of moving a session with key `k` to `next`: not found,
/// already ended, cancelled, already there (nothing to do), refused by
/// the session state machine, or moved.
pub enum AdvanceVerdict {
    NotFound,
    Terminal,
    Cancelled,
    AlreadyThere,
    Refused,
    Moves,
}

/// How a session in `state`, cancelled or not, takes a move to `next`.
pub open spec fn spec_advance_verdict(state: SessionState, cancelled: bool, next: SessionState) -> AdvanceVerdict {
    if spec_is_terminal(state) {
        AdvanceVerdict::Terminal
    } else if cancelled {
        AdvanceVerdict::Cancelled
    } else if state == next {
        AdvanceVerdict::AlreadyThere
    } else if !spec_can_transition(state, next) {
        AdvanceVerdict::Refused
    } else {
        AdvanceVerdict::Moves
    }
}

/// How moving the session at position `i` of `before` to `next` at `now`
/// ends: the verdict of its state (see `spec_advance_verdict`), the
/// message of a refusal, and the sessions after.
pub open spec fn advanced(
    before: Seq<HostSessionRecord>,
    after: Seq<HostSessionRecord>,
    i: int,
    now: u64,
    id_text: Seq<char>,
    next: SessionState,
    r: Result<(), AgentError>,
) -> bool {
    let s = before[i].session;
    match spec_advance_verdict(s.state, s.cancelled, next) {
        AdvanceVerdict::Terminal => (r matches Err(e) && e matches AgentError::Session(m) && m@ == "session "@ + id_text
            + " already terminal ("@ + spec_state_name(s.state) + ")"@) && after == before,
        AdvanceVerdict::Cancelled => (r matches Err(e) && e matches AgentError::Cancellation(m) && m@ == "session "@
            + id_text + " cancelled"@) && after == before,
        AdvanceVerdict::AlreadyThere => r is Ok && after == before,
        AdvanceVerdict::Refused => (r matches Err(e) && e matches AgentError::Session(m) && m@
            == "invalid session transition "@ + spec_state_name(s.state) + " -> "@ + spec_state_name(next))
            && after == before,
        AdvanceVerdict::Moves => r is Ok && after == before.update(
            i,
            HostSessionRecord { session: AgentSession { state: next, updated_at: now, ..s }, ..before[i] },
        ),
        AdvanceVerdict::NotFound => false,
    }
}

/// How moving the session at position `i` to `next` ends when nothing is
/// done for a session already there or ended: as `advanced` otherwise.
pub open spec fn advanced_unless_there(
    before: Seq<HostSessionRecord>,
    after: Seq<HostSessionRecord>,
    i: int,
    now: u64,
    id_text: Seq<char>,
    next: SessionState,
    r: Result<(), AgentError>,
) -> bool {
    if before[i].session.state == next || spec_is_terminal(before[i].session.state) {
        r is Ok && after == before
    } else {
        advanced(before, after, i, now, id_text, next, r)
    }
}

/// Whether a submitted action can take this session through thinking to
/// planning: it is not cancelled and is just created or ready (a created
/// session first becomes ready).
pub open spec fn spec_can_plan(s: AgentSession) -> bool {
    !s.cancelled && (s.state == SessionState::Created || s.state == SessionState::Ready)
}

/// The record of a session moved to `state` at `now`.
pub open spec fn moved_record(rec: HostSessionRecord, state: SessionState, now: u64) -> HostSessionRecord {
    HostSessionRecord { session: AgentSession { state, updated_at: now, ..rec.session }, ..rec }
}

/// How submitting an action to the tracked session at position `i` of
/// `before` ends: a session that can plan moves to planning, and on to
/// waiting for approval when the action is parked; any other refuses it
/// with a session or cancellation error and nothing changes.
pub open spec fn submitted(
    before: Seq<HostSessionRecord>,
    after: Seq<HostSessionRecord>,
    i: int,
    now: u64,
    r: Result<Submission, AgentError>,
) -> bool {
    if spec_can_plan(before[i].session) {
        match r {
            Ok(Submission::Parked(..)) => after == before.update(
                i,
                moved_record(before[i], SessionState::WaitingApproval, now),
            ),
            Ok(_) => after == before.update(i, moved_record(before[i], SessionState::Planning, now)),
            Err(_) => false,
        }
    } else {
        (r matches Err(e) && (e is Session || e is Cancellation)) && after == before
    }
}

/// How ending the execution of an action in the session at position `i`
/// of `before` at `now` ends. After a success the session moves to
/// observing and is completed (a refused first move is reported as
/// `advanced` does, and nothing changes); after a failure it is moved to
/// failed where the session state machine allows, any refusal being
/// ignored, and one more error is counted.
pub open spec fn finished(
    before: Seq<HostSessionRecord>,
    after: Seq<HostSessionRecord>,
    i: int,
    now: u64,
    id_text: Seq<char>,
    succeeded: bool,
    r: Result<(), AgentError>,
) -> bool {
    let rec = before[i];
    let s = rec.session;
    if succeeded {
        match spec_advance_verdict(s.state, s.cancelled, SessionState::Observing) {
            AdvanceVerdict::Moves => r is Ok && after == before.update(i, moved_record(rec, SessionState::Completed, now)),
            AdvanceVerdict::AlreadyThere => r is Ok && after == before.update(
                i,
                moved_record(rec, SessionState::Completed, now),
            ),
            _ => advanced(before, after, i, now, id_text, SessionState::Observing, r),
        }
    } else {
        let failed = match spec_advance_verdict(s.state, s.cancelled, SessionState::Failed) {
            AdvanceVerdict::Moves => moved_record(rec, SessionState::Failed, now),
            _ => rec,
        };
        r is Ok && after == before.update(
            i,
            HostSessionRecord {
                session: AgentSession { error_count: saturating_inc(failed.session.error_count), ..failed.session },
                ..failed
            },
        )
    }
}

/// A parked action marked expired.
pub open spec fn expired(x: PendingApproval) -> PendingApproval {
    PendingApproval { approval: ApprovalRequest { status: ApprovalStatus::Expired, ..x.approval }, ..x }
}

/// `after` is `before` with `p` parked: replacing the action parked under
/// the same key, or added last.
pub open spec fn parked_into(before: Seq<PendingApproval>, after: Seq<PendingApproval>, p: PendingApproval) -> bool {
    if has_approval_key(before, p.approval.id.spec_key()) {
        exists|i: int|
            0 <= i < before.len() && before[i].approval.id.spec_key() == p.approval.id.spec_key() && after
                == before.update(i, p)
    } else {
        after == before.push(p)
    }
}

/// `v` is the validator's verdict on action `a` under the granted
/// capabilities.
pub open spec fn is_verdict(v: ValidationResult, a: Action, granted: Seq<Seq<char>>) -> bool {
    &&& v.schema_ok == spec_schema_error(a) is None
    &&& v.capability_ok == (missing_capabilities(strings_view(a.requested_capabilities@), granted).len() == 0)
    &&& v.policy_ok == !spec_shell_like(spec_action_name(a.variant))
    &&& v.valid == (v.schema_ok && v.capability_ok && v.policy_ok)
    &&& v.risk_level == a.risk_level
    &&& v.requires_confirmation == (a.risk_level == ActionRisk::High || a.risk_level == ActionRisk::Critical)
    &&& strings_view(v.errors@) == spec_validation_errors(a, granted)
}

/// One more, staying at the largest count.
pub open spec fn saturating_inc(n: u32) -> u32 {
    if n < u32::MAX {
        (n + 1) as u32
    } else {
        n
    }
}

/// How cancelling the action with key `action_key` in the session at
/// position `i` ends: whether the action was found, and the sessions
/// after (its token dropped when found, nothing changed otherwise).
pub open spec fn action_cancelled(
    before: Seq<HostSessionRecord>,
    after: Seq<HostSessionRecord>,
    i: int,
    action_key: u128,
    r: Result<bool, AgentError>,
) -> bool {
    let rec = before[i];
    let found = exists|k: int| 0 <= k < rec.actions@.len() && rec.actions@[k].0.spec_key() == action_key;
    &&& r == Ok::<bool, AgentError>(found)
    &&& found ==> exists|k: int|
        0 <= k < rec.actions@.len() && rec.actions@[k].0.spec_key() == action_key && after == before.update(
            i,
            HostSessionRecord { actions: after[i].actions, ..rec },
        ) && after[i].actions@ == rec.actions@.remove(k)
    &&& !found ==> after == before
}

/// The position of the action with this key among a session's actions.
fn find_action(rec: &HostSessionRecord, key: u128) -> (r: Option<usize>)
    ensures
        match r {
            Some(k) => k < rec.actions@.len() && rec.actions@[k as int].0.spec_key() == key,
            None => forall|k: int| 0 <= k < rec.actions@.len() ==> rec.actions@[k].0.spec_key() != key,
        },
{
    let mut k: usize = 0;
    while k < rec.actions.len()
        invariant
            k <= rec.actions@.len(),
            forall|j: int| 0 <= j < k ==> rec.actions@[j].0.spec_key() != key,
        decreases rec.actions@.len() - k,
    {
        if rec.actions[k].0.key() == key {
            return Some(k);
        }
        k += 1;
    }
    None
}

/// The host's state and decisions.
pub struct HostCore {
    state: HostState,
    sessions: Vec<HostSessionRecord>,
    pending: Vec<PendingApproval>,
    validator: Validator,
    max_sessions: usize,
    max_pending_approvals: usize,
    next_session_ordinal: u64,
}

impl HostCore {
    /// The lifecycle state.
    pub closed spec fn spec_state(&self) -> HostState {
        self.state
    }

    /// The tracked sessions, in creation order.
    pub closed spec fn spec_sessions(&self) -> Seq<HostSessionRecord> {
        self.sessions@
    }

    /// The parked actions, in parking order.
    pub closed spec fn spec_pending(&self) -> Seq<PendingApproval> {
        self.pending@
    }

    /// The most sessions tracked at once.
    pub closed spec fn spec_max_sessions(&self) -> usize {
        self.max_sessions
    }

    /// The most actions parked at once.
    pub closed spec fn spec_max_pending(&self) -> usize {
        self.max_pending_approvals
    }

    /// The ordinal the next session gets.
    pub closed spec fn spec_next_ordinal(&self) -> u64 {
        self.next_session_ordinal
    }

    /// The validator of submitted actions.
    pub closed spec fn spec_validator(&self) -> Validator {
        self.validator
    }

    /// Keys are unique, and at least one action may be parked.
    pub open spec fn wf(&self) -> bool {
        &&& session_keys_unique(self.spec_sessions())
        &&& approval_keys_unique(self.spec_pending())
        &&& self.spec_max_pending() > 0
    }

    /// A host that has moved from starting to ready, with no session or
    /// parked action, granting `granted_capabilities`; it tracks at most
    /// 64 sessions and parks at most 64 actions.
    pub fn start(granted_capabilities: Vec<String>) -> (r: HostCore)
        ensures
            r.wf(),
            r.spec_state() == HostState::Ready,
            r.spec_sessions().len() == 0,
            r.spec_pending().len() == 0,
            r.spec_max_sessions() == 64,
            r.spec_max_pending() == 64,
            r.spec_next_ordinal() == 0,
            r.spec_validator().spec_granted() == strings_view(granted_capabilities@),
    {
        HostCore {
            state: HostState::Ready,
            sessions: Vec::new(),
            pending: Vec::new(),
            validator: Validator::new(granted_capabilities),
            max_sessions: 64,
            max_pending_approvals: 64,
            next_session_ordinal: 0,
        }
    }

    /// The lifecycle state.
    pub fn state(&self) -> (r: HostState)
        ensures
            r == self.spec_state(),
    {
        self.state
    }

    /// Replaces the granted capabilities.
    pub fn grant_capabilities(&mut self, caps: Vec<String>)
        requires
            old(self).wf(),
        ensures
            final(self).wf(),
            final(self).spec_validator().spec_granted() == strings_view(caps@),
            final(self).spec_state() == old(self).spec_state(),
            final(self).spec_sessions() == old(self).spec_sessions(),
            final(self).spec_pending() == old(self).spec_pending(),
    {
        self.validator = Validator::new(caps);
    }

    /// The number of tracked sessions.
    pub fn session_count(&self) -> (r: usize)
        ensures
            r == self.spec_sessions().len(),
    {
        self.sessions.len()
    }

    /// The number of parked actions.
    pub fn pending_count(&self) -> (r: usize)
        ensures
            r == self.spec_pending().len(),
    {
        self.pending.len()
    }

    /// The number of tracked sessions that have not ended.
    pub fn active_session_count(&self) -> (r: usize)
        ensures
            r == self.spec_sessions().filter(|rec: HostSessionRecord| !spec_is_terminal(rec.session.state)).len(),
    {
        let ghost live = |rec: HostSessionRecord| !spec_is_terminal(rec.session.state);
        let mut n: usize = 0;
        let mut i: usize = 0;
        while i < self.sessions.len()
            invariant
                i <= self.sessions@.len(),
                live == (|rec: HostSessionRecord| !spec_is_terminal(rec.session.state)),
                n == self.sessions@.subrange(0, i as int).filter(live).len(),
            decreases self.sessions@.len() - i,
        {
            proof {
                let prev = self.sessions@.subrange(0, i as int);
                assert(self.sessions@.subrange(0, i + 1) =~= prev.push(self.sessions@[i as int]));
                prev.lemma_filter_len_push(live, self.sessions@[i as int]);
                prev.lemma_filter_len(live);
            }
            let active = self.sessions[i].session.is_active();
            assert(active == live(self.sessions@[i as int]));
            if active {
                n = n + 1;
            }
            i = i + 1;
        }
        assert(self.sessions@.subrange(0, self.sessions@.len() as int) =~= self.sessions@);
        n
    }

    /// The creation number the next session gets.
    pub fn next_ordinal(&self) -> (r: u64)
        ensures
            r == self.spec_next_ordinal(),
    {
        self.next_session_ordinal
    }

    /// Moves the host along its lifecycle, when the move is allowed.
    pub fn transition_state(&mut self, next: HostState, reason: &str) -> (r: Result<(), AgentError>)
        requires
            old(self).wf(),
        ensures
            final(self).wf(),
            r is Ok <==> spec_host_transition_allowed(old(self).spec_state(), next),
            r is Ok ==> final(self).spec_state() == next,
            r matches Err(e) ==> e matches AgentError::Internal(m) && m@ == spec_host_transition_error(
                old(self).spec_state(),
                next,
                reason@,
            ) && final(self).spec_state() == old(self).spec_state(),
            final(self).spec_sessions() == old(self).spec_sessions(),
            final(self).spec_pending() == old(self).spec_pending(),
    {
        let allowed = match (self.state, next) {
            (HostState::Starting, HostState::Ready) => true,
            (HostState::Ready, HostState::Running) => true,
            (HostState::Running, HostState::Stopping) => true,
            (HostState::Running, HostState::Failed) => true,
            (HostState::Ready, HostState::Failed) => true,
            (HostState::Starting, HostState::Failed) => true,
            (HostState::Stopping, HostState::Stopped) => true,
            _ => false,
        };
        if !allowed {
            let mut m = String::from_str("invalid host transition ");
            m.append(self.state.as_str());
            m.append(" -> ");
            m.append(next.as_str());
            m.append(" (");
            m.append(reason);
            m.append(")");
            return Err(AgentError::Internal(m));
        }
        self.state = next;
        Ok(())
    }

    /// Marks the host failed, whatever its state.
    pub fn fail(&mut self)
        requires
            old(self).wf(),
        ensures
            final(self).wf(),
            final(self).spec_state() == HostState::Failed,
            final(self).spec_sessions() == old(self).spec_sessions(),
            final(self).spec_pending() == old(self).spec_pending(),
    {
        self.state = HostState::Failed;
    }

    /// Refuses work unless the host is ready or running.
    pub fn ensure_accepting(&self) -> (r: Result<(), AgentError>)
        ensures
            r is Ok <==> (self.spec_state() is Ready || self.spec_state() is Running),
            r matches Err(e) ==> e matches AgentError::Internal(m) && m@ == "host is "@ + spec_host_state_name(
                self.spec_state(),
            ) + "; not accepting work"@,
    {
        if !self.state.is_accepting() {
            let mut m = String::from_str("host is ");
            m.append(self.state.as_str());
            m.append("; not accepting work");
            return Err(AgentError::Internal(m));
        }
        Ok(())
    }

    /// The position of the session with this key.
    fn find_session(&self, key: u128) -> (r: Option<usize>)
        ensures
            match r {
                Some(i) => i < self.spec_sessions().len() && self.spec_sessions()[i as int].session.id.spec_key()
                    == key,
                None => !has_session_key(self.spec_sessions(), key),
            },
    {
        let mut i: usize = 0;
        while i < self.sessions.len()
            invariant
                i <= self.sessions@.len(),
                forall|j: int| 0 <= j < i ==> self.sessions@[j].session.id.spec_key() != key,
            decreases self.sessions@.len() - i,
        {
            if self.sessions[i].session.id.key() == key {
                return Some(i);
            }
            i += 1;
        }
        None
    }

    /// Whether the host tracks this session.
    pub fn has_session(&self, id: &SessionId) -> (r: bool)
        ensures
            r == has_session_key(self.spec_sessions(), id.spec_key()),
    {
        self.find_session(id.key()).is_some()
    }

    /// The state of a tracked session.
    pub fn session_state(&self, id: &SessionId) -> (r: Option<SessionState>)
        ensures
            r is Some <==> has_session_key(self.spec_sessions(), id.spec_key()),
            r matches Some(s) ==> exists|i: int|
                0 <= i < self.spec_sessions().len() && self.spec_sessions()[i].session.id.spec_key() == id.spec_key()
                    && self.spec_sessions()[i].session.state == s,
    {
        match self.find_session(id.key()) {
            Some(i) => Some(self.sessions[i].session.state),
            None => None,
        }
    }

    /// The tracked session with this id, if any.
    pub fn session(&self, id: &SessionId) -> (r: Option<&HostSessionRecord>)
        ensures
            r is Some <==> has_session_key(self.spec_sessions(), id.spec_key()),
            r matches Some(rec) ==> rec.session.id.spec_key() == id.spec_key() && self.spec_sessions().contains(*rec),
    {
        match self.find_session(id.key()) {
            Some(i) => Some(&self.sessions[i]),
            None => None,
        }
    }

    /// The tracked sessions, newest first.
    pub fn sessions_newest_first(&self) -> (r: Vec<&HostSessionRecord>)
        ensures
            r@.len() == self.spec_sessions().len(),
            forall|i: int|
                0 <= i < r@.len() ==> *r@[i] == self.spec_sessions()[self.spec_sessions().len() - 1 - i],
    {
        let mut out: Vec<&HostSessionRecord> = Vec::new();
        let mut i: usize = self.sessions.len();
        while i > 0
            invariant
                i <= self.sessions@.len(),
                out@.len() == self.sessions@.len() - i,
                forall|k: int| 0 <= k < out@.len() ==> *out@[k] == self.sessions@[self.sessions@.len() - 1 - k],
            decreases i,
        {
            i -= 1;
            out.push(&self.sessions[i]);
        }
        out
    }

    /// Creates a session for `actor` at `now`, moved to ready; the host
    /// starts running with its first session. Refused when the host takes
    /// no work or tracks the most sessions it may.
    #[verifier::spinoff_prover]
    #[verifier::rlimit(30)]
    pub fn create_session_at(&mut self, now: u64, actor: SessionActor) -> (r: Result<SessionId, AgentError>)
        requires
            old(self).wf(),
            old(self).spec_next_ordinal() < u64::MAX,
        ensures
            final(self).wf(),
            final(self).spec_pending() == old(self).spec_pending(),
            !(old(self).spec_state() is Ready || old(self).spec_state() is Running) ==> (r matches Err(e)
                && e is Internal) && final(self).spec_sessions() == old(self).spec_sessions()
                && final(self).spec_state() == old(self).spec_state(),
            (old(self).spec_state() is Ready || old(self).spec_state() is Running) && old(self).spec_sessions().len()
                >= old(self).spec_max_sessions() ==> (r matches Err(e) && e is Internal) && final(self).spec_sessions()
                == old(self).spec_sessions() && final(self).spec_state() == old(self).spec_state(),
            r matches Ok(id) ==> {
                &&& final(self).spec_state() == HostState::Running
                &&& has_session_key(final(self).spec_sessions(), id.spec_key())
                &&& exists|i: int|
                    0 <= i < final(self).spec_sessions().len() && #[trigger] fresh_record(
                        final(self).spec_sessions()[i],
                        id,
                        actor,
                        now,
                        old(self).spec_next_ordinal(),
                    ) && if has_session_key(old(self).spec_sessions(), id.spec_key()) {
                        old(self).spec_sessions()[i].session.id.spec_key() == id.spec_key()
                            && final(self).spec_sessions() == old(self).spec_sessions().update(
                            i,
                            final(self).spec_sessions()[i],
                        )
                    } else {
                        final(self).spec_sessions() == old(self).spec_sessions().push(final(self).spec_sessions()[i])
                    }
            },
            r is Ok <==> (old(self).spec_state() is Ready || old(self).spec_state() is Running) && old(
                self,
            ).spec_sessions().len() < old(self).spec_max_sessions(),
            r is Ok ==> final(self).spec_next_ordinal() == old(self).spec_next_ordinal() + 1,
    {
        self.ensure_accepting()?;
        if self.sessions.len() >= self.max_sessions {
            let mut m = String::from_str("max sessions (");
            let n = crate::text::u64_to_decimal(self.max_sessions as u64);
            m.append(n.as_str());
            m.append(") reached");
            return Err(AgentError::Internal(m));
        }
        let mut session = AgentSession::new_at(now, actor);
        let moved = session.transition_at(now, SessionState::Ready);
        assert(moved is Ok);
        let id = session.id;
        let record = HostSessionRecord {
            session,
            requests: Vec::new(),
            actions: Vec::new(),
            ordinal: self.next_session_ordinal,
        };
        self.next_session_ordinal = self.next_session_ordinal + 1;
        let ghost rec = record;
        let ghost before = self.sessions@;
        match self.find_session(id.key()) {
            Some(i) => {
                self.sessions.set(i, record);
                proof {
                    assert forall|a: int, b: int| 0 <= a < b < self.sessions@.len() implies self.sessions@[a].session.id.spec_key()
                        != self.sessions@[b].session.id.spec_key() by {
                        if a != i && b != i {
                            assert(self.sessions@[a] == before[a]);
                            assert(self.sessions@[b] == before[b]);
                        } else if a == i {
                            assert(self.sessions@[b] == before[b]);
                        } else {
                            assert(self.sessions@[a] == before[a]);
                        }
                    }
                    assert(self.sessions@[i as int] == rec);
                    assert(self.sessions@ == before.update(i as int, rec));
                    assert(fresh_record(self.sessions@[i as int], id, actor, now, (self.next_session_ordinal - 1) as u64));
                    assert(has_session_key(before, id.spec_key()));
                    assert(before[i as int].session.id.spec_key() == id.spec_key());
                    assert(has_session_key(self.sessions@, id.spec_key()));
                }
            },
            None => {
                self.sessions.push(record);
                proof {
                    assert(self.sessions@[self.sessions@.len() - 1] == rec);
                    assert(fresh_record(self.sessions@[self.sessions@.len() - 1], id, actor, now, (self.next_session_ordinal - 1) as u64));
                    assert(self.sessions@ == before.push(self.sessions@[self.sessions@.len() - 1]));
                    assert(has_session_key(self.sessions@, id.spec_key()));
                }
            },
        }
        if self.state == HostState::Ready {
            self.state = HostState::Running;
        }
        Ok(id)
    }

    /// Replaces the record at position `i` by one with the same key.
    fn replace_session(&mut self, i: usize, rec: HostSessionRecord)
        requires
            old(self).wf(),
            i < old(self).spec_sessions().len(),
            rec.session.id.spec_key() == old(self).spec_sessions()[i as int].session.id.spec_key(),
        ensures
            final(self).wf(),
            final(self).spec_sessions() == old(self).spec_sessions().update(i as int, rec),
            final(self).spec_state() == old(self).spec_state(),
            final(self).spec_pending() == old(self).spec_pending(),
            final(self).spec_max_sessions() == old(self).spec_max_sessions(),
            final(self).spec_max_pending() == old(self).spec_max_pending(),
            final(self).spec_next_ordinal() == old(self).spec_next_ordinal(),
            final(self).spec_validator() == old(self).spec_validator(),
    {
        let ghost before = self.sessions@;
        self.sessions.set(i, rec);
        proof {
            assert forall|a: int, b: int| 0 <= a < b < self.sessions@.len() implies self.sessions@[a].session.id.spec_key()
                != self.sessions@[b].session.id.spec_key() by {
                if a != i {
                    assert(self.sessions@[a] == before[a]);
                }
                if b != i {
                    assert(self.sessions@[b] == before[b]);
                }
            }
        }
    }

    /// Takes the record at position `i` out, leaving a placeholder that
    /// `replace_session` must overwrite.
    fn take_session(&mut self, i: usize) -> (r: HostSessionRecord)
        requires
            old(self).wf(),
            i < old(self).spec_sessions().len(),
        ensures
            r == old(self).spec_sessions()[i as int],
            final(self).spec_sessions() == old(self).spec_sessions().remove(i as int),
            final(self).spec_state() == old(self).spec_state(),
            final(self).spec_pending() == old(self).spec_pending(),
            final(self).spec_max_sessions() == old(self).spec_max_sessions(),
            final(self).spec_max_pending() == old(self).spec_max_pending(),
            final(self).spec_next_ordinal() == old(self).spec_next_ordinal(),
            final(self).spec_validator() == old(self).spec_validator(),
            approval_keys_unique(final(self).spec_pending()),
            final(self).spec_max_pending() > 0,
    {
        self.sessions.remove(i)
    }

    /// Puts a record back at position `i`, where `take_session` took it.
    fn put_session(&mut self, i: usize, rec: HostSessionRecord, ghost_before: Ghost<Seq<HostSessionRecord>>)
        requires
            i <= old(self).spec_sessions().len(),
            i < ghost_before@.len(),
            old(self).spec_sessions() == ghost_before@.remove(i as int),
            session_keys_unique(ghost_before@),
            rec.session.id.spec_key() == ghost_before@[i as int].session.id.spec_key(),
            approval_keys_unique(old(self).spec_pending()),
            old(self).spec_max_pending() > 0,
        ensures
            final(self).wf(),
            final(self).spec_sessions() == ghost_before@.update(i as int, rec),
            final(self).spec_state() == old(self).spec_state(),
            final(self).spec_pending() == old(self).spec_pending(),
            final(self).spec_max_sessions() == old(self).spec_max_sessions(),
            final(self).spec_max_pending() == old(self).spec_max_pending(),
            final(self).spec_next_ordinal() == old(self).spec_next_ordinal(),
            final(self).spec_validator() == old(self).spec_validator(),
    {
        self.sessions.insert(i, rec);
        proof {
            let before = ghost_before@;
            assert(self.sessions@ =~= before.update(i as int, rec));
            assert forall|a: int, b: int| 0 <= a < b < self.sessions@.len() implies self.sessions@[a].session.id.spec_key()
                != self.sessions@[b].session.id.spec_key() by {
                if a != i {
                    assert(self.sessions@[a] == before[a]);
                }
                if b != i {
                    assert(self.sessions@[b] == before[b]);
                }
            }
        }
    }

    /// The message of an unknown session.
    fn not_found(id: &SessionId) -> (r: AgentError)
        ensures
            r matches AgentError::NotFound(m) && m@ == "session "@ + id.spec_text(),
    {
        let mut m = String::from_str("session ");
        let s = id.to_string();
        m.append(s.as_str());
        AgentError::NotFound(m)
    }

    /// Moves a tracked session to `next` at `now`: refused for an unknown,
    /// ended or cancelled session and for a move the session state machine
    /// forbids; nothing to do when it is already there.
    pub fn advance_session_at(&mut self, now: u64, id: &SessionId, next: SessionState) -> (r: Result<(), AgentError>)
        requires
            old(self).wf(),
        ensures
            final(self).wf(),
            final(self).spec_state() == old(self).spec_state(),
            final(self).spec_pending() == old(self).spec_pending(),
            final(self).spec_max_sessions() == old(self).spec_max_sessions(),
            final(self).spec_max_pending() == old(self).spec_max_pending(),
            final(self).spec_next_ordinal() == old(self).spec_next_ordinal(),
            final(self).spec_validator() == old(self).spec_validator(),
            !has_session_key(old(self).spec_sessions(), id.spec_key()) ==> (r matches Err(e) && e matches AgentError::NotFound(m)
                && m@ == "session "@ + id.spec_text()) && final(self).spec_sessions() == old(self).spec_sessions(),
            has_session_key(old(self).spec_sessions(), id.spec_key()) ==> exists|i: int|
                0 <= i < old(self).spec_sessions().len() && old(self).spec_sessions()[i].session.id.spec_key()
                    == id.spec_key() && #[trigger] advanced(
                    old(self).spec_sessions(),
                    final(self).spec_sessions(),
                    i,
                    now,
                    id.spec_text(),
                    next,
                    r,
                ),
    {
        let i = match self.find_session(id.key()) {
            Some(i) => i,
            None => {
                return Err(HostCore::not_found(id));
            },
        };
        let ghost before = self.sessions@;
        let state = self.sessions[i].session.state;
        if state.is_terminal() {
            let mut m = String::from_str("session ");
            let s = id.to_string();
            m.append(s.as_str());
            m.append(" already terminal (");
            m.append(state.as_str());
            m.append(")");
            assert(advanced(before, self.sessions@, i as int, now, id.spec_text(), next, Err(AgentError::Session(m))));
            return Err(AgentError::Session(m));
        }
        if self.sessions[i].session.cancelled {
            let mut m = String::from_str("session ");
            let s = id.to_string();
            m.append(s.as_str());
            m.append(" cancelled");
            assert(advanced(before, self.sessions@, i as int, now, id.spec_text(), next, Err(AgentError::Cancellation(m))));
            return Err(AgentError::Cancellation(m));
        }
        if state == next {
            assert(advanced(before, self.sessions@, i as int, now, id.spec_text(), next, Ok(())));
            return Ok(());
        }
        if !state.can_transition_to(&next) {
            let mut m = String::from_str("invalid session transition ");
            m.append(state.as_str());
            m.append(" -> ");
            m.append(next.as_str());
            assert(advanced(before, self.sessions@, i as int, now, id.spec_text(), next, Err(AgentError::Session(m))));
            return Err(AgentError::Session(m));
        }
        let mut rec = self.take_session(i);
        let moved = rec.session.transition_at(now, next);
        assert(moved is Ok);
        self.put_session(i, rec, Ghost(before));
        assert(advanced(before, self.sessions@, i as int, now, id.spec_text(), next, Ok(())));
        Ok(())
    }

    /// Moves a tracked session to `next` unless it is already there or has
    /// ended.
    pub fn advance_session_if_not_at(&mut self, now: u64, id: &SessionId, next: SessionState) -> (r: Result<
        (),
        AgentError,
    >)
        requires
            old(self).wf(),
        ensures
            final(self).wf(),
            final(self).spec_state() == old(self).spec_state(),
            final(self).spec_pending() == old(self).spec_pending(),
            final(self).spec_max_sessions() == old(self).spec_max_sessions(),
            final(self).spec_max_pending() == old(self).spec_max_pending(),
            final(self).spec_next_ordinal() == old(self).spec_next_ordinal(),
            final(self).spec_validator() == old(self).spec_validator(),
            !has_session_key(old(self).spec_sessions(), id.spec_key()) ==> (r matches Err(e) && e matches AgentError::NotFound(m)
                && m@ == "session "@ + id.spec_text()) && final(self).spec_sessions() == old(self).spec_sessions(),
            has_session_key(old(self).spec_sessions(), id.spec_key()) ==> exists|i: int|
                0 <= i < old(self).spec_sessions().len() && old(self).spec_sessions()[i].session.id.spec_key()
                    == id.spec_key() && #[trigger] advanced_unless_there(
                    old(self).spec_sessions(),
                    final(self).spec_sessions(),
                    i,
                    now,
                    id.spec_text(),
                    next,
                    r,
                ),
    {
        let i = match self.find_session(id.key()) {
            Some(i) => i,
            None => {
                return Err(HostCore::not_found(id));
            },
        };
        let state = self.sessions[i].session.state;
        if state == next || state.is_terminal() {
            assert(advanced_unless_there(self.spec_sessions(), self.spec_sessions(), i as int, now, id.spec_text(), next, Ok(())));
            return Ok(());
        }
        let r = self.advance_session_at(now, id, next);
        proof {
            let j = choose|j: int|
                0 <= j < old(self).spec_sessions().len() && old(self).spec_sessions()[j].session.id.spec_key()
                    == id.spec_key() && #[trigger] advanced(
                    old(self).spec_sessions(),
                    self.spec_sessions(),
                    j,
                    now,
                    id.spec_text(),
                    next,
                    r,
                );
            assert(j == i);
            assert(advanced_unless_there(old(self).spec_sessions(), self.spec_sessions(), i as int, now, id.spec_text(), next, r));
        }
        r
    }

    /// Ends a tracked session as completed, when the session state machine
    /// allows it.
    pub fn complete_session_at(&mut self, now: u64, id: &SessionId) -> (r: Result<(), AgentError>)
        requires
            old(self).wf(),
        ensures
            final(self).wf(),
            final(self).spec_state() == old(self).spec_state(),
            final(self).spec_pending() == old(self).spec_pending(),
            final(self).spec_max_sessions() == old(self).spec_max_sessions(),
            final(self).spec_max_pending() == old(self).spec_max_pending(),
            final(self).spec_next_ordinal() == old(self).spec_next_ordinal(),
            final(self).spec_validator() == old(self).spec_validator(),
            !has_session_key(old(self).spec_sessions(), id.spec_key()) ==> (r matches Err(e) && e matches AgentError::NotFound(m)
                && m@ == "session "@ + id.spec_text()) && final(self).spec_sessions() == old(self).spec_sessions(),
            has_session_key(old(self).spec_sessions(), id.spec_key()) ==> exists|i: int|
                0 <= i < old(self).spec_sessions().len() && old(self).spec_sessions()[i].session.id.spec_key()
                    == id.spec_key() && {
                    let s = old(self).spec_sessions()[i].session;
                    if !spec_is_terminal(s.state) && spec_can_transition(s.state, SessionState::Completed) {
                        r is Ok && final(self).spec_sessions() == old(self).spec_sessions().update(
                            i,
                            HostSessionRecord {
                                session: AgentSession { state: SessionState::Completed, updated_at: now, ..s },
                                ..old(self).spec_sessions()[i]
                            },
                        )
                    } else {
                        (r matches Err(e) && e matches AgentError::Session(m) && m@ == spec_transition_error(
                            s.state,
                            SessionState::Completed,
                        )) && final(self).spec_sessions() == old(self).spec_sessions()
                    }
                },
    {
        let i = match self.find_session(id.key()) {
            Some(i) => i,
            None => {
                return Err(HostCore::not_found(id));
            },
        };
        let ghost before = self.sessions@;
        let mut rec = self.take_session(i);
        let moved = rec.session.transition_at(now, SessionState::Completed);
        self.put_session(i, rec, Ghost(before));
        proof {
            if moved is Err {
                assert(self.sessions@ =~= before);
            }
        }
        match moved {
            Ok(()) => Ok(()),
            Err(m) => Err(AgentError::Session(m)),
        }
    }

    /// Cancels a tracked session: every token of its actions is signalled
    /// and dropped; a session not yet ended is marked cancelled. Whether
    /// it was marked.
    pub fn cancel_session(&mut self, id: &SessionId) -> (r: Result<bool, AgentError>)
        requires
            old(self).wf(),
        ensures
            final(self).wf(),
            final(self).spec_state() == old(self).spec_state(),
            final(self).spec_pending() == old(self).spec_pending(),
            final(self).spec_max_sessions() == old(self).spec_max_sessions(),
            final(self).spec_max_pending() == old(self).spec_max_pending(),
            final(self).spec_next_ordinal() == old(self).spec_next_ordinal(),
            final(self).spec_validator() == old(self).spec_validator(),
            !has_session_key(old(self).spec_sessions(), id.spec_key()) ==> (r matches Err(e) && e matches AgentError::NotFound(m)
                && m@ == "session "@ + id.spec_text()) && final(self).spec_sessions() == old(self).spec_sessions(),
            has_session_key(old(self).spec_sessions(), id.spec_key()) ==> exists|i: int|
                0 <= i < old(self).spec_sessions().len() && old(self).spec_sessions()[i].session.id.spec_key()
                    == id.spec_key() && {
                    let rec = old(self).spec_sessions()[i];
                    let after = final(self).spec_sessions()[i];
                    &&& final(self).spec_sessions().len() == old(self).spec_sessions().len()
                    &&& forall|j: int|
                        0 <= j < old(self).spec_sessions().len() && j != i ==> final(self).spec_sessions()[j] == old(
                            self,
                        ).spec_sessions()[j]
                    &&& after.actions@.len() == 0
                    &&& after.requests == rec.requests
                    &&& after.ordinal == rec.ordinal
                    &&& r == Ok::<bool, AgentError>(!spec_is_terminal(rec.session.state))
                    &&& after.session == if spec_is_terminal(rec.session.state) {
                        rec.session
                    } else {
                        AgentSession { cancelled: true, state: SessionState::Cancelled, ..rec.session }
                    }
                },
    {
        let i = match self.find_session(id.key()) {
            Some(i) => i,
            None => {
                return Err(HostCore::not_found(id));
            },
        };
        let ghost before = self.sessions@;
        let mut rec = self.take_session(i);
        let ghost rec0 = rec;
        let mut k: usize = 0;
        while k < rec.actions.len()
            invariant
                k <= rec.actions@.len(),
            decreases rec.actions@.len() - k,
        {
            rec.actions[k].1.cancel();
            k += 1;
        }
        rec.actions = Vec::new();
        let marked = if rec.session.state.is_terminal() {
            false
        } else {
            rec.session.cancelled = true;
            rec.session.state = SessionState::Cancelled;
            true
        };
        self.put_session(i, rec, Ghost(before));
        Ok(marked)
    }

    /// Signals and drops the cancellation token of one action of a tracked
    /// session. Whether the action was found.
    pub fn cancel_action(&mut self, id: &SessionId, action_id: &ActionId) -> (r: Result<bool, AgentError>)
        requires
            old(self).wf(),
        ensures
            final(self).wf(),
            final(self).spec_state() == old(self).spec_state(),
            final(self).spec_pending() == old(self).spec_pending(),
            final(self).spec_max_sessions() == old(self).spec_max_sessions(),
            final(self).spec_max_pending() == old(self).spec_max_pending(),
            final(self).spec_next_ordinal() == old(self).spec_next_ordinal(),
            final(self).spec_validator() == old(self).spec_validator(),
            !has_session_key(old(self).spec_sessions(), id.spec_key()) ==> (r matches Err(e) && e matches AgentError::NotFound(m)
                && m@ == "session "@ + id.spec_text()) && final(self).spec_sessions() == old(self).spec_sessions(),
            has_session_key(old(self).spec_sessions(), id.spec_key()) ==> exists|i: int|
                0 <= i < old(self).spec_sessions().len() && old(self).spec_sessions()[i].session.id.spec_key()
                    == id.spec_key() && #[trigger] action_cancelled(
                    old(self).spec_sessions(),
                    final(self).spec_sessions(),
                    i,
                    action_id.spec_key(),
                    r,
                ),
    {
        let i = match self.find_session(id.key()) {
            Some(i) => i,
            None => {
                return Err(HostCore::not_found(id));
            },
        };
        match find_action(&self.sessions[i], action_id.key()) {
            Some(k) => {
                let ghost before = self.sessions@;
                let mut rec = self.take_session(i);
                let ghost rec0 = rec;
                let (_, token) = rec.actions.remove(k);
                token.cancel();
                self.put_session(i, rec, Ghost(before));
                proof {
                    assert(rec0.actions@[k as int].0.spec_key() == action_id.spec_key());
                    assert(self.sessions@[i as int] == rec);
                    assert(self.sessions@ == before.update(
                        i as int,
                        HostSessionRecord { actions: self.sessions@[i as int].actions, ..rec0 },
                    ));
                    assert(action_cancelled(before, self.sessions@, i as int, action_id.spec_key(), Ok(true)));
                }
                Ok(true)
            },
            None => {
                assert(action_cancelled(self.sessions@, self.sessions@, i as int, action_id.spec_key(), Ok(false)));
                Ok(false)
            },
        }
    }

    /// The position of the parked action with this approval key.
    fn find_pending(&self, key: u128) -> (r: Option<usize>)
        ensures
            match r {
                Some(i) => i < self.spec_pending().len() && self.spec_pending()[i as int].approval.id.spec_key() == key,
                None => !has_approval_key(self.spec_pending(), key),
            },
    {
        let mut i: usize = 0;
        while i < self.pending.len()
            invariant
                i <= self.pending@.len(),
                forall|j: int| 0 <= j < i ==> self.pending@[j].approval.id.spec_key() != key,
            decreases self.pending@.len() - i,
        {
            if self.pending[i].approval.id.key() == key {
                return Some(i);
            }
            i += 1;
        }
        None
    }

    /// The position of the oldest parked action (the first among the
    /// oldest).
    fn oldest_pending(&self) -> (r: usize)
        requires
            self.spec_pending().len() > 0,
        ensures
            is_oldest(self.spec_pending(), r as int),
    {
        let mut best: usize = 0;
        let mut i: usize = 1;
        while i < self.pending.len()
            invariant
                1 <= i <= self.pending@.len(),
                best < i,
                forall|j: int| 0 <= j < i ==> self.pending@[best as int].approval.created_at <= self.pending@[j].approval.created_at,
                forall|j: int| 0 <= j < best ==> self.pending@[j].approval.created_at > self.pending@[best as int].approval.created_at,
            decreases self.pending@.len() - i,
        {
            if self.pending[i].approval.created_at < self.pending[best].approval.created_at {
                best = i;
            }
            i += 1;
        }
        best
    }

    /// Parks an action until the user decides. When the most actions are
    /// already parked, the oldest is evicted first and handed back marked
    /// expired. An action parked under the key of one already parked
    /// replaces it.
    pub fn park(&mut self, p: PendingApproval) -> (r: Option<PendingApproval>)
        requires
            old(self).wf(),
        ensures
            final(self).wf(),
            final(self).spec_state() == old(self).spec_state(),
            final(self).spec_sessions() == old(self).spec_sessions(),
            final(self).spec_max_sessions() == old(self).spec_max_sessions(),
            final(self).spec_max_pending() == old(self).spec_max_pending(),
            final(self).spec_next_ordinal() == old(self).spec_next_ordinal(),
            final(self).spec_validator() == old(self).spec_validator(),
            has_approval_key(final(self).spec_pending(), p.approval.id.spec_key()),
            exists|i: int| 0 <= i < final(self).spec_pending().len() && final(self).spec_pending()[i] == p,
            old(self).spec_pending().len() < old(self).spec_max_pending() ==> r is None && parked_into(
                old(self).spec_pending(),
                final(self).spec_pending(),
                p,
            ),
            old(self).spec_pending().len() >= old(self).spec_max_pending() ==> exists|o: int|
                #[trigger] is_oldest(old(self).spec_pending(), o) && r == Some(expired(old(self).spec_pending()[o]))
                    && parked_into(old(self).spec_pending().remove(o), final(self).spec_pending(), p),
    {
        let ghost p0 = p;
        let mut evicted: Option<PendingApproval> = None;
        if self.pending.len() >= self.max_pending_approvals {
            let o = self.oldest_pending();
            let ghost before = self.pending@;
            let mut e = self.pending.remove(o);
            e.approval.status = ApprovalStatus::Expired;
            evicted = Some(e);
            proof {
                assert forall|a: int, b: int| 0 <= a < b < self.pending@.len() implies self.pending@[a].approval.id.spec_key()
                    != self.pending@[b].approval.id.spec_key() by {
                    let a2 = if a < o { a } else { a + 1 };
                    let b2 = if b < o { b } else { b + 1 };
                    assert(self.pending@[a] == before[a2]);
                    assert(self.pending@[b] == before[b2]);
                }
            }
        }
        let ghost mid = self.pending@;
        match self.find_pending(p.approval.id.key()) {
            Some(i) => {
                self.pending.set(i, p);
                proof {
                    assert forall|a: int, b: int| 0 <= a < b < self.pending@.len() implies self.pending@[a].approval.id.spec_key()
                        != self.pending@[b].approval.id.spec_key() by {
                        if a != i {
                            assert(self.pending@[a] == mid[a]);
                        }
                        if b != i {
                            assert(self.pending@[b] == mid[b]);
                        }
                    }
                    assert(self.pending@[i as int] == p0);
                }
            },
            None => {
                self.pending.push(p);
                proof {
                    assert(self.pending@[self.pending@.len() - 1] == p0);
                }
            },
        }
        evicted
    }

    /// Takes the parked action with this approval id out, if there is one.
    pub fn take_pending(&mut self, approval_id: &ApprovalRequestId) -> (r: Option<PendingApproval>)
        requires
            old(self).wf(),
        ensures
            final(self).wf(),
            final(self).spec_state() == old(self).spec_state(),
            final(self).spec_sessions() == old(self).spec_sessions(),
            final(self).spec_max_sessions() == old(self).spec_max_sessions(),
            final(self).spec_max_pending() == old(self).spec_max_pending(),
            final(self).spec_next_ordinal() == old(self).spec_next_ordinal(),
            final(self).spec_validator() == old(self).spec_validator(),
            r is Some <==> has_approval_key(old(self).spec_pending(), approval_id.spec_key()),
            r is None ==> final(self).spec_pending() == old(self).spec_pending(),
            r matches Some(x) ==> exists|i: int|
                0 <= i < old(self).spec_pending().len() && old(self).spec_pending()[i] == x
                    && x.approval.id.spec_key() == approval_id.spec_key() && final(self).spec_pending() == old(
                    self,
                ).spec_pending().remove(i),
            !has_approval_key(final(self).spec_pending(), approval_id.spec_key()),
    {
        match self.find_pending(approval_id.key()) {
            Some(i) => {
                let ghost before = self.pending@;
                let x = self.pending.remove(i);
                proof {
                    assert forall|a: int, b: int| 0 <= a < b < self.pending@.len() implies self.pending@[a].approval.id.spec_key()
                        != self.pending@[b].approval.id.spec_key() by {
                        let a2 = if a < i { a } else { a + 1 };
                        let b2 = if b < i { b } else { b + 1 };
                        assert(self.pending@[a] == before[a2]);
                        assert(self.pending@[b] == before[b2]);
                    }
                    if has_approval_key(self.pending@, approval_id.spec_key()) {
                        let k = choose|k: int| 0 <= k < self.pending@.len() && self.pending@[k].approval.id.spec_key() == approval_id.spec_key();
                        let k2 = if k < i { k } else { k + 1 };
                        assert(self.pending@[k] == before[k2]);
                    }
                }
                Some(x)
            },
            None => None,
        }
    }

    /// The parked actions, in parking order.
    pub fn pending(&self) -> (r: &[PendingApproval])
        ensures
            r@ == self.spec_pending(),
    {
        self.pending.as_slice()
    }

    /// Takes a submitted action through a tracked session's planning: the
    /// session moves to thinking and planning, and the validator rules.
    /// A refused action fails the session where its state machine allows;
    /// one that needs the user's confirmation is parked under a new
    /// approval request and the session waits; any other may run now.
    /// A host that takes no work, and a session that cannot move, refuse
    /// the action.
    pub fn submit_at(&mut self, now: u64, session_id: &SessionId, actor: &RequestActor, action: Action) -> (r: Result<
        Submission,
        AgentError,
    >)
        requires
            old(self).wf(),
        ensures
            final(self).wf(),
            final(self).spec_state() == old(self).spec_state(),
            final(self).spec_max_pending() == old(self).spec_max_pending(),
            final(self).spec_validator() == old(self).spec_validator(),
            !(old(self).spec_state() is Ready || old(self).spec_state() is Running) ==> (r matches Err(e) && e is Internal)
                && final(self).spec_sessions() == old(self).spec_sessions() && final(self).spec_pending() == old(
                self,
            ).spec_pending(),
            r is Ok ==> (old(self).spec_state() is Ready || old(self).spec_state() is Running) && has_session_key(
                old(self).spec_sessions(),
                session_id.spec_key(),
            ),
            (old(self).spec_state() is Ready || old(self).spec_state() is Running) && !has_session_key(
                old(self).spec_sessions(),
                session_id.spec_key(),
            ) ==> (r matches Err(e) && e matches AgentError::NotFound(m) && m@ == "session "@ + session_id.spec_text())
                && final(self).spec_sessions() == old(self).spec_sessions() && final(self).spec_pending() == old(
                self,
            ).spec_pending(),
            (old(self).spec_state() is Ready || old(self).spec_state() is Running) && has_session_key(
                old(self).spec_sessions(),
                session_id.spec_key(),
            ) ==> exists|i: int|
                0 <= i < old(self).spec_sessions().len() && old(self).spec_sessions()[i].session.id.spec_key()
                    == session_id.spec_key() && #[trigger] submitted(
                    old(self).spec_sessions(),
                    final(self).spec_sessions(),
                    i,
                    now,
                    r,
                ),
            r is Err ==> final(self).spec_pending() == old(self).spec_pending(),
            r matches Ok(Submission::Rejected(v)) ==> !v.valid && is_verdict(
                v,
                action,
                old(self).spec_validator().spec_granted(),
            ) && final(self).spec_pending() == old(self).spec_pending(),
            r matches Ok(Submission::Parked(v, aid, evicted)) ==> {
                &&& v.valid && v.requires_confirmation
                &&& (evicted is None <==> old(self).spec_pending().len() < old(self).spec_max_pending())
                &&& (evicted matches Some(e) ==> exists|o: int|
                    #[trigger] is_oldest(old(self).spec_pending(), o) && e == expired(old(self).spec_pending()[o]))
                &&& is_verdict(v, action, old(self).spec_validator().spec_granted())
                &&& exists|i: int|
                    0 <= i < final(self).spec_pending().len() && final(self).spec_pending()[i].approval.id == aid
                        && #[trigger] final(self).spec_pending()[i].action == action
                        && final(self).spec_pending()[i].approval.status == ApprovalStatus::Pending
                        && final(self).spec_pending()[i].approval.session_id@ == session_id.spec_text()
                        && final(self).spec_pending()[i].session == *session_id
                        && final(self).spec_pending()[i].approval.action_name@ == spec_action_name(action.variant)
                        && final(self).spec_pending()[i].approval.risk_level@ == spec_risk_debug_name(
                        action.risk_level,
                    )
            },
            r matches Ok(Submission::Execute(v, a, req)) ==> {
                &&& v.valid && !v.requires_confirmation
                &&& is_verdict(v, action, old(self).spec_validator().spec_granted())
                &&& a == action
                &&& !(a.risk_level == ActionRisk::High || a.risk_level == ActionRisk::Critical)
                &&& req.session_id@ == session_id.spec_text()
                &&& req.input@ == action.reason@
                &&& final(self).spec_pending() == old(self).spec_pending()
            },
    {
        self.ensure_accepting()?;
        let ghost s0 = self.spec_sessions();
        let ghost key = session_id.spec_key();
        let ghost i0: int = choose|i: int| 0 <= i < s0.len() && s0[i].session.id.spec_key() == key;
        let r1 = self.advance_session_if_not_at(now, session_id, SessionState::Ready);
        proof {
            if has_session_key(s0, key) {
                let j = choose|j: int|
                    0 <= j < s0.len() && s0[j].session.id.spec_key() == key && #[trigger] advanced_unless_there(
                        s0,
                        self.spec_sessions(),
                        j,
                        now,
                        session_id.spec_text(),
                        SessionState::Ready,
                        r1,
                    );
                assert(j == i0);
            }
        }
        if let Err(e) = r1 {
            proof {
                if has_session_key(s0, key) {
                    assert(submitted(s0, self.spec_sessions(), i0, now, Err(e)));
                }
            }
            return Err(e);
        }
        let ghost s1 = self.spec_sessions();
        let r2 = self.advance_session_at(now, session_id, SessionState::Thinking);
        proof {
            let j = choose|j: int|
                0 <= j < s1.len() && s1[j].session.id.spec_key() == key && #[trigger] advanced(
                    s1,
                    self.spec_sessions(),
                    j,
                    now,
                    session_id.spec_text(),
                    SessionState::Thinking,
                    r2,
                );
            assert(s1[i0].session.id.spec_key() == key);
            assert(j == i0);
        }
        if let Err(e) = r2 {
            proof {
                assert(submitted(s0, self.spec_sessions(), i0, now, Err(e)));
            }
            return Err(e);
        }
        let ghost s2 = self.spec_sessions();
        let r3 = self.advance_session_at(now, session_id, SessionState::Planning);
        proof {
            let j = choose|j: int|
                0 <= j < s2.len() && s2[j].session.id.spec_key() == key && #[trigger] advanced(
                    s2,
                    self.spec_sessions(),
                    j,
                    now,
                    session_id.spec_text(),
                    SessionState::Planning,
                    r3,
                );
            assert(s2[i0].session.id.spec_key() == key);
            assert(j == i0);
        }
        if let Err(e) = r3 {
            proof {
                assert(submitted(s0, self.spec_sessions(), i0, now, Err(e)));
            }
            return Err(e);
        }
        let ghost s3 = self.spec_sessions();
        proof {
            assert(spec_can_plan(s0[i0].session));
            assert(s3 =~= s0.update(i0, moved_record(s0[i0], SessionState::Planning, now)));
        }
        let result = match self.validator.validate(&action) {
            Ok(v) => v,
            Err(e) => {
                return Err(e);
            },
        };
        if !result.valid {
            let r4 = self.advance_session_at(now, session_id, SessionState::Failed);
            proof {
                let j = choose|j: int|
                    0 <= j < s3.len() && s3[j].session.id.spec_key() == key && #[trigger] advanced(
                        s3,
                        self.spec_sessions(),
                        j,
                        now,
                        session_id.spec_text(),
                        SessionState::Failed,
                        r4,
                    );
                assert(s3[i0].session.id.spec_key() == key);
                assert(j == i0);
                assert(self.spec_sessions() == s3);
                assert(submitted(s0, self.spec_sessions(), i0, now, Ok(Submission::Rejected(result))));
            }
            return Ok(Submission::Rejected(result));
        }
        let session_text = session_id.to_string();
        let name = variant_name(&action.variant);
        let request = UserRequest::new_at(
            now,
            session_text.as_str(),
            actor.clone(),
            action.reason.as_str(),
            object_with("action", string_value(name)),
        );
        if result.requires_confirmation {
            let r5 = self.advance_session_at(now, session_id, SessionState::WaitingApproval);
            proof {
                let j = choose|j: int|
                    0 <= j < s3.len() && s3[j].session.id.spec_key() == key && #[trigger] advanced(
                        s3,
                        self.spec_sessions(),
                        j,
                        now,
                        session_id.spec_text(),
                        SessionState::WaitingApproval,
                        r5,
                    );
                assert(s3[i0].session.id.spec_key() == key);
                assert(j == i0);
                assert(r5 is Ok);
                assert(self.spec_sessions() =~= s0.update(
                    i0,
                    moved_record(s0[i0], SessionState::WaitingApproval, now),
                ));
            }
            let ghost s4 = self.spec_sessions();
            let action_text = action.id.to_string();
            let reason: &str = if action.reason.as_str().is_empty() {
                "high-risk action requires approval"
            } else {
                action.reason.as_str()
            };
            let approval = ApprovalRequest::new_at(
                now,
                session_text.as_str(),
                action_text.as_str(),
                name,
                risk_debug_name(action.risk_level),
                reason,
            );
            let aid = approval.id;
            let ghost act = action;
            let session = *session_id;
            let ghost parked = PendingApproval { session, action, request, approval };
            let evicted = self.park(PendingApproval { session, action, request, approval });
            proof {
                let i = choose|i: int| 0 <= i < self.spec_pending().len() && self.spec_pending()[i] == parked;
                assert(self.spec_pending()[i].action == act);
                assert(self.spec_sessions() == s4);
                assert(submitted(s0, self.spec_sessions(), i0, now, Ok(Submission::Parked(result, aid, evicted))));
            }
            return Ok(Submission::Parked(result, aid, evicted));
        }
        proof {
            assert(self.spec_sessions() == s3);
            assert(submitted(s0, self.spec_sessions(), i0, now, Ok(Submission::Execute(result, action, request))));
        }
        Ok(Submission::Execute(result, action, request))
    }

    /// Sets the most sessions tracked at once.
    pub fn set_max_sessions(&mut self, n: usize)
        requires
            old(self).wf(),
        ensures
            final(self).wf(),
            final(self).spec_max_sessions() == n,
            final(self).spec_state() == old(self).spec_state(),
            final(self).spec_sessions() == old(self).spec_sessions(),
            final(self).spec_pending() == old(self).spec_pending(),
            final(self).spec_max_pending() == old(self).spec_max_pending(),
            final(self).spec_next_ordinal() == old(self).spec_next_ordinal(),
            final(self).spec_validator() == old(self).spec_validator(),
    {
        self.max_sessions = n;
    }

    /// Sets the most actions parked at once; actions already parked beyond
    /// it stay until taken, and each later park evicts the oldest first.
    pub fn set_max_pending_approvals(&mut self, n: usize)
        requires
            old(self).wf(),
            n > 0,
        ensures
            final(self).wf(),
            final(self).spec_max_pending() == n,
            final(self).spec_state() == old(self).spec_state(),
            final(self).spec_sessions() == old(self).spec_sessions(),
            final(self).spec_pending() == old(self).spec_pending(),
            final(self).spec_max_sessions() == old(self).spec_max_sessions(),
            final(self).spec_next_ordinal() == old(self).spec_next_ordinal(),
            final(self).spec_validator() == old(self).spec_validator(),
    {
        self.max_pending_approvals = n;
    }

    /// Stops the host: a running host moves to stopping, every session is
    /// cancelled, and the host stops; stopping a stopped host does
    /// nothing. Refused from any other state.
    pub fn stop(&mut self) -> (r: Result<(), AgentError>)
        requires
            old(self).wf(),
        ensures
            final(self).wf(),
            r is Ok <==> (old(self).spec_state() is Stopped || old(self).spec_state() is Running),
            r is Ok ==> final(self).spec_state() == HostState::Stopped,
            r is Ok && old(self).spec_state() is Running ==> forall|i: int|
                0 <= i < final(self).spec_sessions().len() ==> spec_is_terminal(
                    #[trigger] final(self).spec_sessions()[i].session.state,
                ),
            r is Err ==> final(self).spec_state() == old(self).spec_state() && final(self).spec_sessions()
                == old(self).spec_sessions(),
            old(self).spec_state() is Stopped ==> final(self).spec_sessions() == old(self).spec_sessions(),
            final(self).spec_pending() == old(self).spec_pending(),
            final(self).spec_sessions().len() == old(self).spec_sessions().len(),
    {
        if self.state == HostState::Stopped {
            return Ok(());
        }
        self.transition_state(HostState::Stopping, "stop requested")?;
        let mut i: usize = 0;
        while i < self.sessions.len()
            invariant
                self.wf(),
                i <= self.spec_sessions().len(),
                self.spec_sessions().len() == old(self).spec_sessions().len(),
                self.spec_pending() == old(self).spec_pending(),
                self.spec_state() == HostState::Stopping,
                forall|j: int| 0 <= j < i ==> spec_is_terminal(#[trigger] self.spec_sessions()[j].session.state),
            decreases self.spec_sessions().len() - i,
        {
            let ghost before = self.sessions@;
            let mut rec = self.take_session(i);
            let mut k: usize = 0;
            while k < rec.actions.len()
                invariant
                    k <= rec.actions@.len(),
                decreases rec.actions@.len() - k,
            {
                rec.actions[k].1.cancel();
                k += 1;
            }
            rec.actions = Vec::new();
            if !rec.session.state.is_terminal() {
                rec.session.cancelled = true;
                rec.session.state = SessionState::Cancelled;
            }
            self.put_session(i, rec, Ghost(before));
            i += 1;
        }
        self.transition_state(HostState::Stopped, "host stopped")?;
        Ok(())
    }

    /// Counts one more action in a tracked session and keeps its
    /// cancellation token; nothing happens for an unknown session.
    pub fn record_action(&mut self, id: &SessionId, action_id: ActionId, token: CancellationToken)
        requires
            old(self).wf(),
        ensures
            final(self).wf(),
            final(self).spec_state() == old(self).spec_state(),
            final(self).spec_pending() == old(self).spec_pending(),
            final(self).spec_max_sessions() == old(self).spec_max_sessions(),
            final(self).spec_max_pending() == old(self).spec_max_pending(),
            final(self).spec_next_ordinal() == old(self).spec_next_ordinal(),
            final(self).spec_validator() == old(self).spec_validator(),
            !has_session_key(old(self).spec_sessions(), id.spec_key()) ==> final(self).spec_sessions() == old(
                self,
            ).spec_sessions(),
            has_session_key(old(self).spec_sessions(), id.spec_key()) ==> exists|i: int|
                0 <= i < old(self).spec_sessions().len() && old(self).spec_sessions()[i].session.id.spec_key()
                    == id.spec_key() && {
                    let rec = old(self).spec_sessions()[i];
                    final(self).spec_sessions() == old(self).spec_sessions().update(
                        i,
                        HostSessionRecord {
                            session: AgentSession { action_count: saturating_inc(rec.session.action_count), ..rec.session },
                            actions: final(self).spec_sessions()[i].actions,
                            ..rec
                        },
                    ) && final(self).spec_sessions()[i].actions@ == rec.actions@.push((action_id, token))
                },
    {
        let i = match self.find_session(id.key()) {
            Some(i) => i,
            None => {
                return;
            },
        };
        let ghost before = self.sessions@;
        let mut rec = self.take_session(i);
        rec.actions.push((action_id, token));
        if rec.session.action_count < u32::MAX {
            rec.session.action_count = rec.session.action_count + 1;
        }
        self.put_session(i, rec, Ghost(before));
    }

    /// Counts one more request (and its observation) in a tracked session;
    /// nothing happens for an unknown session.
    pub fn record_request(&mut self, id: &SessionId, request_id: RequestId)
        requires
            old(self).wf(),
        ensures
            final(self).wf(),
            final(self).spec_state() == old(self).spec_state(),
            final(self).spec_pending() == old(self).spec_pending(),
            final(self).spec_max_sessions() == old(self).spec_max_sessions(),
            final(self).spec_max_pending() == old(self).spec_max_pending(),
            final(self).spec_next_ordinal() == old(self).spec_next_ordinal(),
            final(self).spec_validator() == old(self).spec_validator(),
            !has_session_key(old(self).spec_sessions(), id.spec_key()) ==> final(self).spec_sessions() == old(
                self,
            ).spec_sessions(),
            has_session_key(old(self).spec_sessions(), id.spec_key()) ==> exists|i: int|
                0 <= i < old(self).spec_sessions().len() && old(self).spec_sessions()[i].session.id.spec_key()
                    == id.spec_key() && {
                    let rec = old(self).spec_sessions()[i];
                    final(self).spec_sessions() == old(self).spec_sessions().update(
                        i,
                        HostSessionRecord {
                            session: AgentSession {
                                request_count: saturating_inc(rec.session.request_count),
                                observation_count: saturating_inc(rec.session.observation_count),
                                ..rec.session
                            },
                            requests: final(self).spec_sessions()[i].requests,
                            ..rec
                        },
                    ) && final(self).spec_sessions()[i].requests@ == rec.requests@.push(request_id)
                },
    {
        let i = match self.find_session(id.key()) {
            Some(i) => i,
            None => {
                return;
            },
        };
        let ghost before = self.sessions@;
        let mut rec = self.take_session(i);
        rec.requests.push(request_id);
        if rec.session.request_count < u32::MAX {
            rec.session.request_count = rec.session.request_count + 1;
        }
        if rec.session.observation_count < u32::MAX {
            rec.session.observation_count = rec.session.observation_count + 1;
        }
        self.put_session(i, rec, Ghost(before));
    }

    /// Counts one more error in a tracked session; nothing happens for an
    /// unknown session.
    pub fn record_session_error(&mut self, id: &SessionId)
        requires
            old(self).wf(),
        ensures
            final(self).wf(),
            final(self).spec_state() == old(self).spec_state(),
            final(self).spec_pending() == old(self).spec_pending(),
            final(self).spec_max_sessions() == old(self).spec_max_sessions(),
            final(self).spec_max_pending() == old(self).spec_max_pending(),
            final(self).spec_next_ordinal() == old(self).spec_next_ordinal(),
            final(self).spec_validator() == old(self).spec_validator(),
            !has_session_key(old(self).spec_sessions(), id.spec_key()) ==> final(self).spec_sessions() == old(
                self,
            ).spec_sessions(),
            has_session_key(old(self).spec_sessions(), id.spec_key()) ==> exists|i: int|
                0 <= i < old(self).spec_sessions().len() && old(self).spec_sessions()[i].session.id.spec_key()
                    == id.spec_key() && {
                    let rec = old(self).spec_sessions()[i];
                    final(self).spec_sessions() == old(self).spec_sessions().update(
                        i,
                        HostSessionRecord {
                            session: AgentSession { error_count: saturating_inc(rec.session.error_count), ..rec.session },
                            ..rec
                        },
                    )
                },
    {
        let i = match self.find_session(id.key()) {
            Some(i) => i,
            None => {
                return;
            },
        };
        let ghost before = self.sessions@;
        let mut rec = self.take_session(i);
        if rec.session.error_count < u32::MAX {
            rec.session.mark_error();
        }
        self.put_session(i, rec, Ghost(before));
    }
    /// Ends the execution of an action in a tracked session: after a
    /// success the session moves to observing and is completed; after a
    /// failure it is moved to failed when it may be (a refusal is
    /// ignored) and one more error is counted. An unknown session is not
    /// found after a success and left alone after a failure.
    pub fn finish_execution(&mut self, now: u64, id: &SessionId, succeeded: bool) -> (r: Result<(), AgentError>)
        requires
            old(self).wf(),
        ensures
            final(self).wf(),
            final(self).spec_state() == old(self).spec_state(),
            final(self).spec_pending() == old(self).spec_pending(),
            final(self).spec_max_sessions() == old(self).spec_max_sessions(),
            final(self).spec_max_pending() == old(self).spec_max_pending(),
            final(self).spec_next_ordinal() == old(self).spec_next_ordinal(),
            final(self).spec_validator() == old(self).spec_validator(),
            !has_session_key(old(self).spec_sessions(), id.spec_key()) ==> final(self).spec_sessions() == old(
                self,
            ).spec_sessions() && if succeeded {
                r matches Err(e) && e matches AgentError::NotFound(m) && m@ == "session "@ + id.spec_text()
            } else {
                r is Ok
            },
            has_session_key(old(self).spec_sessions(), id.spec_key()) ==> exists|i: int|
                0 <= i < old(self).spec_sessions().len() && old(self).spec_sessions()[i].session.id.spec_key()
                    == id.spec_key() && #[trigger] finished(
                    old(self).spec_sessions(),
                    final(self).spec_sessions(),
                    i,
                    now,
                    id.spec_text(),
                    succeeded,
                    r,
                ),
    {
        let ghost s0 = self.spec_sessions();
        if succeeded {
            let r1 = self.advance_session_at(now, id, SessionState::Observing);
            let ghost s1 = self.spec_sessions();
            if r1.is_err() {
                proof {
                    if has_session_key(s0, id.spec_key()) {
                        let i = choose|i: int|
                            0 <= i < s0.len() && s0[i].session.id.spec_key() == id.spec_key() && #[trigger] advanced(
                                s0,
                                s1,
                                i,
                                now,
                                id.spec_text(),
                                SessionState::Observing,
                                r1,
                            );
                        assert(finished(s0, s1, i, now, id.spec_text(), true, r1));
                    }
                }
                return r1;
            }
            let ghost i = choose|i: int|
                0 <= i < s0.len() && s0[i].session.id.spec_key() == id.spec_key() && #[trigger] advanced(
                    s0,
                    s1,
                    i,
                    now,
                    id.spec_text(),
                    SessionState::Observing,
                    r1,
                );
            proof {
                assert(s1.len() == s0.len());
                assert(s1[i].session.id == s0[i].session.id);
                assert(s1[i].session.state == SessionState::Observing);
                assert(has_session_key(s1, id.spec_key()));
            }
            let r2 = self.complete_session_at(now, id);
            proof {
                let j = choose|j: int|
                    0 <= j < s1.len() && s1[j].session.id.spec_key() == id.spec_key() && {
                        let s = s1[j].session;
                        if !spec_is_terminal(s.state) && spec_can_transition(s.state, SessionState::Completed) {
                            r2 is Ok && self.spec_sessions() == s1.update(
                                j,
                                HostSessionRecord {
                                    session: AgentSession { state: SessionState::Completed, updated_at: now, ..s },
                                    ..s1[j]
                                },
                            )
                        } else {
                            (r2 matches Err(e) && e matches AgentError::Session(m) && m@ == spec_transition_error(
                                s.state,
                                SessionState::Completed,
                            )) && self.spec_sessions() == s1
                        }
                    };
                assert(j == i);
                assert(self.spec_sessions() =~= s0.update(i, moved_record(s0[i], SessionState::Completed, now)));
                assert(finished(s0, self.spec_sessions(), i, now, id.spec_text(), true, r2));
            }
            r2
        } else {
            let r1 = self.advance_session_at(now, id, SessionState::Failed);
            let ghost s1 = self.spec_sessions();
            self.record_session_error(id);
            proof {
                if has_session_key(s0, id.spec_key()) {
                    let i = choose|i: int|
                        0 <= i < s0.len() && s0[i].session.id.spec_key() == id.spec_key() && #[trigger] advanced(
                            s0,
                            s1,
                            i,
                            now,
                            id.spec_text(),
                            SessionState::Failed,
                            r1,
                        );
                    assert(s1.len() == s0.len());
                    assert(s1[i].session.id == s0[i].session.id);
                    assert(has_session_key(s1, id.spec_key()));
                    let j = choose|j: int|
                        0 <= j < s1.len() && s1[j].session.id.spec_key() == id.spec_key() && {
                            let rec = s1[j];
                            self.spec_sessions() == s1.update(
                                j,
                                HostSessionRecord {
                                    session: AgentSession {
                                        error_count: saturating_inc(rec.session.error_count),
                                        ..rec.session
                                    },
                                    ..rec
                                },
                            )
                        };
                    assert(j == i);
                    let failed = match spec_advance_verdict(s0[i].session.state, s0[i].session.cancelled, SessionState::Failed) {
                        AdvanceVerdict::Moves => moved_record(s0[i], SessionState::Failed, now),
                        _ => s0[i],
                    };
                    assert(s1 =~= s0.update(i, failed));
                    let done = HostSessionRecord {
                        session: AgentSession { error_count: saturating_inc(failed.session.error_count), ..failed.session },
                        ..failed
                    };
                    assert(self.spec_sessions() =~= s0.update(i, done));
                    assert(finished(s0, self.spec_sessions(), i, now, id.spec_text(), false, Ok(())));
                }
            }
            Ok(())
        }
    }
}

} // verus!
