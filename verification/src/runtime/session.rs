//! Agent sessions and their lifecycle.
//!
//! A session moves through a fixed state machine: created, ready,
//! thinking, planning, (waiting for approval,) executing, observing, and
//! ends completed, failed or cancelled. No transition leaves an end state.
use vstd::prelude::*;

use crate::ids::{random_uuid, uuid_bits, uuid_string, uuid_text, uuid_value, is_hyphenated_uuid_text};
use crate::runtime::clock::unix_time_ms;

verus! {

/// A unique session identifier.
#[derive(Debug, Clone, Copy, PartialEq, Eq, Hash)]
pub struct SessionId(uuid::Uuid);

impl SessionId {
    /// A fresh random identifier.
    pub fn new() -> (r: SessionId) {
        SessionId(random_uuid())
    }

    /// The identifier's 128-bit value, which tells sessions apart.
    pub closed spec fn spec_key(&self) -> u128 {
        uuid_value(self.0)
    }

    /// The identifier's text.
    pub closed spec fn spec_text(&self) -> Seq<char> {
        uuid_string(self.0)
    }

    /// The identifier's 128-bit value.
    pub fn key(&self) -> (r: u128)
        ensures
            r == self.spec_key(),
    {
        uuid_bits(&self.0)
    }

    /// The identifier in the hyphenated UUID format.
    pub fn to_string(&self) -> (r: String)
        ensures
            r@ == self.spec_text(),
            is_hyphenated_uuid_text(r@),
    {
        uuid_text(&self.0)
    }
}

impl Default for SessionId {
    fn default() -> (r: SessionId) {
        SessionId::new()
    }
}

/// The state of a session.
#[derive(Debug, Clone, Copy, PartialEq, Eq, Structural)]
pub enum SessionState {
    Created,
    Ready,
    Thinking,
    Planning,
    WaitingApproval,
    Executing,
    Observing,
    Completed,
    Failed,
    Cancelled,
}

/// The name of each state.
pub open spec fn spec_state_name(s: SessionState) -> Seq<char> {
    match s {
        SessionState::Created => "created"@,
        SessionState::Ready => "ready"@,
        SessionState::Thinking => "thinking"@,
        SessionState::Planning => "planning"@,
        SessionState::WaitingApproval => "waiting_approval"@,
        SessionState::Executing => "executing"@,
        SessionState::Observing => "observing"@,
        SessionState::Completed => "completed"@,
        SessionState::Failed => "failed"@,
        SessionState::Cancelled => "cancelled"@,
    }
}

/// The end states: completed, failed, cancelled.
pub open spec fn spec_is_terminal(s: SessionState) -> bool {
    s is Completed || s is Failed || s is Cancelled
}

/// The transitions of the session state machine.
pub open spec fn spec_can_transition(from: SessionState, to: SessionState) -> bool {
    match (from, to) {
        (SessionState::Created, SessionState::Ready) => true,
        (SessionState::Ready, SessionState::Thinking) => true,
        (SessionState::Thinking, SessionState::Planning) => true,
        (SessionState::Planning, SessionState::Executing) => true,
        (SessionState::Planning, SessionState::WaitingApproval) => true,
        (SessionState::WaitingApproval, SessionState::Executing) => true,
        (SessionState::WaitingApproval, SessionState::Cancelled) => true,
        (SessionState::Executing, SessionState::Observing) => true,
        (SessionState::Executing, SessionState::Failed) => true,
        (SessionState::Observing, SessionState::Completed) => true,
        (SessionState::Observing, SessionState::Thinking) => true,
        (SessionState::Observing, SessionState::Failed) => true,
        _ => false,
    }
}

impl SessionState {
    /// The state's name, such as `waiting_approval`.
    pub fn as_str(&self) -> (r: &'static str)
        ensures
            r@ == spec_state_name(*self),
    {
        match self {
            SessionState::Created => "created",
            SessionState::Ready => "ready",
            SessionState::Thinking => "thinking",
            SessionState::Planning => "planning",
            SessionState::WaitingApproval => "waiting_approval",
            SessionState::Executing => "executing",
            SessionState::Observing => "observing",
            SessionState::Completed => "completed",
            SessionState::Failed => "failed",
            SessionState::Cancelled => "cancelled",
        }
    }

    /// Whether the state is an end state.
    pub fn is_terminal(&self) -> (r: bool)
        ensures
            r == spec_is_terminal(*self),
    {
        match self {
            SessionState::Completed | SessionState::Failed | SessionState::Cancelled => true,
            _ => false,
        }
    }

    /// Whether the state machine allows a move to `next`.
    pub fn can_transition_to(&self, next: &SessionState) -> (r: bool)
        ensures
            r == spec_can_transition(*self, *next),
    {
        match (self, next) {
            (SessionState::Created, SessionState::Ready) => true,
            (SessionState::Ready, SessionState::Thinking) => true,
            (SessionState::Thinking, SessionState::Planning) => true,
            (SessionState::Planning, SessionState::Executing) => true,
            (SessionState::Planning, SessionState::WaitingApproval) => true,
            (SessionState::WaitingApproval, SessionState::Executing) => true,
            (SessionState::WaitingApproval, SessionState::Cancelled) => true,
            (SessionState::Executing, SessionState::Observing) => true,
            (SessionState::Executing, SessionState::Failed) => true,
            (SessionState::Observing, SessionState::Completed) => true,
            (SessionState::Observing, SessionState::Thinking) => true,
            (SessionState::Observing, SessionState::Failed) => true,
            _ => false,
        }
    }
}

/// The session lifecycle: a session is readied and starts thinking; it
/// plans, optionally waits for approval (where it may be cancelled),
/// executes and observes; from observing it loops back to thinking for the
/// next step, completes, or fails; execution may fail. These are all the
/// moves there are.
pub proof fn law_session_lifecycle(from: SessionState, to: SessionState)
    ensures
        spec_can_transition(SessionState::Created, SessionState::Ready),
        spec_can_transition(SessionState::Ready, SessionState::Thinking),
        spec_can_transition(SessionState::Thinking, SessionState::Planning),
        spec_can_transition(SessionState::Planning, SessionState::Executing),
        spec_can_transition(SessionState::Planning, SessionState::WaitingApproval),
        spec_can_transition(SessionState::WaitingApproval, SessionState::Executing),
        spec_can_transition(SessionState::WaitingApproval, SessionState::Cancelled),
        spec_can_transition(SessionState::Executing, SessionState::Observing),
        spec_can_transition(SessionState::Executing, SessionState::Failed),
        spec_can_transition(SessionState::Observing, SessionState::Completed),
        spec_can_transition(SessionState::Observing, SessionState::Thinking),
        spec_can_transition(SessionState::Observing, SessionState::Failed),
        spec_can_transition(from, to) ==> {
            ||| from == SessionState::Created && to == SessionState::Ready
            ||| from == SessionState::Ready && to == SessionState::Thinking
            ||| from == SessionState::Thinking && to == SessionState::Planning
            ||| from == SessionState::Planning && (to == SessionState::Executing || to == SessionState::WaitingApproval)
            ||| from == SessionState::WaitingApproval && (to == SessionState::Executing || to == SessionState::Cancelled)
            ||| from == SessionState::Executing && (to == SessionState::Observing || to == SessionState::Failed)
            ||| from == SessionState::Observing && (to == SessionState::Completed || to == SessionState::Thinking
                || to == SessionState::Failed)
        },
{
}

/// No transition leaves an end state.
pub proof fn law_terminal_states_are_final(from: SessionState, to: SessionState)
    ensures
        spec_is_terminal(from) ==> !spec_can_transition(from, to),
{
}

/// Who acts in a session.
#[derive(Debug, Clone, Copy, PartialEq, Eq, Structural)]
pub enum ActorType {
    Human,
    System,
    Agent,
}

/// The actor of a session.
#[derive(Debug, Clone)]
pub struct SessionActor {
    /// The kind of actor.
    pub actor_type: ActorType,
    /// Who the actor is.
    pub identity: String,
}

/// An agent session.
#[derive(Debug, Clone)]
pub struct AgentSession {
    /// The session's identifier.
    pub id: SessionId,
    /// Where the session is in its lifecycle.
    pub state: SessionState,
    /// Who the session serves.
    pub actor: SessionActor,
    /// Creation time, milliseconds since the Unix epoch.
    pub created_at: u64,
    /// Time of the last transition, milliseconds since the Unix epoch.
    pub updated_at: u64,
    /// Requests handled.
    pub request_count: u32,
    /// Actions run.
    pub action_count: u32,
    /// Observations made.
    pub observation_count: u32,
    /// Errors met.
    pub error_count: u32,
    /// Whether the session was cancelled.
    pub cancelled: bool,
}

/// The message of a refused transition.
pub open spec fn spec_transition_error(from: SessionState, to: SessionState) -> Seq<char> {
    if spec_is_terminal(from) {
        "Cannot transition from terminal state "@ + spec_state_name(from)
    } else {
        "Invalid transition: "@ + spec_state_name(from) + " -> "@ + spec_state_name(to)
    }
}

impl AgentSession {
    /// A new session in the created state, with all counters at zero,
    /// created at the given time.
    pub fn new_at(now: u64, actor: SessionActor) -> (r: AgentSession)
        ensures
            r.state == SessionState::Created,
            r.actor == actor,
            r.created_at == now,
            r.updated_at == now,
            r.request_count == 0,
            r.action_count == 0,
            r.observation_count == 0,
            r.error_count == 0,
            !r.cancelled,
    {
        AgentSession {
            id: SessionId::new(),
            state: SessionState::Created,
            actor,
            created_at: now,
            updated_at: now,
            request_count: 0,
            action_count: 0,
            observation_count: 0,
            error_count: 0,
            cancelled: false,
        }
    }

    /// A new session in the created state, created now.
    pub fn new(actor: SessionActor) -> (r: AgentSession)
        ensures
            r.state == SessionState::Created,
            r.actor == actor,
            r.created_at == r.updated_at,
            r.request_count == 0,
            r.action_count == 0,
            r.observation_count == 0,
            r.error_count == 0,
            !r.cancelled,
    {
        AgentSession::new_at(unix_time_ms(), actor)
    }

    /// Moves the session to `new_state` at the given time when the state
    /// machine allows it; else refuses and leaves the session unchanged.
    pub fn transition_at(&mut self, now: u64, new_state: SessionState) -> (r: Result<(), String>)
        ensures
            r is Ok <==> !spec_is_terminal(old(self).state) && spec_can_transition(old(self).state, new_state),
            r is Ok ==> *final(self) == (AgentSession { state: new_state, updated_at: now, ..*old(self) }),
            r matches Err(e) ==> e@ == spec_transition_error(old(self).state, new_state) && *final(self)
                == *old(self),
    {
        if self.state.is_terminal() {
            let mut e = String::from_str("Cannot transition from terminal state ");
            e.append(self.state.as_str());
            return Err(e);
        }
        if !self.state.can_transition_to(&new_state) {
            let mut e = String::from_str("Invalid transition: ");
            e.append(self.state.as_str());
            e.append(" -> ");
            e.append(new_state.as_str());
            return Err(e);
        }
        self.state = new_state;
        self.updated_at = now;
        Ok(())
    }

    /// Moves the session to `new_state` now, when the state machine
    /// allows it.
    pub fn transition(&mut self, new_state: SessionState) -> (r: Result<(), String>)
        ensures
            r is Ok <==> !spec_is_terminal(old(self).state) && spec_can_transition(old(self).state, new_state),
            r is Ok ==> final(self).state == new_state && final(self).created_at == old(self).created_at,
            r matches Err(e) ==> e@ == spec_transition_error(old(self).state, new_state) && *final(self)
                == *old(self),
    {
        let now = unix_time_ms();
        self.transition_at(now, new_state)
    }

    /// Whether the session has not ended.
    pub fn is_active(&self) -> (r: bool)
        ensures
            r == !spec_is_terminal(self.state),
    {
        !self.state.is_terminal()
    }

    /// Counts one more error.
    pub fn mark_error(&mut self)
        requires
            old(self).error_count < u32::MAX,
        ensures
            *final(self) == (AgentSession { error_count: (old(self).error_count + 1) as u32, ..*old(self) }),
    {
        self.error_count = self.error_count + 1;
    }
}

} // verus!
