//! The events the agent runtime publishes on the event bus.
use vstd::prelude::*;

verus! {

/// An event of the agent runtime.
#[derive(Debug, Clone)]
pub enum AgentEvent {
    SessionCreated {
        session_id: String,
        actor: String,
    },
    SessionStarted {
        session_id: String,
    },
    SessionCompleted {
        session_id: String,
    },
    SessionFailed {
        session_id: String,
        reason: String,
    },
    SessionCancelled {
        session_id: String,
    },
    IntentCreated {
        session_id: String,
        intent_type: String,
        confidence: u8,
    },
    PlanCreated {
        session_id: String,
        plan_id: String,
        step_count: u32,
    },
    ActionRequested {
        session_id: String,
        action_id: String,
        action_name: String,
        risk_level: String,
    },
    ActionApproved {
        session_id: String,
        action_id: String,
    },
    ActionDenied {
        session_id: String,
        action_id: String,
        reason: String,
    },
    ActionStarted {
        session_id: String,
        action_id: String,
    },
    ActionCompleted {
        session_id: String,
        action_id: String,
        duration_ms: u64,
    },
    ActionFailed {
        session_id: String,
        action_id: String,
        error: String,
    },
    ObservationCreated {
        session_id: String,
        observation_id: String,
        success: bool,
    },
    ApprovalRequested {
        session_id: String,
        action_id: String,
        action_name: String,
        risk_level: String,
    },
    ApprovalGranted {
        session_id: String,
        action_id: String,
    },
    ApprovalDenied {
        session_id: String,
        action_id: String,
        reason: String,
    },
}

/// The bus name of each event.
pub open spec fn spec_event_type(e: AgentEvent) -> Seq<char> {
    match e {
        AgentEvent::SessionCreated { .. } => "agent.session.created"@,
        AgentEvent::SessionStarted { .. } => "agent.session.started"@,
        AgentEvent::SessionCompleted { .. } => "agent.session.completed"@,
        AgentEvent::SessionFailed { .. } => "agent.session.failed"@,
        AgentEvent::SessionCancelled { .. } => "agent.session.cancelled"@,
        AgentEvent::IntentCreated { .. } => "agent.intent.created"@,
        AgentEvent::PlanCreated { .. } => "agent.plan.created"@,
        AgentEvent::ActionRequested { .. } => "agent.action.requested"@,
        AgentEvent::ActionApproved { .. } => "agent.action.approved"@,
        AgentEvent::ActionDenied { .. } => "agent.action.denied"@,
        AgentEvent::ActionStarted { .. } => "agent.action.started"@,
        AgentEvent::ActionCompleted { .. } => "agent.action.completed"@,
        AgentEvent::ActionFailed { .. } => "agent.action.failed"@,
        AgentEvent::ObservationCreated { .. } => "agent.observation.created"@,
        AgentEvent::ApprovalRequested { .. } => "agent.approval.requested"@,
        AgentEvent::ApprovalGranted { .. } => "agent.approval.granted"@,
        AgentEvent::ApprovalDenied { .. } => "agent.approval.denied"@,
    }
}

impl AgentEvent {
    /// The event's name on the bus, such as `agent.session.created`.
    pub fn event_type(&self) -> (r: &'static str)
        ensures
            r@ == spec_event_type(*self),
    {
        match self {
            AgentEvent::SessionCreated { .. } => "agent.session.created",
            AgentEvent::SessionStarted { .. } => "agent.session.started",
            AgentEvent::SessionCompleted { .. } => "agent.session.completed",
            AgentEvent::SessionFailed { .. } => "agent.session.failed",
            AgentEvent::SessionCancelled { .. } => "agent.session.cancelled",
            AgentEvent::IntentCreated { .. } => "agent.intent.created",
            AgentEvent::PlanCreated { .. } => "agent.plan.created",
            AgentEvent::ActionRequested { .. } => "agent.action.requested",
            AgentEvent::ActionApproved { .. } => "agent.action.approved",
            AgentEvent::ActionDenied { .. } => "agent.action.denied",
            AgentEvent::ActionStarted { .. } => "agent.action.started",
            AgentEvent::ActionCompleted { .. } => "agent.action.completed",
            AgentEvent::ActionFailed { .. } => "agent.action.failed",
            AgentEvent::ObservationCreated { .. } => "agent.observation.created",
            AgentEvent::ApprovalRequested { .. } => "agent.approval.requested",
            AgentEvent::ApprovalGranted { .. } => "agent.approval.granted",
            AgentEvent::ApprovalDenied { .. } => "agent.approval.denied",
        }
    }
}

} // verus!
